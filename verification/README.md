# banqi-engine

The policy and inference layer of a Banqi (dark chess) engine, verified with Verus.

- `src/` is the library. It holds the decisions: which moves a policy chooses among, how a batch
  of environments becomes the input of a model, how the outputs of a model are read, checked and
  aligned to the action space, which execution provider a session is built on, which session
  serves a call, and what a search is asked for. Numbers of single precision are only moved, so
  they are held by their bit patterns.
- `app/` binds the library to the game environments (`banqi-core`), to LibTorch (`tch`) and to
  ONNX Runtime (`ort`). Forward passes, file access and searches are handed to the library as
  closures.
- `tests/` runs the library on concrete values.

`inference::laws` and the `law_` functions of `engine::policies`, `inference::onnx` and
`inference::tensor` state what holds of the library as a whole: a policy chooses a legal action
whenever there is one, the buckets of moves lose nothing, outputs that do not cover the batch are
never evaluated, an evaluation fits its batch, sessions take turns, and a CUDA failure alone never
fails a load. Of the same tensors both back ends make the same evaluation, or neither makes one,
unless there are more values than environments: of those ONNX drops the surplus, and TorchScript
refuses them.

The one unproved statement is that of `engine::policies::pick`, about the random choice that
`rand` makes: it returns one of the elements, and nothing for an empty list.
