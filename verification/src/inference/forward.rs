//! The input of a forward pass, and the evaluation of a batch with a TorchScript model.

use vstd::prelude::*;

use crate::error::EvaluatorError;
use crate::inference::batch::{
    self, batch_dims, empty_output, encode_batch, BatchDims, EnvBatch, Evaluation, FloatBits,
};
use crate::inference::tensor;
use crate::inference::torch::{self, assemble_output, unwrap_outputs, IValue, TorchTensor};

verus! {

/// A tensor that a model is given under a name.
#[derive(PartialEq, Eq, Debug)]
pub struct NamedTensor {
    pub name: &'static str,
    pub shape: Vec<usize>,
    pub data: Vec<FloatBits>,
}

/// What a forward pass is given: the boards and the scalars of a batch, in this order.
#[derive(PartialEq, Eq, Debug)]
pub struct ForwardInput {
    pub board: NamedTensor,
    pub scalars: NamedTensor,
}

/// The contents of a [`NamedTensor`].
#[verifier::ext_equal]
pub struct NamedModel {
    pub name: Seq<char>,
    pub shape: Seq<usize>,
    pub data: Seq<FloatBits>,
}

/// The contents of a [`ForwardInput`].
#[verifier::ext_equal]
pub struct ForwardModel {
    pub board: NamedModel,
    pub scalars: NamedModel,
}

impl View for NamedTensor {
    type V = NamedModel;

    open spec fn view(&self) -> NamedModel {
        NamedModel { name: self.name@, shape: self.shape@, data: self.data@ }
    }
}

impl View for ForwardInput {
    type V = ForwardModel;

    open spec fn view(&self) -> ForwardModel {
        ForwardModel { board: self.board@, scalars: self.scalars@ }
    }
}

/// Flat features as the inputs of a model: `board` with channels, rows and columns for each
/// environment, and `scalars`.
pub open spec fn features(
    dims: BatchDims,
    board: Seq<FloatBits>,
    scalars: Seq<FloatBits>,
) -> ForwardModel {
    ForwardModel {
        board: NamedModel {
            name: "board"@,
            shape: seq![dims.batch, dims.channels, dims.rows, dims.cols],
            data: board,
        },
        scalars: NamedModel {
            name: "scalars"@,
            shape: seq![dims.batch, dims.scalars],
            data: scalars,
        },
    }
}

/// The dimensions of a batch that is not empty.
pub open spec fn dims_of_batch(batch: EnvBatch) -> BatchDims {
    batch::dims_of(batch.envs@.len() as usize, batch.lead->Some_0)
}

/// The inputs of a model for a batch that is not empty: row `i` of each holds the features of
/// environment `i`.
pub open spec fn input_of(batch: EnvBatch) -> ForwardModel {
    features(
        dims_of_batch(batch),
        tensor::joined(batch::board_rows(batch.envs@)),
        tensor::joined(batch::scalar_rows(batch.envs@)),
    )
}

/// The number of actions of a batch that is not empty.
pub open spec fn actions_of(batch: EnvBatch) -> usize {
    batch.lead->Some_0.action_space
}

/// The evaluation of an empty batch.
pub open spec fn empty_evaluation() -> Result<
    batch::EvaluationModel,
    EvaluatorError,
> {
    Ok(
        batch::EvaluationModel {
            output: batch::empty_model(),
            width_mismatch: None,
        },
    )
}

/// Flat features as the inputs of a model.
pub fn forward_input(dims: &BatchDims, board: Vec<FloatBits>, scalars: Vec<FloatBits>) -> (r:
    ForwardInput)
    ensures
        r@ == features(*dims, board@, scalars@),
{
    let r = ForwardInput {
        board: NamedTensor {
            name: "board",
            shape: vec![dims.batch, dims.channels, dims.rows, dims.cols],
            data: board,
        },
        scalars: NamedTensor {
            name: "scalars",
            shape: vec![dims.batch, dims.scalars],
            data: scalars,
        },
    };
    assert(r@ =~= features(*dims, board@, scalars@));
    r
}

/// The evaluation of an empty batch, for which no model is asked.
pub fn evaluate_nothing() -> (r: Evaluation)
    ensures
        Ok::<_, EvaluatorError>(r@) == empty_evaluation(),
{
    Evaluation { output: empty_output(), width_mismatch: None }
}

/// What the reply of a TorchScript model amounts to.
pub open spec fn torch_reply(
    reply: Result<IValue<TorchTensor>, String>,
    batch: usize,
    action_space: usize,
) -> Result<batch::EvaluationModel, EvaluatorError> {
    match reply {
        Err(detail) => Err(EvaluatorError::TorchForward { detail }),
        Ok(outputs) => match torch::unwrapped(outputs) {
            Err(e) => Err(e),
            Ok(tensors) => torch::torch_evaluation(tensors, batch, action_space),
        },
    }
}

/// Turns the reply of a TorchScript model into the evaluation of a batch.
pub fn finish_torch(
    reply: Result<IValue<TorchTensor>, String>,
    dims: &BatchDims,
    action_space: usize,
) -> (r: Result<Evaluation, EvaluatorError>)
    ensures
        batch::evaluation_view(r) == torch_reply(reply, dims.batch, action_space),
{
    match reply {
        Err(detail) => Err(EvaluatorError::TorchForward { detail }),
        Ok(outputs) => match unwrap_outputs(outputs) {
            Err(e) => Err(e),
            Ok(tensors) => assemble_output(tensors, dims, action_space),
        },
    }
}

/// `r` is the evaluation of a batch by a TorchScript model: nothing is asked of it for an empty
/// batch; else it is run once, on the features of the batch, and its reply is turned into the
/// evaluation.
pub open spec fn torch_evaluated<M, F: FnOnce(&M, &ForwardInput) -> Result<
    IValue<TorchTensor>,
    String,
>>(model: &M, batch: EnvBatch, forward: F, r: Result<Evaluation, EvaluatorError>) -> bool {
    if batch.envs@.len() == 0 {
        batch::evaluation_view(r) == empty_evaluation()
    } else {
        exists|input: ForwardInput, reply: Result<IValue<TorchTensor>, String>|
            input@ == input_of(batch) && #[trigger] call_ensures(forward, (model, &input), reply)
                && batch::evaluation_view(r) == torch_reply(
                reply,
                batch.envs@.len() as usize,
                actions_of(batch),
            )
    }
}

/// Evaluates a batch with a TorchScript model, whose forward pass is `forward`.
pub fn evaluate_torch<M, F: FnOnce(&M, &ForwardInput) -> Result<IValue<TorchTensor>, String>>(
    model: &M,
    batch: &EnvBatch,
    forward: F,
) -> (r: Result<Evaluation, EvaluatorError>)
    requires
        batch.well_formed(),
        forall|input: &ForwardInput|
            batch.envs@.len() > 0 && input@ == input_of(*batch) ==> call_requires(
                forward,
                (model, input),
            ),
    ensures
        torch_evaluated(model, *batch, forward, r),
{
    match &batch.lead {
        None => Ok(evaluate_nothing()),
        Some(lead) => {
            let dims = batch_dims(batch.envs.len(), lead);
            let (board, scalars) = encode_batch(batch.envs.as_slice());
            let input = forward_input(&dims, board, scalars);
            let reply = forward(model, &input);
            finish_torch(reply, &dims, lead.action_space)
        },
    }
}

} // verus!
