//! TorchScript outputs: unpacking the returned tuple and assembling the evaluation.

use vstd::prelude::*;

use crate::error::{EvaluatorError, OutputName};
use crate::inference::batch::{self, output_from_flat_logits, BatchDims, Evaluation, FloatBits};
use crate::inference::tensor::{self, second_dim_or_zero, split_rows, wide_product};

verus! {

/// Where a module runs.
#[derive(Clone, Copy, PartialEq, Eq, Debug, Structural)]
pub enum Device {
    Cpu,
    Cuda(usize),
    Mps,
    Vulkan,
}

/// A tensor that a module returned: its extents, and its elements or why they could not be read.
#[derive(PartialEq, Eq, Debug)]
pub struct TorchTensor {
    pub shape: Vec<usize>,
    pub data: Result<Vec<FloatBits>, String>,
}

/// What a TorchScript model returns, for tensors of type `T`.
pub enum IValue<T> {
    Tensor(T),
    Tuple(Vec<IValue<T>>),
    /// A value of any other kind.
    Other,
}

/// The tensors of a forward pass: policy logits, values and, where the model has that head,
/// health logits.
pub struct TorchOutputs<T> {
    pub policy_logits: T,
    pub value: T,
    pub health: Option<T>,
}

/// The tensor that a tuple holds in a place, or why it holds none there.
pub open spec fn tensor_in<T>(place: IValue<T>, output: OutputName) -> Result<T, EvaluatorError> {
    match place {
        IValue::Tensor(t) => Ok(t),
        _ => Err(EvaluatorError::TorchNotTensor { output }),
    }
}

/// What a returned value unpacks to. The tuple is `(policy_logits, value)` or
/// `(policy_logits, health, value)`; of several faults the one nearest to its end is reported.
pub open spec fn unwrapped<T>(outputs: IValue<T>) -> Result<TorchOutputs<T>, EvaluatorError> {
    match outputs {
        IValue::Tuple(t) => if t@.len() == 2 {
            match (tensor_in(t@[1], OutputName::Value), tensor_in(t@[0], OutputName::PolicyLogits)) {
                (Err(e), _) => Err(e),
                (_, Err(e)) => Err(e),
                (Ok(value), Ok(policy_logits)) => Ok(
                    TorchOutputs { policy_logits, value, health: None },
                ),
            }
        } else if t@.len() == 3 {
            match (
                tensor_in(t@[2], OutputName::Value),
                tensor_in(t@[1], OutputName::Health),
                tensor_in(t@[0], OutputName::PolicyLogits),
            ) {
                (Err(e), _, _) => Err(e),
                (_, Err(e), _) => Err(e),
                (_, _, Err(e)) => Err(e),
                (Ok(value), Ok(health), Ok(policy_logits)) => Ok(
                    TorchOutputs { policy_logits, value, health: Some(health) },
                ),
            }
        } else {
            Err(EvaluatorError::TorchTupleLength { len: t@.len() as usize })
        },
        _ => Err(EvaluatorError::TorchNotTuple),
    }
}

/// The elements of a tensor, of which `needed` are asked for, or why there are not as many.
pub open spec fn elements(t: TorchTensor, output: OutputName, needed: int) -> Result<
    Seq<FloatBits>,
    EvaluatorError,
> {
    match t.data {
        Err(detail) => Err(EvaluatorError::TorchExtract { output, detail }),
        Ok(data) => if data@.len() < needed {
            Err(
                EvaluatorError::TorchShortOutput {
                    output,
                    len: data@.len() as usize,
                    needed: needed as u128,
                },
            )
        } else {
            Ok(data@)
        },
    }
}

/// The health rows of a forward pass.
pub open spec fn health_rows(health: Option<TorchTensor>, batch: usize) -> Result<
    Option<Seq<Seq<FloatBits>>>,
    EvaluatorError,
> {
    match health {
        None => Ok(None),
        Some(t) => {
            let buckets = tensor::second_dim(t.shape@);
            if buckets == 0 {
                Err(EvaluatorError::TorchHealthDim)
            } else {
                match elements(t, OutputName::Health, batch * buckets) {
                    Err(e) => Err(e),
                    Ok(data) => Ok(Some(tensor::rows_of(data, buckets as nat, batch as nat))),
                }
            }
        },
    }
}

/// The evaluation that the tensors of a forward pass amount to. Of several faults the first is
/// reported, in the order policy, value, health.
pub open spec fn torch_evaluation(
    outputs: TorchOutputs<TorchTensor>,
    batch: usize,
    action_space: usize,
) -> Result<batch::EvaluationModel, EvaluatorError> {
    let model_action = tensor::second_dim(outputs.policy_logits.shape@);
    if model_action == 0 {
        Err(EvaluatorError::TorchMissingActionDim)
    } else {
        match (
            elements(outputs.policy_logits, OutputName::PolicyLogits, batch * model_action),
            elements(outputs.value, OutputName::Value, 0),
        ) {
            (Err(e), _) => Err(e),
            (_, Err(e)) => Err(e),
            (Ok(flat), Ok(values)) => if values.len() != batch {
                Err(EvaluatorError::ValueLength { len: values.len() as usize, batch })
            } else {
                match health_rows(outputs.health, batch) {
                    Err(e) => Err(e),
                    Ok(health) => batch::flat_evaluation(
                        flat,
                        model_action,
                        batch,
                        action_space,
                        values,
                        health,
                    ),
                }
            },
        }
    }
}

/// Takes the last element of a tuple, which has to be a tensor.
pub fn pop_tensor<T>(places: &mut Vec<IValue<T>>, output: OutputName) -> (r: Result<T, EvaluatorError>)
    ensures
        old(places)@.len() == 0 ==> {
            &&& final(places)@ == old(places)@
            &&& r == Err::<T, EvaluatorError>(EvaluatorError::TorchMissingOutput { output })
        },
        old(places)@.len() > 0 ==> {
            &&& final(places)@ == old(places)@.drop_last()
            &&& r == tensor_in(old(places)@.last(), output)
        },
{
    match places.pop() {
        Some(IValue::Tensor(t)) => Ok(t),
        Some(_) => Err(EvaluatorError::TorchNotTensor { output }),
        None => Err(EvaluatorError::TorchMissingOutput { output }),
    }
}

/// Unpacks what a forward pass returned: a tuple of two tensors, or of three where the model has
/// a health head.
pub fn unwrap_outputs<T>(outputs: IValue<T>) -> (r: Result<TorchOutputs<T>, EvaluatorError>)
    ensures
        r == unwrapped(outputs),
{
    let mut places = match outputs {
        IValue::Tuple(t) => t,
        _ => {
            return Err(EvaluatorError::TorchNotTuple);
        },
    };
    let n: usize = places.len();
    if n != 2 && n != 3 {
        return Err(EvaluatorError::TorchTupleLength { len: n });
    }
    let value = match pop_tensor(&mut places, OutputName::Value) {
        Ok(t) => t,
        Err(e) => {
            return Err(e);
        },
    };
    let health = if n == 3 {
        match pop_tensor(&mut places, OutputName::Health) {
            Ok(t) => Some(t),
            Err(e) => {
                return Err(e);
            },
        }
    } else {
        None
    };
    let policy_logits = match pop_tensor(&mut places, OutputName::PolicyLogits) {
        Ok(t) => t,
        Err(e) => {
            return Err(e);
        },
    };
    Ok(TorchOutputs { policy_logits, value, health })
}

/// The elements of a tensor, of which `needed` are asked for.
fn read_elements(t: TorchTensor, output: OutputName, needed: u128) -> (r: Result<
    Vec<FloatBits>,
    EvaluatorError,
>)
    ensures
        match r {
            Ok(data) => elements(t, output, needed as int) == Ok::<_, EvaluatorError>(data@),
            Err(e) => elements(t, output, needed as int) == Err::<Seq<FloatBits>, _>(e),
        },
{
    match t.data {
        Err(detail) => Err(EvaluatorError::TorchExtract { output, detail }),
        Ok(data) => if (data.len() as u128) < needed {
            Err(EvaluatorError::TorchShortOutput { output, len: data.len(), needed })
        } else {
            Ok(data)
        },
    }
}

/// Assembles the evaluation of a batch from the tensors of a forward pass.
pub fn assemble_output(
    outputs: TorchOutputs<TorchTensor>,
    dims: &BatchDims,
    action_space: usize,
) -> (r: Result<Evaluation, EvaluatorError>)
    ensures
        batch::evaluation_view(r) == torch_evaluation(outputs, dims.batch, action_space),
{
    let batch: usize = dims.batch;
    let TorchOutputs { policy_logits, value, health } = outputs;
    let model_action: usize = second_dim_or_zero(policy_logits.shape.as_slice());
    if model_action == 0 {
        return Err(EvaluatorError::TorchMissingActionDim);
    }
    let flat = match read_elements(
        policy_logits,
        OutputName::PolicyLogits,
        wide_product(batch, model_action),
    ) {
        Ok(flat) => flat,
        Err(e) => {
            return Err(e);
        },
    };
    let values = match read_elements(value, OutputName::Value, 0) {
        Ok(values) => values,
        Err(e) => {
            return Err(e);
        },
    };
    if values.len() != batch {
        return Err(EvaluatorError::ValueLength { len: values.len(), batch });
    }
    let rows: Option<Vec<Vec<FloatBits>>> = match health {
        None => None,
        Some(t) => {
            let buckets: usize = second_dim_or_zero(t.shape.as_slice());
            if buckets == 0 {
                return Err(EvaluatorError::TorchHealthDim);
            }
            match read_elements(t, OutputName::Health, wide_product(batch, buckets)) {
                Ok(data) => Some(split_rows(data.as_slice(), buckets, batch)),
                Err(e) => {
                    return Err(e);
                },
            }
        },
    };
    output_from_flat_logits(flat.as_slice(), model_action, batch, action_space, values, rows)
}

} // verus!
