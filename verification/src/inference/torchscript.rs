//! A TorchScript model that an evaluator holds by itself.

use vstd::prelude::*;

use crate::error::EvaluatorError;
use crate::inference::batch::{EnvBatch, Evaluation};
use crate::inference::forward::{self, evaluate_torch, ForwardInput};
use crate::inference::torch::{Device, IValue, TorchTensor};

verus! {

/// Evaluates batches with a module of its own, on a device of the caller's choice.
pub struct LocalEvaluator<M> {
    model: M,
    device: Device,
}

impl<M> LocalEvaluator<M> {
    /// The module.
    pub closed spec fn model(&self) -> M {
        self.model
    }

    /// The device that features are moved to.
    pub closed spec fn device(&self) -> Device {
        self.device
    }

    /// `r` is what reading a module came to: an evaluator on `device`, or the error as it is.
    pub open spec fn loaded<E>(read: Result<M, E>, device: Device, r: Result<Self, E>) -> bool {
        match read {
            Ok(model) => r matches Ok(evaluator) && evaluator.model() == model
                && evaluator.device() == device,
            Err(e) => r == Err::<Self, E>(e),
        }
    }

    /// Loads a module from a file, which `read` reads.
    pub fn new<E, F: FnOnce(&str) -> Result<M, E>>(
        model_path: &str,
        device: Device,
        read: F,
    ) -> (r: Result<Self, E>)
        requires
            call_requires(read, (model_path,)),
        ensures
            exists|module: Result<M, E>| #[trigger]
                call_ensures(read, (model_path,), module) && Self::loaded(module, device, r),
    {
        let module = read(model_path);
        match module {
            Ok(model) => Ok(LocalEvaluator { model, device }),
            Err(e) => Err(e),
        }
    }

    /// The device that features are moved to.
    pub fn get_device(&self) -> (r: Device)
        ensures
            r == self.device(),
    {
        self.device
    }

    /// The module.
    pub fn module(&self) -> (r: &M)
        ensures
            *r == self.model(),
    {
        &self.model
    }

    /// Evaluates a batch. The forward pass is `forward`, which is given the evaluator for its
    /// module and its device.
    pub fn evaluate<F: FnOnce(&LocalEvaluator<M>, &ForwardInput) -> Result<
        IValue<TorchTensor>,
        String,
    >>(&self, batch: &EnvBatch, forward: F) -> (r: Result<Evaluation, EvaluatorError>)
        requires
            batch.well_formed(),
            forall|input: &ForwardInput|
                batch.envs@.len() > 0 && input@ == forward::input_of(*batch) ==> call_requires(
                    forward,
                    (self, input),
                ),
        ensures
            forward::torch_evaluated(self, *batch, forward, r),
    {
        evaluate_torch(self, batch, forward)
    }
}

/// A module that was read is kept, on the device that was asked for. One that could not be read
/// gives its own failure.
pub proof fn law_local_modules_are_kept<M, E>(
    read: Result<M, E>,
    device: Device,
    r: Result<LocalEvaluator<M>, E>,
)
    requires
        LocalEvaluator::loaded(read, device, r),
    ensures
        r is Ok <==> read is Ok,
        r matches Ok(evaluator) ==> evaluator.model() == read->Ok_0 && evaluator.device() == device,
        r matches Err(e) ==> e == read->Err_0,
{
}

} // verus!
