//! Tree search with a TorchScript model.

use std::marker::PhantomData;
use std::sync::Arc;

use vstd::prelude::*;

use crate::engine::search::{self, clamp_iterations, search_once, SearchResult, SearchSettings};
use crate::error::{EvaluatorError, LoadError};
use crate::inference::batch::{EnvBatch, Evaluation};
use crate::inference::forward::{self, evaluate_torch, ForwardInput};
use crate::inference::torch::{Device, IValue, TorchTensor};

verus! {

/// A TorchScript module of type `M` and the device that it runs on.
pub struct ModelWrapper<M> {
    model: M,
    device: Device,
}

impl<M> ModelWrapper<M> {
    /// The module.
    pub closed spec fn model(&self) -> M {
        self.model
    }

    /// The device that the module runs on.
    pub closed spec fn device(&self) -> Device {
        self.device
    }

    /// `r` is what loading a module came to: the module on the processor, or the error.
    pub open spec fn loaded(read: Result<M, String>, r: Result<Self, LoadError>) -> bool {
        match read {
            Ok(model) => r matches Ok(wrapper) && wrapper.model() == model && wrapper.device()
                == Device::Cpu,
            Err(detail) => r == Err::<Self, LoadError>(LoadError::Torch { detail }),
        }
    }

    /// Takes a module that was read from a file, to be run on the processor.
    pub fn from_loaded(read: Result<M, String>) -> (r: Result<Self, LoadError>)
        ensures
            Self::loaded(read, r),
    {
        match read {
            Ok(model) => Ok(ModelWrapper { model, device: Device::Cpu }),
            Err(detail) => Err(LoadError::Torch { detail }),
        }
    }

    /// Loads a module from a file, which `read` reads.
    pub fn load_from_file<F: FnOnce(&str) -> Result<M, String>>(path: &str, read: F) -> (r: Result<
        Self,
        LoadError,
    >)
        requires
            call_requires(read, (path,)),
        ensures
            exists|module: Result<M, String>| #[trigger]
                call_ensures(read, (path,), module) && Self::loaded(module, r),
    {
        let module = read(path);
        Self::from_loaded(module)
    }

    /// The module.
    pub fn module(&self) -> (r: &M)
        ensures
            *r == self.model(),
    {
        &self.model
    }

    /// The device that the module runs on.
    pub fn get_device(&self) -> (r: Device)
        ensures
            r == self.device(),
    {
        self.device
    }
}

/// Evaluates batches with a shared module.
pub struct TchEvaluator<M> {
    pub model: Arc<ModelWrapper<M>>,
}

impl<M> TchEvaluator<M> {
    pub fn new(model: Arc<ModelWrapper<M>>) -> (r: Self)
        ensures
            r.model == model,
    {
        TchEvaluator { model }
    }

    /// Evaluates a batch. The forward pass is `forward`.
    pub fn evaluate<F: FnOnce(&ModelWrapper<M>, &ForwardInput) -> Result<
        IValue<TorchTensor>,
        String,
    >>(&self, batch: &EnvBatch, forward: F) -> (r: Result<Evaluation, EvaluatorError>)
        requires
            batch.well_formed(),
            forall|input: &ForwardInput|
                batch.envs@.len() > 0 && input@ == forward::input_of(*batch)
                    ==> call_requires(forward, (&*self.model, input)),
        ensures
            forward::torch_evaluated(&*self.model, *batch, forward, r),
    {
        evaluate_torch(&*self.model, batch, forward)
    }
}

/// A policy that searches with a shared module, in environments of type `G`. Each choice starts
/// a search of its own.
pub struct MctsDlPolicy<M, G> {
    model: Arc<ModelWrapper<M>>,
    num_simulations: usize,
    _marker: PhantomData<G>,
}

impl<M, G> MctsDlPolicy<M, G> {
    /// The module that the policy searches with.
    pub closed spec fn model(&self) -> Arc<ModelWrapper<M>> {
        self.model
    }

    /// The number of simulations of a search.
    pub closed spec fn iterations(&self) -> usize {
        self.num_simulations
    }

    pub fn new(model: Arc<ModelWrapper<M>>, _env: &G, num_simulations: usize) -> (r: Self)
        ensures
            r.model() == model,
            r.iterations() == num_simulations,
    {
        MctsDlPolicy { model, num_simulations, _marker: PhantomData }
    }

    /// Sets the number of simulations, to one at least.
    pub fn set_iterations(&mut self, sims: usize)
        ensures
            final(self).iterations() == search::at_least_one(sims),
            final(self).iterations() >= 1,
            final(self).model() == old(self).model(),
    {
        self.num_simulations = clamp_iterations(sims);
    }

    /// Chooses an action by one search, which is `search`. Its failure is returned as it is.
    pub fn choose_action<E, F: FnOnce(&Arc<ModelWrapper<M>>, &G, SearchSettings) -> Result<
        Option<SearchResult>,
        E,
    >>(&self, env: &G, search: F) -> (r: Result<Option<usize>, E>)
        requires
            call_requires(
                search,
                (&self.model(), env, search::settings_for(self.iterations())),
            ),
        ensures
            search::searched_once(
                &self.model(),
                env,
                self.iterations(),
                search,
                r,
            ),
    {
        choose_action_once(&self.model, env, self.num_simulations, search)
    }
}

/// Chooses an action by one search with a module, which is `search`.
pub fn choose_action_once<M, G, E, F: FnOnce(&Arc<ModelWrapper<M>>, &G, SearchSettings) -> Result<
    Option<SearchResult>,
    E,
>>(model: &Arc<ModelWrapper<M>>, env: &G, num_simulations: usize, search: F) -> (r: Result<
    Option<usize>,
    E,
>)
    requires
        call_requires(
            search,
            (model, env, search::settings_for(num_simulations)),
        ),
    ensures
        search::searched_once(model, env, num_simulations, search, r),
{
    search_once(model, env, num_simulations, search)
}

/// A module that was read is kept, on the processor. One that could not be read gives its own
/// failure.
pub proof fn law_modules_are_kept<M>(
    read: Result<M, String>,
    r: Result<ModelWrapper<M>, LoadError>,
)
    requires
        ModelWrapper::loaded(read, r),
    ensures
        r is Ok <==> read is Ok,
        r matches Ok(wrapper) ==> wrapper.model() == read->Ok_0 && wrapper.device() == Device::Cpu,
        r matches Err(e) ==> e == (LoadError::Torch { detail: read->Err_0 }),
{
}

} // verus!
