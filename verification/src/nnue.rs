//! Engines that evaluate with an NNUE network.

use std::sync::Arc;

use vstd::prelude::*;

use crate::error::LoadError;

verus! {

/// Construction of an engine from a weight file. The file format is known to the evaluator of
/// type `E` alone.
pub trait NnueEngineExt<E>: Sized {
    /// The engine evaluates with `evaluator`.
    spec fn evaluates_with(&self, evaluator: E) -> bool;

    /// Loads the weights in a file, which `read` reads, into an engine. A failure names the file.
    fn from_nnue_file<F: FnOnce(&str) -> Result<E, String>>(path: &str, read: F) -> (r: Result<
        Self,
        LoadError,
    >)
        requires
            call_requires(read, (path,)),
        ensures
            exists|weights: Result<E, String>| #[trigger]
                call_ensures(read, (path,), weights) && match weights {
                    Ok(evaluator) => r matches Ok(engine) && engine.evaluates_with(evaluator),
                    Err(d) => r matches Err(LoadError::Nnue { path: p, detail }) && p@ == path@
                        && detail == d,
                },
    ;
}

/// An engine that shares its NNUE evaluator.
pub struct NnueEngine<E> {
    evaluator: Arc<E>,
}

impl<E> NnueEngine<E> {
    /// The evaluator of the engine.
    pub closed spec fn evaluator_view(&self) -> E {
        *self.evaluator
    }

    /// An engine that evaluates with `evaluator`.
    pub fn with_nnue(evaluator: Arc<E>) -> (r: Self)
        ensures
            r.evaluator_view() == *evaluator,
    {
        NnueEngine { evaluator }
    }

    /// The evaluator of the engine.
    pub fn into_evaluator(self) -> (r: Arc<E>)
        ensures
            *r == self.evaluator_view(),
    {
        self.evaluator
    }
}

impl<E> NnueEngineExt<E> for NnueEngine<E> {
    open spec fn evaluates_with(&self, evaluator: E) -> bool {
        self.evaluator_view() == evaluator
    }

    fn from_nnue_file<F: FnOnce(&str) -> Result<E, String>>(path: &str, read: F) -> (r: Result<
        Self,
        LoadError,
    >) {
        let weights = read(path);
        match weights {
            Ok(evaluator) => Ok(NnueEngine::with_nnue(Arc::new(evaluator))),
            Err(detail) => Err(LoadError::Nnue { path: path.to_owned(), detail }),
        }
    }
}

/// An engine evaluates with one evaluator only: the one that it was made with.
pub proof fn law_engines_keep_their_evaluator<E>(engine: NnueEngine<E>, evaluator: E)
    ensures
        engine.evaluates_with(evaluator) <==> evaluator == engine.evaluator_view(),
{
}

} // verus!
