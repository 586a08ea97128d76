//! What a policy asks of a tree search, and what it takes from it.

use vstd::prelude::*;

use crate::inference::batch::FloatBits;

verus! {

/// The bit pattern of one.
pub const ONE_BITS: FloatBits = 0x3f80_0000;

/// The number of actions that a search considers at its root.
pub const MAX_CONSIDERED_ACTIONS: usize = 16;

/// The settings of a Gumbel search that are not left at their defaults.
#[derive(Clone, Copy, PartialEq, Eq, Debug, Structural)]
pub struct SearchSettings {
    pub num_simulations: usize,
    pub max_considered_actions: usize,
    pub c_scale: FloatBits,
    pub gumbel_scale: FloatBits,
}

/// What is read of the result of a search.
#[derive(Clone, Copy, PartialEq, Eq, Debug, Structural)]
pub struct SearchResult {
    pub action: usize,
}

/// The settings of a search with a number of simulations.
pub open spec fn settings_for(num_simulations: usize) -> SearchSettings {
    SearchSettings {
        num_simulations,
        max_considered_actions: MAX_CONSIDERED_ACTIONS,
        c_scale: ONE_BITS,
        gumbel_scale: ONE_BITS,
    }
}

/// The action that a search settled on: none where it found none, its error where it failed.
pub open spec fn selected<E>(searched: Result<Option<SearchResult>, E>) -> Result<
    Option<usize>,
    E,
> {
    match searched {
        Ok(Some(result)) => Ok(Some(result.action)),
        Ok(None) => Ok(None),
        Err(e) => Err(e),
    }
}

/// `r` is the outcome of one search with `num_simulations` simulations, run on a model and an
/// environment.
pub open spec fn searched_once<M, G, E, F: FnOnce(&M, &G, SearchSettings) -> Result<
    Option<SearchResult>,
    E,
>>(
    model: &M,
    env: &G,
    num_simulations: usize,
    search: F,
    r: Result<Option<usize>, E>,
) -> bool {
    exists|searched: Result<Option<SearchResult>, E>| #[trigger]
        call_ensures(search, (model, env, settings_for(num_simulations)), searched) && r
            == selected(searched)
}

/// The settings of a search with a number of simulations.
pub fn search_settings(num_simulations: usize) -> (r: SearchSettings)
    ensures
        r == settings_for(num_simulations),
{
    SearchSettings {
        num_simulations,
        max_considered_actions: MAX_CONSIDERED_ACTIONS,
        c_scale: ONE_BITS,
        gumbel_scale: ONE_BITS,
    }
}

/// The action that a search settled on.
pub fn selected_action<E>(searched: Result<Option<SearchResult>, E>) -> (r: Result<
    Option<usize>,
    E,
>)
    ensures
        r == selected(searched),
{
    match searched {
        Ok(Some(result)) => Ok(Some(result.action)),
        Ok(None) => Ok(None),
        Err(e) => Err(e),
    }
}

/// Runs one search on a model and an environment and takes its action.
pub fn search_once<M, G, E, F: FnOnce(&M, &G, SearchSettings) -> Result<Option<SearchResult>, E>>(
    model: &M,
    env: &G,
    num_simulations: usize,
    search: F,
) -> (r: Result<Option<usize>, E>)
    requires
        call_requires(search, (model, env, settings_for(num_simulations))),
    ensures
        searched_once(model, env, num_simulations, search, r),
{
    let searched = search(model, env, search_settings(num_simulations));
    selected_action(searched)
}

/// A number of simulations, raised to one where it is zero.
pub open spec fn at_least_one(sims: usize) -> usize {
    if sims == 0 {
        1
    } else {
        sims
    }
}

/// A number of simulations, raised to one where it is zero.
pub fn clamp_iterations(sims: usize) -> (r: usize)
    ensures
        r == at_least_one(sims),
{
    if sims == 0 {
        1
    } else {
        sims
    }
}

/// A search is asked for exactly the simulations that its caller wants, among sixteen actions, and
/// with both scales at one.
pub proof fn law_searches_run_as_often_as_asked(num_simulations: usize)
    ensures
        settings_for(num_simulations).num_simulations == num_simulations,
        settings_for(num_simulations).max_considered_actions == 16,
        settings_for(num_simulations).c_scale == 0x3f80_0000,
        settings_for(num_simulations).gumbel_scale == 0x3f80_0000,
{
}

/// A number of simulations that is set is kept, unless it is zero: a search has one at least.
pub proof fn law_iterations_are_kept(sims: usize)
    ensures
        sims >= 1 ==> at_least_one(sims) == sims,
        sims == 0 ==> at_least_one(sims) == 1,
{
}

/// A choice is what one search of the asked size came to: the action that it found, none where it
/// found none, and its failure where it failed.
pub proof fn law_choices_are_what_the_search_found<
    M,
    G,
    E,
    F: FnOnce(&M, &G, SearchSettings) -> Result<Option<SearchResult>, E>,
>(model: &M, env: &G, num_simulations: usize, search: F, r: Result<Option<usize>, E>)
    requires
        searched_once(model, env, num_simulations, search, r),
    ensures
        exists|settings: SearchSettings, searched: Result<Option<SearchResult>, E>| #[trigger]
            call_ensures(search, (model, env, settings), searched) && settings.num_simulations
                == num_simulations && settings.max_considered_actions == 16 && settings.c_scale
                == 0x3f80_0000 && settings.gumbel_scale == 0x3f80_0000 && match (searched, r) {
                (Ok(Some(found)), Ok(Some(action))) => action == found.action,
                (Ok(None), Ok(None)) => true,
                (Err(failure), Err(e)) => e == failure,
                _ => false,
            },
{
    let searched = choose|searched: Result<Option<SearchResult>, E>| #[trigger]
        call_ensures(search, (model, env, settings_for(num_simulations)), searched) && r == selected(
            searched,
        );
    assert(call_ensures(search, (model, env, settings_for(num_simulations)), searched));
}

/// The outcome of a search is its action, nothing, or its failure.
pub proof fn law_outcomes_are_taken_as_they_are<E>(found: SearchResult, failure: E)
    ensures
        selected::<E>(Ok(Some(found))) == Ok::<Option<usize>, E>(Some(found.action)),
        selected::<E>(Ok(None)) == Ok::<Option<usize>, E>(None),
        selected(Err(failure)) == Err::<Option<usize>, E>(failure),
{
}

} // verus!
