//! Policies that choose an action.

pub mod mcts_dl;
pub mod policies;
pub mod search;
