//! The policy and inference layer of a Banqi engine.
//!
//! - `engine`: random policies that prefer one kind of move, and policies that search;
//! - `inference`: batches of environments, the TorchScript and ONNX back ends, and the alignment
//!   of what a model returns to the action space, with `laws` and `fidelity`, which state what
//!   holds of evaluations as a whole and of each of their elements;
//! - `nnue`: engines that are built from an NNUE weight file;
//! - `error`, `text`: errors and the messages they are shown with.

// Modules that only contracts name are unused once ghost code is erased.
#![allow(unused_imports)]

pub mod engine;
pub mod error;
pub mod inference;
pub mod nnue;
pub mod text;
