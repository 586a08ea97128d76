//! Neural-network inference: batching, output alignment and the model back ends.

pub mod batch;
pub mod fidelity;
pub mod forward;
pub mod laws;
pub mod onnx;
pub mod tensor;
pub mod torch;
pub mod torchscript;
