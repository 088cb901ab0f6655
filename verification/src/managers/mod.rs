//! The speech-recognition workers: the parts of their protocol and setup
//! that are decisions rather than process handling.

pub mod qwen_mlx;
pub mod sherpa_onnx;
pub mod worker_protocol;
