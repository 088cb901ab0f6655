//! The Qwen3 MLX recognition worker.

use vstd::prelude::*;
use crate::managers::worker_protocol::{
    failure_message, hint_files, python_hint_files_named, reply_outcome, startup_outcome, texts,
};
use crate::text::opt_text;

verus! {

/// The failure reported when the worker cannot load its model.
pub const LOAD_FAILURE: &'static str = "Qwen3 MLX worker failed to load model";

/// The failure reported when the worker cannot transcribe.
pub const TRANSCRIBE_FAILURE: &'static str = "Qwen3 MLX transcription failed";

/// The files that may name the Python interpreter for the model:
/// `.handy-python` inside the model directory and `qwen3_mlx_python.txt`
/// beside it.
pub fn python_hint_files(model_path: &str) -> (r: Vec<String>)
    ensures
        texts(r@) == hint_files(model_path@, ".handy-python"@, "qwen3_mlx_python.txt"@),
{
    python_hint_files_named(model_path, ".handy-python", "qwen3_mlx_python.txt")
}

/// Interprets the worker's startup line.
pub fn load_outcome(ready: bool, error: Option<String>) -> (r: Result<(), String>)
    ensures
        match r {
            Ok(_) => ready,
            Err(m) => !ready && m@ == failure_message(LOAD_FAILURE@, opt_text(error)),
        },
{
    startup_outcome(ready, error, LOAD_FAILURE)
}

/// Interprets the worker's reply to a transcription request.
pub fn transcribe_outcome(ok: bool, text: Option<String>, error: Option<String>) -> (r: Result<
    String,
    String,
>)
    ensures
        match r {
            Ok(t) => ok && t@ == match text {
                Some(t) => t@,
                None => Seq::<char>::empty(),
            },
            Err(m) => !ok && m@ == failure_message(TRANSCRIBE_FAILURE@, opt_text(error)),
        },
{
    reply_outcome(ok, text, error, TRANSCRIBE_FAILURE)
}

} // verus!
