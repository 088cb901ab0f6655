//! The sherpa-onnx recognition worker, with streaming recognition.

use vstd::prelude::*;
use crate::managers::worker_protocol::{
    failure_message, failure_text, hint_files, joined_path, parent_path, path_join, path_parent,
    python_hint_files_named, reply_outcome, startup_outcome, texts,
};
use crate::text::opt_text;
use base64::Engine;

verus! {

/// The failure reported when the worker cannot load its model.
pub const LOAD_FAILURE: &'static str = "sherpa-onnx worker failed to load model";

/// The failure reported when the worker cannot transcribe.
pub const TRANSCRIBE_FAILURE: &'static str = "sherpa-onnx transcription failed";

/// The failure reported when streaming cannot start.
pub const STREAM_START_FAILURE: &'static str = "sherpa-onnx streaming start failed";

/// The failure reported when streamed audio cannot be recognised.
pub const STREAM_FEED_FAILURE: &'static str = "sherpa-onnx streaming feed failed";

/// The failure reported when streaming cannot be cancelled.
pub const STREAM_CANCEL_FAILURE: &'static str = "sherpa-onnx streaming cancel failed";

/// What streaming recognition has heard so far: all of it, and the part
/// that will not change any more.
pub struct SherpaStreamUpdate {
    pub text: String,
    pub stable_text: String,
}

/// The view of an optional text, empty when absent.
pub open spec fn text_or_empty(t: Option<String>) -> Seq<char> {
    match t {
        Some(t) => t@,
        None => Seq::<char>::empty(),
    }
}

/// Interprets the worker's startup line.
pub fn load_outcome(ready: bool, error: Option<String>) -> (r: Result<(), String>)
    ensures
        match r {
            Ok(_) => ready,
            Err(m) => !ready && m@ == failure_message(LOAD_FAILURE@, opt_text(error)),
        },
{
    startup_outcome(ready, error, LOAD_FAILURE)
}

/// Interprets the worker's reply to a transcription request.
pub fn transcribe_outcome(ok: bool, text: Option<String>, error: Option<String>) -> (r: Result<
    String,
    String,
>)
    ensures
        match r {
            Ok(t) => ok && t@ == text_or_empty(text),
            Err(m) => !ok && m@ == failure_message(TRANSCRIBE_FAILURE@, opt_text(error)),
        },
{
    reply_outcome(ok, text, error, TRANSCRIBE_FAILURE)
}

/// Interprets the worker's reply to a streaming start or cancel request;
/// `failure` names the request.
pub fn acknowledgement_outcome(ok: bool, error: Option<String>, failure: &str) -> (r: Result<
    (),
    String,
>)
    ensures
        match r {
            Ok(_) => ok,
            Err(m) => !ok && m@ == failure_message(failure@, opt_text(error)),
        },
{
    if !ok {
        return Err(failure_text(failure, error));
    }
    Ok(())
}

/// Interprets the worker's reply to streamed audio: on success what it has
/// heard so far (empty texts when absent).
pub fn stream_feed_outcome(
    ok: bool,
    text: Option<String>,
    stable_text: Option<String>,
    error: Option<String>,
) -> (r: Result<SherpaStreamUpdate, String>)
    ensures
        match r {
            Ok(u) => ok && u.text@ == text_or_empty(text) && u.stable_text@ == text_or_empty(
                stable_text,
            ),
            Err(m) => !ok && m@ == failure_message(STREAM_FEED_FAILURE@, opt_text(error)),
        },
{
    if !ok {
        return Err(failure_text(STREAM_FEED_FAILURE, error));
    }
    let text = match text {
        Some(t) => t,
        None => String::new(),
    };
    let stable_text = match stable_text {
        Some(t) => t,
        None => String::new(),
    };
    Ok(SherpaStreamUpdate { text, stable_text })
}

// ---------------------------------------------------------------------------
// Streamed audio
// ---------------------------------------------------------------------------

/// The two's-complement value of a 16-bit sample, as an unsigned number.
pub open spec fn sample_bits(s: i16) -> int {
    if s < 0 {
        s + 65536
    } else {
        s as int
    }
}

/// 16-bit samples as little-endian bytes.
pub open spec fn pcm16_le(samples: Seq<i16>) -> Seq<u8>
    decreases samples.len(),
{
    if samples.len() == 0 {
        Seq::<u8>::empty()
    } else {
        let u = sample_bits(samples.last());
        pcm16_le(samples.drop_last()) + seq![(u % 256) as u8, (u / 256) as u8]
    }
}

/// The character of a base64 digit in the standard alphabet.
pub open spec fn base64_digit(v: int) -> char {
    if v < 26 {
        (65 + v) as char
    } else if v < 52 {
        (97 + v - 26) as char
    } else if v < 62 {
        (48 + v - 52) as char
    } else if v == 62 {
        '+'
    } else {
        '/'
    }
}

/// Standard base64 with padding (RFC 4648): every three bytes become four
/// digits, and a final group of one or two bytes is padded with `=`.
pub open spec fn base64_standard(b: Seq<u8>) -> Seq<char>
    decreases b.len(),
{
    if b.len() == 0 {
        Seq::<char>::empty()
    } else if b.len() == 1 {
        seq![base64_digit((b[0] as int) / 4), base64_digit(((b[0] as int) % 4) * 16), '=', '=']
    } else if b.len() == 2 {
        seq![
            base64_digit((b[0] as int) / 4),
            base64_digit(((b[0] as int) % 4) * 16 + (b[1] as int) / 16),
            base64_digit(((b[1] as int) % 16) * 4),
            '=',
        ]
    } else {
        seq![
            base64_digit((b[0] as int) / 4),
            base64_digit(((b[0] as int) % 4) * 16 + (b[1] as int) / 16),
            base64_digit(((b[1] as int) % 16) * 4 + (b[2] as int) / 64),
            base64_digit((b[2] as int) % 64),
        ] + base64_standard(b.skip(3))
    }
}

/// Encodes bytes with `base64::engine::general_purpose::STANDARD`, the
/// standard alphabet with padding. The engine panics when the encoded length
/// does not fit in a `usize`, which `requires` excludes.
#[verifier::external_body]
fn encode_base64(bytes: &[u8]) -> (r: String)
    requires
        (bytes@.len() + 2) / 3 * 4 <= usize::MAX,
    ensures
        r@ == base64_standard(bytes@),
{
    base64::engine::general_purpose::STANDARD.encode(bytes)
}

/// The little-endian bytes of 16-bit samples.
pub fn pcm16_le_bytes(samples: &[i16]) -> (r: Vec<u8>)
    requires
        samples@.len() * 2 <= usize::MAX,
    ensures
        r@ == pcm16_le(samples@),
{
    let mut bytes: Vec<u8> = Vec::new();
    let mut i: usize = 0;
    while i < samples.len()
        invariant
            i <= samples@.len(),
            bytes@ == pcm16_le(samples@.take(i as int)),
        decreases samples@.len() - i,
    {
        let s = samples[i];
        let u: u32 = if s < 0 {
            (s as i32 + 65536) as u32
        } else {
            s as u32
        };
        assert(u == sample_bits(s));
        bytes.push((u % 256) as u8);
        bytes.push((u / 256) as u8);
        assert(samples@.take(i + 1).drop_last() =~= samples@.take(i as int));
        i = i + 1;
    }
    assert(samples@.take(samples@.len() as int) =~= samples@);
    bytes
}

/// The payload of streamed audio: the samples' little-endian bytes in
/// standard base64.
pub fn pcm16_payload(samples: &[i16]) -> (r: String)
    requires
        samples@.len() <= usize::MAX / 4,
    ensures
        r@ == base64_standard(pcm16_le(samples@)),
{
    let bytes = pcm16_le_bytes(samples);
    proof {
        lemma_pcm16_le_len(samples@);
    }
    encode_base64(bytes.as_slice())
}

proof fn lemma_pcm16_le_len(samples: Seq<i16>)
    ensures
        pcm16_le(samples).len() == 2 * samples.len(),
    decreases samples.len(),
{
    if samples.len() > 0 {
        lemma_pcm16_le_len(samples.drop_last());
    }
}

// ---------------------------------------------------------------------------
// The Python runtime
// ---------------------------------------------------------------------------

/// The files that may name the Python interpreter for the model:
/// `.handy-sherpa-python` inside the model directory and
/// `sherpa_onnx_python.txt` beside it.
pub fn python_hint_files(model_path: &str) -> (r: Vec<String>)
    ensures
        texts(r@) == hint_files(model_path@, ".handy-sherpa-python"@, "sherpa_onnx_python.txt"@),
{
    python_hint_files_named(model_path, ".handy-sherpa-python", "sherpa_onnx_python.txt")
}

/// The directory of the private Python runtime: `.sherpa-onnx-runtime`
/// beside the model directory.
pub open spec fn runtime_dir(model_path: Seq<char>) -> Option<Seq<char>> {
    match parent_path(model_path) {
        Some(models) => Some(joined_path(models, ".sherpa-onnx-runtime"@)),
        None => None,
    }
}

/// The directory of the private Python runtime, or an error when the model
/// path has no parent.
pub fn managed_runtime_dir(model_path: &str) -> (r: Result<String, String>)
    ensures
        match r {
            Ok(dir) => runtime_dir(model_path@) == Some(dir@),
            Err(m) => runtime_dir(model_path@) is None && m@ == "model path has no parent: "@
                + model_path@,
        },
{
    match path_parent(model_path) {
        Some(models_dir) => Ok(path_join(models_dir.as_str(), ".sherpa-onnx-runtime")),
        None => {
            let mut m = String::from_str("model path has no parent: ");
            m.append(model_path);
            Err(m)
        },
    }
}

/// The interpreter of the private Python runtime: `Scripts/python.exe` in
/// it on Windows, `bin/python` elsewhere.
pub open spec fn runtime_python(dir: Seq<char>, windows: bool) -> Seq<char> {
    if windows {
        joined_path(joined_path(dir, "Scripts"@), "python.exe"@)
    } else {
        joined_path(joined_path(dir, "bin"@), "python"@)
    }
}

/// The interpreter of the private Python runtime, for a Windows layout when
/// `windows`.
pub fn managed_python_path(model_path: &str, windows: bool) -> (r: Result<String, String>)
    ensures
        match r {
            Ok(p) => runtime_dir(model_path@) matches Some(dir) && p@ == runtime_python(dir, windows),
            Err(m) => runtime_dir(model_path@) is None && m@ == "model path has no parent: "@
                + model_path@,
        },
{
    let runtime_dir = match managed_runtime_dir(model_path) {
        Ok(dir) => dir,
        Err(m) => return Err(m),
    };
    if windows {
        let scripts = path_join(runtime_dir.as_str(), "Scripts");
        Ok(path_join(scripts.as_str(), "python.exe"))
    } else {
        let bin = path_join(runtime_dir.as_str(), "bin");
        Ok(path_join(bin.as_str(), "python"))
    }
}

} // verus!
