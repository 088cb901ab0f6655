//! What the recognition workers' replies mean, request numbering, and the
//! file-system paths that worker setup looks at.
//!
//! Paths are held as text; joining and taking the parent go through
//! `std::path`.

use vstd::prelude::*;
use crate::text::opt_text;

verus! {

/// Numbers the requests sent to a worker, from 1 upwards.
pub struct RequestIds {
    next_request_id: u64,
}

impl View for RequestIds {
    type V = u64;

    closed spec fn view(&self) -> u64 {
        self.next_request_id
    }
}

impl RequestIds {
    /// Numbering that starts at 1.
    pub fn new() -> (r: Self)
        ensures
            r@ == 1,
    {
        RequestIds { next_request_id: 1 }
    }

    /// The number of the next request; numbers stop growing at the largest
    /// `u64`.
    pub fn take(&mut self) -> (id: u64)
        ensures
            id == old(self)@,
            final(self)@ == if old(self)@ == u64::MAX {
                u64::MAX
            } else {
                (old(self)@ + 1) as u64
            },
    {
        let id = self.next_request_id;
        self.next_request_id = self.next_request_id.saturating_add(1);
        id
    }
}

/// The message of a failed worker request: `{failure}: {error}`, with
/// `unknown error` when the worker gave no error.
pub open spec fn failure_message(failure: Seq<char>, error: Option<Seq<char>>) -> Seq<char> {
    failure + ": "@ + match error {
        Some(e) => e,
        None => "unknown error"@,
    }
}

/// Builds the message of a failed worker request.
pub fn failure_text(failure: &str, error: Option<String>) -> (r: String)
    ensures
        r@ == failure_message(failure@, opt_text(error)),
{
    let mut r = String::from_str(failure);
    r.append(": ");
    match error {
        Some(e) => r.append(e.as_str()),
        None => r.append("unknown error"),
    }
    r
}

/// Interprets a worker's startup line: ready, or the failure with the
/// worker's error.
pub fn startup_outcome(ready: bool, error: Option<String>, failure: &str) -> (r: Result<(), String>)
    ensures
        match r {
            Ok(_) => ready,
            Err(m) => !ready && m@ == failure_message(failure@, opt_text(error)),
        },
{
    if !ready {
        return Err(failure_text(failure, error));
    }
    Ok(())
}

/// Interprets a worker's reply: on success its text (empty when absent),
/// else the failure with the worker's error.
pub fn reply_outcome(ok: bool, text: Option<String>, error: Option<String>, failure: &str) -> (r:
    Result<String, String>)
    ensures
        match r {
            Ok(t) => ok && t@ == match text {
                Some(t) => t@,
                None => Seq::<char>::empty(),
            },
            Err(m) => !ok && m@ == failure_message(failure@, opt_text(error)),
        },
{
    if !ok {
        return Err(failure_text(failure, error));
    }
    match text {
        Some(t) => Ok(t),
        None => Ok(String::new()),
    }
}

/// The path that `std::path::Path::join` makes of `base` and `name`.
pub uninterp spec fn joined_path(base: Seq<char>, name: Seq<char>) -> Seq<char>;

/// The path that `std::path::Path::parent` gives for `path`, if any.
pub uninterp spec fn parent_path(path: Seq<char>) -> Option<Seq<char>>;

/// Calls `std::path::Path::join` on two textual paths and returns the
/// joined path as text; the contract names the result (`joined_path`).
#[verifier::external_body]
pub(crate) fn path_join(base: &str, name: &str) -> (r: String)
    ensures
        r@ == joined_path(base@, name@),
{
    std::path::Path::new(base).join(name).to_string_lossy().into_owned()
}

/// Calls `std::path::Path::parent` on a textual path and returns the parent
/// as text; the contract names the result (`parent_path`).
#[verifier::external_body]
pub(crate) fn path_parent(path: &str) -> (r: Option<String>)
    ensures
        opt_text(r) == parent_path(path@),
{
    match std::path::Path::new(path).parent() {
        Some(parent) => Some(parent.to_string_lossy().into_owned()),
        None => None,
    }
}

/// The files that may name the Python interpreter to use for a model: one
/// inside the model directory, and, when the model directory has a parent,
/// one beside it.
pub open spec fn hint_files(model_path: Seq<char>, in_model: Seq<char>, beside_model: Seq<char>) -> Seq<
    Seq<char>,
> {
    match parent_path(model_path) {
        Some(parent) => seq![joined_path(model_path, in_model), joined_path(parent, beside_model)],
        None => seq![joined_path(model_path, in_model)],
    }
}

/// The view of a list of strings.
pub open spec fn texts(v: Seq<String>) -> Seq<Seq<char>> {
    v.map_values(|s: String| s@)
}

/// Lists the files that may name the Python interpreter for a model.
pub fn python_hint_files_named(model_path: &str, in_model: &str, beside_model: &str) -> (r: Vec<
    String,
>)
    ensures
        texts(r@) == hint_files(model_path@, in_model@, beside_model@),
{
    let mut files: Vec<String> = Vec::new();
    files.push(path_join(model_path, in_model));
    match path_parent(model_path) {
        Some(parent) => {
            files.push(path_join(parent.as_str(), beside_model));
        },
        None => {},
    }
    assert(texts(files@) =~= hint_files(model_path@, in_model@, beside_model@));
    files
}

} // verus!
