//! Memory of the most recent dictation that was inserted, offered to the
//! post-processing model as context for a short while afterwards.
//!
//! Time is measured in milliseconds on a monotonic clock that the caller
//! reads and passes in.

use vstd::prelude::*;
use crate::text::{is_blank, is_blank_text, opt_text};

verus! {

/// The most recent dictation: what was heard, what was inserted, and when.
pub struct RecentPostProcessContext {
    pub raw_transcription: String,
    pub final_text: String,
    pub post_processed_text: Option<String>,
    pub inserted_char_count: usize,
    pub recorded_at_ms: u64,
}

/// The mathematical content of a [`RecentPostProcessContext`].
pub struct ContextEntry {
    pub raw_transcription: Seq<char>,
    pub final_text: Seq<char>,
    pub post_processed_text: Option<Seq<char>>,
    pub inserted_char_count: nat,
    pub recorded_at_ms: nat,
}

impl View for RecentPostProcessContext {
    type V = ContextEntry;

    open spec fn view(&self) -> ContextEntry {
        ContextEntry {
            raw_transcription: self.raw_transcription@,
            final_text: self.final_text@,
            post_processed_text: opt_text(self.post_processed_text),
            inserted_char_count: self.inserted_char_count as nat,
            recorded_at_ms: self.recorded_at_ms as nat,
        }
    }
}

impl RecentPostProcessContext {
    /// A context recorded at `recorded_at_ms`.
    pub fn new(
        raw_transcription: String,
        final_text: String,
        post_processed_text: Option<String>,
        inserted_char_count: usize,
        recorded_at_ms: u64,
    ) -> (c: Self)
        ensures
            c@ == (ContextEntry {
                raw_transcription: raw_transcription@,
                final_text: final_text@,
                post_processed_text: opt_text(post_processed_text),
                inserted_char_count: inserted_char_count as nat,
                recorded_at_ms: recorded_at_ms as nat,
            }),
    {
        RecentPostProcessContext {
            raw_transcription,
            final_text,
            post_processed_text,
            inserted_char_count,
            recorded_at_ms,
        }
    }

    /// An equal copy of this context.
    pub fn duplicate(&self) -> (c: Self)
        ensures
            c@ == self@,
    {
        let post_processed_text = match &self.post_processed_text {
            Some(t) => Some(t.clone()),
            None => None,
        };
        RecentPostProcessContext {
            raw_transcription: self.raw_transcription.clone(),
            final_text: self.final_text.clone(),
            post_processed_text,
            inserted_char_count: self.inserted_char_count,
            recorded_at_ms: self.recorded_at_ms,
        }
    }
}

/// Holds the most recent dictation, if any.
pub struct PostProcessContextState {
    last: Option<RecentPostProcessContext>,
}

impl View for PostProcessContextState {
    type V = Option<ContextEntry>;

    closed spec fn view(&self) -> Option<ContextEntry> {
        match self.last {
            Some(c) => Some(c@),
            None => None,
        }
    }
}

impl PostProcessContextState {
    /// An empty memory.
    pub fn new() -> (s: Self)
        ensures
            s@ is None,
    {
        PostProcessContextState { last: None }
    }
}

/// The memory after recording `entry`: a dictation whose final text is
/// blank is not remembered and leaves the memory as it was.
pub open spec fn after_record(last: Option<ContextEntry>, entry: ContextEntry) -> Option<ContextEntry> {
    if is_blank(entry.final_text) {
        last
    } else {
        Some(entry)
    }
}

/// Whether an entry recorded at `recorded_at` has outlived `max_age` at `now`
/// (time that seems to run backwards counts as no time at all).
pub open spec fn is_expired(recorded_at: nat, max_age: nat, now: nat) -> bool {
    now > recorded_at && now - recorded_at > max_age
}

/// What a lookup at `now` answers.
pub open spec fn recent_answer(last: Option<ContextEntry>, max_age: nat, now: nat) -> Option<ContextEntry> {
    match last {
        Some(e) => if is_expired(e.recorded_at_ms, max_age, now) {
            None
        } else {
            Some(e)
        },
        None => None,
    }
}

/// The memory after a lookup at `now`: an expired entry is forgotten.
pub open spec fn after_recent(last: Option<ContextEntry>, max_age: nat, now: nat) -> Option<ContextEntry> {
    recent_answer(last, max_age, now)
}

/// Remembers a dictation that was just inserted, unless its final text is
/// blank.
pub fn record(
    state: &mut PostProcessContextState,
    raw_transcription: String,
    final_text: String,
    post_processed_text: Option<String>,
    inserted_char_count: usize,
    now_ms: u64,
)
    ensures
        final(state)@ == after_record(
            old(state)@,
            ContextEntry {
                raw_transcription: raw_transcription@,
                final_text: final_text@,
                post_processed_text: opt_text(post_processed_text),
                inserted_char_count: inserted_char_count as nat,
                recorded_at_ms: now_ms as nat,
            },
        ),
{
    if is_blank_text(final_text.as_str()) {
        return;
    }
    let entry = RecentPostProcessContext::new(
        raw_transcription,
        final_text,
        post_processed_text,
        inserted_char_count,
        now_ms,
    );
    state.last = Some(entry);
}

/// The remembered dictation, if it is at most `max_age_ms` old at `now_ms`;
/// an older one is forgotten.
pub fn recent(state: &mut PostProcessContextState, max_age_ms: u64, now_ms: u64) -> (r: Option<
    RecentPostProcessContext,
>)
    ensures
        opt_entry(r) == recent_answer(old(state)@, max_age_ms as nat, now_ms as nat),
        final(state)@ == after_recent(old(state)@, max_age_ms as nat, now_ms as nat),
{
    match &state.last {
        None => None,
        Some(last) => {
            let elapsed = now_ms.saturating_sub(last.recorded_at_ms);
            if elapsed > max_age_ms {
                state.last = None;
                None
            } else {
                Some(last.duplicate())
            }
        },
    }
}

/// Forgets the remembered dictation.
pub fn clear(state: &mut PostProcessContextState)
    ensures
        final(state)@ is None,
{
    state.last = None;
}

/// The view of an optional context.
pub open spec fn opt_entry(c: Option<RecentPostProcessContext>) -> Option<ContextEntry> {
    match c {
        Some(e) => Some(e@),
        None => None,
    }
}

/// A dictation recorded with a non-blank final text is answered, unchanged,
/// by every lookup made no later than `max_age` after it.
pub proof fn law_recorded_context_is_recalled(
    last: Option<ContextEntry>,
    entry: ContextEntry,
    max_age: nat,
    now: nat,
)
    requires
        !is_blank(entry.final_text),
        now <= entry.recorded_at_ms + max_age,
    ensures
        recent_answer(after_record(last, entry), max_age, now) == Some(entry),
        after_recent(after_record(last, entry), max_age, now) == Some(entry),
{
}

/// Recording a dictation whose final text is blank changes nothing.
pub proof fn law_blank_dictation_is_ignored(last: Option<ContextEntry>, entry: ContextEntry)
    requires
        is_blank(entry.final_text),
    ensures
        after_record(last, entry) == last,
{
}

/// Once a lookup finds the dictation expired, it is gone for every later
/// lookup too.
pub proof fn law_expired_context_stays_forgotten(
    last: Option<ContextEntry>,
    max_age: nat,
    now: nat,
    later: nat,
    later_max_age: nat,
)
    requires
        last is Some,
        recent_answer(last, max_age, now) is None,
    ensures
        recent_answer(after_recent(last, max_age, now), later_max_age, later) is None,
{
}

/// After `clear`, no lookup finds anything until something is recorded.
pub proof fn law_cleared_memory_answers_nothing(max_age: nat, now: nat)
    ensures
        recent_answer(None, max_age, now) is None,
{
}

/// A dictation older than `max_age` at `now` is never answered, and the
/// lookup forgets it.
pub proof fn law_outdated_context_is_not_answered(last: Option<ContextEntry>, max_age: nat, now: nat)
    requires
        last matches Some(e) && now > e.recorded_at_ms + max_age,
    ensures
        recent_answer(last, max_age, now) is None,
        after_recent(last, max_age, now) is None,
{
}

} // verus!
