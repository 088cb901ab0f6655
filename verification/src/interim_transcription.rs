//! Scheduling of interim transcription previews while recording: at most one
//! preview runs at a time, the latest settled chunk that arrives meanwhile
//! waits for it, and a preview is shown only if the recording session it
//! belongs to is still the current one.
//!
//! Each recording session has a generation number; starting or finishing a
//! session moves to a new generation, so that previews of an old session are
//! dropped.

use vstd::prelude::*;
use crate::text::{is_blank, trimmed, trim};

verus! {

/// The preview scheduler, holding the audio chunk of type `A` that waits
/// for the running preview.
pub struct InterimTranscriptionState<A> {
    generation: u64,
    active: bool,
    running: bool,
    pending_settled: Option<(u64, A)>,
}

/// The mathematical content of the scheduler.
pub struct InterimView<A> {
    pub generation: u64,
    pub active: bool,
    pub running: bool,
    pub pending: Option<(u64, A)>,
}

impl<A> View for InterimTranscriptionState<A> {
    type V = InterimView<A>;

    closed spec fn view(&self) -> InterimView<A> {
        InterimView {
            generation: self.generation,
            active: self.active,
            running: self.running,
            pending: self.pending_settled,
        }
    }
}

/// The next generation number (wrapping around after the largest).
pub open spec fn next_generation(g: u64) -> u64 {
    if g == u64::MAX {
        0
    } else {
        (g + 1) as u64
    }
}

/// The scheduler of a new session, or of a finished one.
pub open spec fn new_session<A>(s: InterimView<A>, active: bool) -> InterimView<A> {
    InterimView {
        generation: next_generation(s.generation),
        active,
        running: false,
        pending: None,
    }
}

impl<A> InterimTranscriptionState<A> {
    /// No session, no preview.
    pub fn new() -> (s: Self)
        ensures
            s@ == (InterimView::<A> { generation: 0, active: false, running: false, pending: None }),
    {
        InterimTranscriptionState {
            generation: 0,
            active: false,
            running: false,
            pending_settled: None,
        }
    }
}

/// Starts a recording session: previews are accepted, for a new generation.
pub fn start_session<A>(state: &mut InterimTranscriptionState<A>)
    ensures
        final(state)@ == new_session(old(state)@, true),
{
    state.generation = state.generation.wrapping_add(1);
    state.active = true;
    state.running = false;
    state.pending_settled = None;
}

/// Finishes the recording session: no more previews, and those still
/// running belong to an old generation.
pub fn finish_session<A>(state: &mut InterimTranscriptionState<A>)
    ensures
        final(state)@ == new_session(old(state)@, false),
{
    state.generation = state.generation.wrapping_add(1);
    state.active = false;
    state.running = false;
    state.pending_settled = None;
}

/// What to do with a chunk of audio offered for a preview.
pub enum PreviewDecision<A> {
    /// Transcribe it now, for this generation.
    Run { generation: u64, audio: A },
    /// Do not transcribe it now.
    Skipped,
}

/// Whether an offered chunk starts a preview.
pub open spec fn preview_starts<A>(s: InterimView<A>, enabled: bool) -> bool {
    enabled && s.active && !s.running
}

/// The scheduler after a chunk is offered: a started preview is running; a
/// settled chunk offered while one runs waits for it, replacing any chunk
/// that waited before.
pub open spec fn after_request<A>(
    s: InterimView<A>,
    enabled: bool,
    replace_existing: bool,
    audio: A,
) -> InterimView<A> {
    if !enabled || !s.active {
        s
    } else if s.running {
        if replace_existing {
            InterimView { pending: Some((s.generation, audio)), ..s }
        } else {
            s
        }
    } else {
        InterimView { running: true, ..s }
    }
}

/// Offers a chunk of audio for a preview. Previews run only when they are
/// enabled and a session is active, one at a time; a settled chunk
/// (`replace_existing`) that arrives while one runs waits for it.
pub fn request_preview<A>(
    state: &mut InterimTranscriptionState<A>,
    enabled: bool,
    replace_existing: bool,
    audio: A,
) -> (r: PreviewDecision<A>)
    ensures
        preview_starts(old(state)@, enabled) ==> r == (PreviewDecision::Run {
            generation: old(state)@.generation,
            audio,
        }),
        !preview_starts(old(state)@, enabled) ==> r is Skipped,
        final(state)@ == after_request(old(state)@, enabled, replace_existing, audio),
{
    if !enabled {
        return PreviewDecision::Skipped;
    }
    if !state.active {
        return PreviewDecision::Skipped;
    }
    if state.running {
        if replace_existing {
            state.pending_settled = Some((state.generation, audio));
        }
        return PreviewDecision::Skipped;
    }
    state.running = true;
    PreviewDecision::Run { generation: state.generation, audio }
}

/// Whether a preview transcribed for `generation` is shown: its text is not
/// blank, the session is active and still in that generation, and recording
/// goes on.
pub open spec fn preview_shown<A>(
    s: InterimView<A>,
    generation: u64,
    text: Seq<char>,
    is_recording: bool,
) -> bool {
    !is_blank(text) && s.active && s.generation == generation && is_recording
}

/// The text to show for a preview transcribed for `generation`: the
/// trimmed text, if the preview is to be shown.
pub fn preview_text_to_show<A>(
    state: &InterimTranscriptionState<A>,
    generation: u64,
    text: &str,
    is_recording: bool,
) -> (r: Option<String>)
    ensures
        preview_shown(state@, generation, text@, is_recording) ==> (r matches Some(t) && t@ == trim(text@)),
        !preview_shown(state@, generation, text@, is_recording) ==> r is None,
{
    let t = trimmed(text);
    if t.as_str().is_empty() || !state.active || state.generation != generation {
        return None;
    }
    if !is_recording {
        return None;
    }
    Some(t)
}

/// The chunk to preview next, once the running preview is over: the chunk
/// that waited, if it belongs to the current generation of an active
/// session.
pub open spec fn next_preview<A>(s: InterimView<A>) -> Option<A> {
    match s.pending {
        Some((g, audio)) => if s.active && s.generation == g {
            Some(audio)
        } else {
            None
        },
        None => None,
    }
}

/// Ends the running preview and hands back the chunk that waited for it, if
/// it is still current; it is then offered again as a settled chunk.
pub fn finish_preview<A>(state: &mut InterimTranscriptionState<A>) -> (r: Option<A>)
    ensures
        r == next_preview(old(state)@),
        final(state)@ == (InterimView { running: false, pending: None, ..old(state)@ }),
{
    state.running = false;
    let pending = state.pending_settled.take();
    match pending {
        Some((g, audio)) => {
            if state.active && state.generation == g {
                Some(audio)
            } else {
                None
            }
        },
        None => None,
    }
}

// ---------------------------------------------------------------------------
// Laws
// ---------------------------------------------------------------------------

/// Starting or finishing a session always moves to a different generation,
/// so no preview of the previous session is shown afterwards.
pub proof fn law_new_session_drops_old_previews<A>(
    s: InterimView<A>,
    active: bool,
    text: Seq<char>,
    is_recording: bool,
)
    ensures
        !preview_shown(new_session(s, active), s.generation, text, is_recording),
        next_preview(new_session(s, active)) is None,
{
}

/// After the session is finished, no chunk starts a preview.
pub proof fn law_finished_session_starts_no_preview<A>(s: InterimView<A>, enabled: bool)
    ensures
        !preview_starts(new_session(s, false), enabled),
{
}

/// While a preview runs, no other starts.
pub proof fn law_one_preview_at_a_time<A>(
    s: InterimView<A>,
    enabled: bool,
    replace_existing: bool,
    audio: A,
    later_enabled: bool,
)
    requires
        preview_starts(s, enabled),
    ensures
        !preview_starts(after_request(s, enabled, replace_existing, audio), later_enabled),
{
}

/// A settled chunk offered while a preview runs in an active session is the
/// one previewed next, if nothing else happens in between.
pub proof fn law_latest_settled_chunk_is_previewed_next<A>(s: InterimView<A>, audio: A)
    requires
        s.active,
        s.running,
    ensures
        next_preview(after_request(s, true, true, audio)) == Some(audio),
{
}

/// A chunk that is not settled never becomes, nor replaces, the chunk that
/// waits for the running preview.
pub proof fn law_partial_chunk_never_waits<A>(s: InterimView<A>, enabled: bool, audio: A)
    ensures
        after_request(s, enabled, false, audio).pending == s.pending,
{
}

/// A settled chunk offered while a preview runs is still the one previewed
/// next after a partial chunk is offered in between.
pub proof fn law_settled_chunk_survives_partial_chunk<A>(
    s: InterimView<A>,
    settled: A,
    enabled: bool,
    partial: A,
)
    requires
        s.active,
        s.running,
    ensures
        next_preview(after_request(after_request(s, true, true, settled), enabled, false, partial))
            == Some(settled),
{
}

} // verus!
