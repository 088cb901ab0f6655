//! Undo of the most recent dictation: a shortcut pressed soon after a
//! dictation was inserted deletes its characters again, and pressed once more
//! shortly afterwards clears the whole input field.
//!
//! Time is measured in milliseconds on a monotonic clock that the caller
//! reads and passes in. The keyboard is driven by the caller, which performs
//! the [`DeleteAction`] that [`delete_recent_transcription`] decides on.

use vstd::prelude::*;
use crate::text::{chars_of, same_text};

verus! {

/// How long after a deletion a second press of the shortcut clears the
/// whole input field.
pub const CLEAR_CURRENT_INPUT_WINDOW_MS: u64 = 1500;

/// The binding identifier of the undo shortcut.
pub const DELETE_RECENT_TRANSCRIPTION_BINDING_ID: &'static str = "delete_recent_transcription";

/// The dictation that may still be deleted: its length, when it was
/// inserted, and for how long after that it may be deleted.
#[derive(Clone, Copy)]
struct UndoCandidate {
    char_count: usize,
    inserted_at_ms: u64,
    window_ms: u64,
}

/// The undo state: the dictation that may still be deleted, and when the
/// clear follow-up was armed (it lasts `CLEAR_CURRENT_INPUT_WINDOW_MS`).
/// Expiry times are kept as a start and a length, so that no clock reading
/// can overflow them.
pub struct RecentTranscriptionUndo {
    candidate: Option<UndoCandidate>,
    clear_current_input_armed_at: Option<u64>,
}

/// Whether `now` is at most `duration` after `start`, computed without
/// overflow.
fn within(start: u64, duration: u64, now: u64) -> (r: bool)
    ensures
        r == (now <= start + duration),
{
    now <= start || now - start <= duration
}

/// The mathematical content of the undo state.
pub struct UndoView {
    /// The character count and expiry of the deletable dictation.
    pub candidate: Option<(nat, nat)>,
    /// Until when a further press clears the input field.
    pub clear_expires_at: Option<nat>,
}

impl View for RecentTranscriptionUndo {
    type V = UndoView;

    closed spec fn view(&self) -> UndoView {
        UndoView {
            candidate: match self.candidate {
                Some(c) => Some((c.char_count as nat, (c.inserted_at_ms + c.window_ms) as nat)),
                None => None,
            },
            clear_expires_at: match self.clear_current_input_armed_at {
                Some(t) => Some((t + CLEAR_CURRENT_INPUT_WINDOW_MS) as nat),
                None => None,
            },
        }
    }
}

/// The state with nothing to undo.
pub open spec fn idle_undo() -> UndoView {
    UndoView { candidate: None, clear_expires_at: None }
}

/// The state after a dictation of `char_count` characters was inserted at
/// `now`: it may be deleted until `now + window`; an empty dictation, or
/// one inserted while undo is disabled, leaves nothing to undo.
pub open spec fn after_insertion(
    s: UndoView,
    char_count: nat,
    enabled: bool,
    window: nat,
    now: nat,
) -> UndoView {
    if char_count == 0 || !enabled {
        idle_undo()
    } else {
        UndoView { candidate: Some((char_count, now + window)), clear_expires_at: None }
    }
}

/// What a press of the undo shortcut asks the caller to do.
#[derive(Clone, Copy, PartialEq, Eq, Structural, Debug)]
pub enum DeleteAction {
    /// Select all of the input field and delete it.
    ClearCurrentInput,
    /// Delete this many characters before the cursor.
    DeleteCharacters(usize),
    /// Nothing.
    Nothing,
}

/// Whether the clear follow-up is armed and not yet expired at `now`.
pub open spec fn clear_is_pending(s: UndoView, enabled: bool, now: nat) -> bool {
    &&& enabled
    &&& s.clear_expires_at matches Some(t)
    &&& now <= t
}

/// The characters that may still be deleted at `now`.
pub open spec fn deletable(s: UndoView, enabled: bool, now: nat) -> Option<nat> {
    match s.candidate {
        Some((n, t)) => if enabled && now <= t {
            Some(n)
        } else {
            None
        },
        None => None,
    }
}

/// What a press of the undo shortcut at `now` does: within the clear window
/// of a previous press it clears the input field; otherwise it deletes the
/// recent dictation if that may still be deleted.
pub open spec fn press_action(s: UndoView, enabled: bool, now: nat) -> DeleteAction {
    if clear_is_pending(s, enabled, now) {
        DeleteAction::ClearCurrentInput
    } else {
        match deletable(s, enabled, now) {
            Some(n) => DeleteAction::DeleteCharacters(n as usize),
            None => DeleteAction::Nothing,
        }
    }
}

/// The state after a press of the undo shortcut at `now`: a press that
/// clears the input field leaves nothing armed; any other press uses up the
/// dictation and arms the clear follow-up.
pub open spec fn after_press(s: UndoView, enabled: bool, now: nat) -> UndoView {
    if clear_is_pending(s, enabled, now) {
        UndoView { candidate: s.candidate, clear_expires_at: None }
    } else {
        UndoView {
            candidate: None,
            clear_expires_at: Some(now + CLEAR_CURRENT_INPUT_WINDOW_MS as nat),
        }
    }
}

impl RecentTranscriptionUndo {
    /// Nothing to undo.
    pub fn new() -> (s: Self)
        ensures
            s@ == idle_undo(),
    {
        RecentTranscriptionUndo { candidate: None, clear_current_input_armed_at: None }
    }
}

/// Remembers an inserted dictation so that the undo shortcut can delete its
/// characters until `undo_window_ms` have passed.
pub fn record_inserted_text(
    state: &mut RecentTranscriptionUndo,
    text: &str,
    enabled: bool,
    undo_window_ms: u64,
    now_ms: u64,
)
    ensures
        final(state)@ == after_insertion(
            old(state)@,
            text@.len(),
            enabled,
            undo_window_ms as nat,
            now_ms as nat,
        ),
{
    let char_count = chars_of(text).len();
    if char_count == 0 {
        clear_candidate(state);
        return;
    }
    if !enabled {
        clear_candidate(state);
        return;
    }
    clear_pending_current_input_clear(state);
    state.candidate = Some(UndoCandidate { char_count, inserted_at_ms: now_ms, window_ms: undo_window_ms });
}

/// Forgets the dictation and disarms the clear follow-up.
pub fn clear_candidate(state: &mut RecentTranscriptionUndo)
    ensures
        final(state)@ == idle_undo(),
{
    state.candidate = None;
    clear_pending_current_input_clear(state);
}

/// Disarms the clear follow-up.
pub fn clear_pending_current_input_clear(state: &mut RecentTranscriptionUndo)
    ensures
        final(state)@ == (UndoView { candidate: old(state)@.candidate, clear_expires_at: None }),
{
    state.clear_current_input_armed_at = None;
}

/// Takes the dictation that may still be deleted at `now_ms`. The dictation
/// is used up either way; with undo disabled everything is forgotten.
pub fn take_valid_candidate(state: &mut RecentTranscriptionUndo, enabled: bool, now_ms: u64) -> (r:
    Option<usize>)
    ensures
        match r {
            Some(n) => deletable(old(state)@, enabled, now_ms as nat) == Some(n as nat),
            None => deletable(old(state)@, enabled, now_ms as nat) is None,
        },
        final(state)@ == if enabled {
            UndoView { candidate: None, clear_expires_at: old(state)@.clear_expires_at }
        } else {
            idle_undo()
        },
{
    if !enabled {
        clear_candidate(state);
        return None;
    }
    let candidate = state.candidate.take();
    match candidate {
        None => None,
        Some(c) => {
            if within(c.inserted_at_ms, c.window_ms, now_ms) {
                Some(c.char_count)
            } else {
                None
            }
        },
    }
}

/// Arms the clear follow-up until `CLEAR_CURRENT_INPUT_WINDOW_MS` after
/// `now_ms`.
pub fn arm_current_input_clear(state: &mut RecentTranscriptionUndo, now_ms: u64)
    ensures
        final(state)@ == (UndoView {
            candidate: old(state)@.candidate,
            clear_expires_at: Some((now_ms + CLEAR_CURRENT_INPUT_WINDOW_MS) as nat),
        }),
{
    state.clear_current_input_armed_at = Some(now_ms);
}

/// Takes the armed clear follow-up, answering whether it is still valid at
/// `now_ms`. It is used up either way; with undo disabled everything is
/// forgotten.
pub fn take_valid_current_input_clear(
    state: &mut RecentTranscriptionUndo,
    enabled: bool,
    now_ms: u64,
) -> (r: bool)
    ensures
        r == clear_is_pending(old(state)@, enabled, now_ms as nat),
        final(state)@ == if enabled {
            UndoView { candidate: old(state)@.candidate, clear_expires_at: None }
        } else {
            idle_undo()
        },
{
    if !enabled {
        clear_candidate(state);
        return false;
    }
    let armed_at = state.clear_current_input_armed_at.take();
    match armed_at {
        None => false,
        Some(t) => within(t, CLEAR_CURRENT_INPUT_WINDOW_MS, now_ms),
    }
}

/// Whether the undo shortcut is to be watched at all: only while undo is
/// enabled; when it is not, everything is forgotten.
pub fn has_pending_delete_action(state: &mut RecentTranscriptionUndo, enabled: bool) -> (r: bool)
    ensures
        r == enabled,
        final(state)@ == if enabled {
            old(state)@
        } else {
            idle_undo()
        },
{
    if !enabled {
        clear_candidate(state);
        return false;
    }
    true
}

/// Handles a press of the undo shortcut at `now_ms` and says what the caller
/// is to do with the keyboard.
pub fn delete_recent_transcription(state: &mut RecentTranscriptionUndo, enabled: bool, now_ms: u64) -> (r:
    DeleteAction)
    ensures
        r == press_action(old(state)@, enabled, now_ms as nat),
        enabled ==> final(state)@ == after_press(old(state)@, enabled, now_ms as nat),
        !enabled ==> final(state)@ == (UndoView {
            candidate: None,
            clear_expires_at: Some((now_ms + CLEAR_CURRENT_INPUT_WINDOW_MS) as nat),
        }),
{
    if take_valid_current_input_clear(state, enabled, now_ms) {
        return DeleteAction::ClearCurrentInput;
    }
    let taken = take_valid_candidate(state, enabled, now_ms);
    arm_current_input_clear(state, now_ms);
    match taken {
        Some(n) => DeleteAction::DeleteCharacters(n),
        None => DeleteAction::Nothing,
    }
}

// ---------------------------------------------------------------------------
// The shortcut
// ---------------------------------------------------------------------------

/// A hotkey: a set of modifier bits and, unless it is made of modifiers
/// only, a key named as the keyboard library names it.
pub struct HotkeySpec {
    pub modifiers: u32,
    pub key: Option<String>,
}

/// A keyboard event: the modifier bits held, the key (if any), whether it
/// went down, and for a modifier-only event the modifier that changed.
pub struct KeyEventInfo {
    pub modifiers: u32,
    pub key: Option<String>,
    pub is_key_down: bool,
    pub changed_modifier: Option<u32>,
}

/// The view of an optional key name.
pub open spec fn key_view(k: Option<String>) -> Option<Seq<char>> {
    match k {
        Some(t) => Some(t@),
        None => None,
    }
}

/// The modifier bits of the left and right keys of each modifier group
/// (Cmd, Shift, Ctrl, Opt), as the keyboard library lays them out.
pub open spec fn modifier_group_bits(group: int) -> (u32, u32) {
    if group == 0 {
        (0x1, 0x20)
    } else if group == 1 {
        (0x2, 0x40)
    } else if group == 2 {
        (0x4, 0x80)
    } else {
        (0x8, 0x100)
    }
}

/// The bit of the Fn modifier.
pub open spec fn fn_modifier_bit() -> u32 {
    0x10
}

/// Whether the modifier set `outer` contains every bit of `inner`.
pub open spec fn modifiers_contain(outer: u32, inner: u32) -> bool {
    outer & inner == inner
}

/// Whether the hotkey's modifiers match the event's for one group: a hotkey
/// with both sides needs either side held, one with one side needs that
/// side, and one with neither needs neither.
pub open spec fn group_matches(hotkey: u32, event: u32, group: int) -> bool {
    let (left, right) = modifier_group_bits(group);
    let hl = modifiers_contain(hotkey, left);
    let hr = modifiers_contain(hotkey, right);
    let el = modifiers_contain(event, left);
    let er = modifiers_contain(event, right);
    if hl && hr {
        el || er
    } else if hl {
        el
    } else if hr {
        er
    } else {
        !el && !er
    }
}

/// Whether a hotkey's modifiers match the modifiers of an event: every group
/// matches and Fn is held exactly when the hotkey has it.
pub open spec fn modifiers_match(hotkey: u32, event: u32) -> bool {
    &&& group_matches(hotkey, event, 0)
    &&& group_matches(hotkey, event, 1)
    &&& group_matches(hotkey, event, 2)
    &&& group_matches(hotkey, event, 3)
    &&& modifiers_contain(hotkey, fn_modifier_bit()) == modifiers_contain(event, fn_modifier_bit())
}

/// Calls `handy_keys::Modifiers::matches` on the two sets of modifier bits.
/// The contract restates that method's documented rule (per group: both
/// sides need either, one side needs that side, neither needs neither; Fn
/// exactly).
#[verifier::external_body]
fn hotkey_modifiers_match(hotkey: u32, event: u32) -> (r: bool)
    ensures
        r == modifiers_match(hotkey, event),
{
    handy_keys::Modifiers::from_bits_retain(hotkey).matches(
        handy_keys::Modifiers::from_bits_retain(event),
    )
}

/// Calls `handy_keys::Modifiers::contains`, which holds when every bit of
/// `inner` is set in `outer`.
#[verifier::external_body]
fn hotkey_modifiers_contain(outer: u32, inner: u32) -> (r: bool)
    ensures
        r == modifiers_contain(outer, inner),
{
    handy_keys::Modifiers::from_bits_retain(outer).contains(
        handy_keys::Modifiers::from_bits_retain(inner),
    )
}

/// What the keyboard library parses a hotkey text to: its modifier bits and
/// the name of its key, or nothing when the text is not a hotkey.
pub uninterp spec fn parsed_hotkey(text: Seq<char>) -> Option<(u32, Option<Seq<char>>)>;

/// Parses `text` with `handy_keys::Hotkey`'s `FromStr`, and gives the parsed
/// modifier bits and the key's display name. The contract names the result
/// (`parsed_hotkey`) as a function of the text.
#[verifier::external_body]
fn parse_hotkey(text: &str) -> (r: Option<HotkeySpec>)
    ensures
        match r {
            Some(h) => parsed_hotkey(text@) == Some((h.modifiers, key_view(h.key))),
            None => parsed_hotkey(text@) is None,
        },
{
    let hotkey = match text.parse::<handy_keys::Hotkey>() {
        Ok(hotkey) => hotkey,
        Err(_) => return None,
    };
    let key = match hotkey.key {
        Some(key) => Some(format!("{}", key)),
        None => None,
    };
    Some(HotkeySpec { modifiers: hotkey.modifiers.bits(), key })
}

fn same_key(a: &Option<String>, b: &Option<String>) -> (r: bool)
    ensures
        r == (key_view(*a) == key_view(*b)),
{
    match (a, b) {
        (Some(x), Some(y)) => same_text(x.as_str(), y.as_str()),
        (None, None) => true,
        _ => false,
    }
}

/// Whether the event presses the hotkey: a key going down, with matching
/// modifiers and the same key.
pub open spec fn presses(event: KeyEventInfo, hotkey: HotkeySpec) -> bool {
    &&& event.is_key_down
    &&& modifiers_match(hotkey.modifiers, event.modifiers)
    &&& key_view(hotkey.key) == key_view(event.key)
}

/// Whether the event releases the hotkey: a key going up that is the
/// hotkey's key, or, for a modifier-only hotkey, a modifier of the hotkey
/// changing.
pub open spec fn releases(event: KeyEventInfo, hotkey: HotkeySpec) -> bool {
    &&& !event.is_key_down
    &&& match hotkey.key {
        Some(k) => key_view(event.key) == Some(k@),
        None => match event.changed_modifier {
            Some(changed) => modifiers_contain(hotkey.modifiers, changed),
            None => false,
        },
    }
}

/// Whether the event presses the hotkey.
pub fn event_presses_hotkey(event: &KeyEventInfo, hotkey: &HotkeySpec) -> (r: bool)
    ensures
        r == presses(*event, *hotkey),
{
    event.is_key_down && hotkey_modifiers_match(hotkey.modifiers, event.modifiers) && same_key(
        &hotkey.key,
        &event.key,
    )
}

/// Whether the event releases the hotkey.
pub fn event_releases_hotkey(event: &KeyEventInfo, hotkey: &HotkeySpec) -> (r: bool)
    ensures
        r == releases(*event, *hotkey),
{
    if event.is_key_down {
        return false;
    }
    match &hotkey.key {
        Some(key) => match &event.key {
            Some(k) => same_text(k.as_str(), key.as_str()),
            None => false,
        },
        None => match event.changed_modifier {
            Some(changed) => hotkey_modifiers_contain(hotkey.modifiers, changed),
            None => false,
        },
    }
}

/// The undo shortcut, when undo is enabled and the binding parses; with undo
/// disabled everything is forgotten.
pub fn current_undo_hotkey(
    state: &mut RecentTranscriptionUndo,
    enabled: bool,
    binding: Option<&str>,
) -> (r: Option<HotkeySpec>)
    ensures
        !enabled ==> r is None && final(state)@ == idle_undo(),
        enabled ==> final(state)@ == old(state)@,
        enabled ==> match binding {
            Some(b) => match r {
                Some(h) => parsed_hotkey(b@) == Some((h.modifiers, key_view(h.key))),
                None => parsed_hotkey(b@) is None,
            },
            None => r is None,
        },
{
    if !enabled {
        clear_candidate(state);
        return None;
    }
    match binding {
        Some(b) => parse_hotkey(b),
        None => None,
    }
}

/// Follows the undo shortcut through the stream of keyboard events: the
/// shortcut counts as used when it is pressed and then released with no
/// other key pressed in between.
pub struct UndoShortcutTracker {
    armed_hotkey: Option<HotkeySpec>,
    used_with_other_input: bool,
}

/// The mathematical content of the tracker.
pub struct TrackerView {
    /// The hotkey that was pressed and not yet released.
    pub armed: Option<(u32, Option<Seq<char>>)>,
    /// Whether another key went down while it was held.
    pub used_with_other_input: bool,
}

/// The view of a hotkey.
pub open spec fn hotkey_view(h: HotkeySpec) -> (u32, Option<Seq<char>>) {
    (h.modifiers, key_view(h.key))
}

impl View for UndoShortcutTracker {
    type V = TrackerView;

    closed spec fn view(&self) -> TrackerView {
        TrackerView {
            armed: match self.armed_hotkey {
                Some(h) => Some(hotkey_view(h)),
                None => None,
            },
            used_with_other_input: self.used_with_other_input,
        }
    }
}

/// A tracker that has seen nothing.
pub open spec fn idle_tracker() -> TrackerView {
    TrackerView { armed: None, used_with_other_input: false }
}

/// The event as compared against an armed hotkey given by its view.
pub open spec fn releases_view(event: KeyEventInfo, armed: (u32, Option<Seq<char>>)) -> bool {
    &&& !event.is_key_down
    &&& match armed.1 {
        Some(k) => key_view(event.key) == Some(k),
        None => match event.changed_modifier {
            Some(changed) => modifiers_contain(armed.0, changed),
            None => false,
        },
    }
}

/// Whether the event presses a hotkey given by its view.
pub open spec fn presses_view(event: KeyEventInfo, armed: (u32, Option<Seq<char>>)) -> bool {
    &&& event.is_key_down
    &&& modifiers_match(armed.0, event.modifiers)
    &&& armed.1 == key_view(event.key)
}

/// Whether the event completes a use of the shortcut.
pub open spec fn triggers(
    t: TrackerView,
    watching: bool,
    target: Option<HotkeySpec>,
    event: KeyEventInfo,
) -> bool {
    &&& watching
    &&& target is Some
    &&& t.armed matches Some(a)
    &&& releases_view(event, a)
    &&& !t.used_with_other_input
}

/// The tracker after an event: not watching, or without a shortcut, it
/// forgets; a release of the armed hotkey ends the use; another key going
/// down marks the use as spoilt; an unarmed tracker arms on a press of the
/// target hotkey.
pub open spec fn tracker_after(
    t: TrackerView,
    watching: bool,
    target: Option<HotkeySpec>,
    event: KeyEventInfo,
) -> TrackerView {
    if !watching || target is None {
        idle_tracker()
    } else {
        match t.armed {
            Some(a) => if releases_view(event, a) {
                idle_tracker()
            } else if event.is_key_down && !presses_view(event, a) {
                TrackerView { armed: t.armed, used_with_other_input: true }
            } else {
                t
            },
            None => if presses(event, target->0) {
                TrackerView { armed: Some(hotkey_view(target->0)), used_with_other_input: false }
            } else {
                t
            },
        }
    }
}

impl UndoShortcutTracker {
    /// A tracker that has seen nothing.
    pub fn new() -> (t: Self)
        ensures
            t@ == idle_tracker(),
    {
        UndoShortcutTracker { armed_hotkey: None, used_with_other_input: false }
    }

    /// Takes in a keyboard event, given whether the shortcut is being
    /// watched and the current undo shortcut, and answers whether the
    /// shortcut was just used.
    pub fn on_key_event(&mut self, watching: bool, target: Option<HotkeySpec>, event: &KeyEventInfo) -> (r:
        bool)
        ensures
            r == triggers(old(self)@, watching, target, *event),
            final(self)@ == tracker_after(old(self)@, watching, target, *event),
    {
        if !watching {
            self.armed_hotkey = None;
            self.used_with_other_input = false;
            return false;
        }
        let target_hotkey = match target {
            Some(h) => h,
            None => {
                self.armed_hotkey = None;
                self.used_with_other_input = false;
                return false;
            },
        };
        match &self.armed_hotkey {
            Some(armed) => {
                if event_releases_hotkey(event, armed) {
                    let fire = !self.used_with_other_input;
                    self.armed_hotkey = None;
                    self.used_with_other_input = false;
                    fire
                } else {
                    if event.is_key_down && !event_presses_hotkey(event, armed) {
                        self.used_with_other_input = true;
                    }
                    false
                }
            },
            None => {
                if event_presses_hotkey(event, &target_hotkey) {
                    self.armed_hotkey = Some(target_hotkey);
                    self.used_with_other_input = false;
                }
                false
            },
        }
    }
}

// ---------------------------------------------------------------------------
// Laws
// ---------------------------------------------------------------------------

/// A dictation of `n > 0` characters inserted while undo is enabled is
/// deleted, all `n` characters of it, by a press of the shortcut within its
/// undo window.
pub proof fn law_recent_dictation_is_deleted(s: UndoView, n: nat, window: nat, inserted_at: nat, pressed_at: nat)
    requires
        n > 0,
        pressed_at <= inserted_at + window,
    ensures
        press_action(after_insertion(s, n, true, window, inserted_at), true, pressed_at)
            == DeleteAction::DeleteCharacters(n as usize),
{
}

/// After the undo window has passed, the shortcut deletes nothing.
pub proof fn law_expired_dictation_is_kept(s: UndoView, n: nat, window: nat, inserted_at: nat, pressed_at: nat)
    requires
        pressed_at > inserted_at + window,
    ensures
        press_action(after_insertion(s, n, true, window, inserted_at), true, pressed_at)
            == DeleteAction::Nothing,
{
}

/// A press of the shortcut while undo is enabled: within the clear window of
/// an earlier press it selects and deletes the whole input field, disarms the
/// clear follow-up and leaves the dictation untouched; otherwise it uses up
/// the dictation, deleting its characters if it has not expired, and arms the
/// clear follow-up for `CLEAR_CURRENT_INPUT_WINDOW_MS` from now.
pub proof fn law_press_of_undo_shortcut(s: UndoView, now: nat)
    ensures
        clear_is_pending(s, true, now) ==> press_action(s, true, now)
            == DeleteAction::ClearCurrentInput && after_press(s, true, now) == (UndoView {
            candidate: s.candidate,
            clear_expires_at: None,
        }),
        !clear_is_pending(s, true, now) ==> press_action(s, true, now) == (match s.candidate {
            Some((n, t)) => if now <= t {
                DeleteAction::DeleteCharacters(n as usize)
            } else {
                DeleteAction::Nothing
            },
            None => DeleteAction::Nothing,
        }) && after_press(s, true, now) == (UndoView {
            candidate: None,
            clear_expires_at: Some(now + CLEAR_CURRENT_INPUT_WINDOW_MS as nat),
        }),
{
}

/// A press that did not clear the input field is followed, within the clear
/// window, by a press that does.
pub proof fn law_second_press_clears_input(s: UndoView, first: nat, second: nat)
    requires
        !clear_is_pending(s, true, first),
        first <= second <= first + CLEAR_CURRENT_INPUT_WINDOW_MS,
    ensures
        press_action(after_press(s, true, first), true, second) == DeleteAction::ClearCurrentInput,
{
}

/// A dictation is deleted at most once: after any press that did not clear
/// the input field, no later press deletes characters.
pub proof fn law_dictation_is_deleted_once(s: UndoView, first: nat, later: nat)
    requires
        !clear_is_pending(s, true, first),
    ensures
        !(press_action(after_press(s, true, first), true, later) is DeleteCharacters),
{
}

/// With undo disabled, the shortcut never touches the input field.
pub proof fn law_disabled_undo_does_nothing(s: UndoView, now: nat)
    ensures
        press_action(s, false, now) == DeleteAction::Nothing,
{
}

/// An empty dictation, or one inserted with undo disabled, leaves nothing to
/// undo.
pub proof fn law_nothing_to_undo_after_empty_or_disabled(s: UndoView, n: nat, enabled: bool, window: nat, now: nat)
    requires
        n == 0 || !enabled,
    ensures
        after_insertion(s, n, enabled, window, now) == idle_undo(),
{
}

/// Pressing the shortcut and releasing it with no other key in between uses
/// it once.
pub proof fn law_clean_press_and_release_triggers(
    target: HotkeySpec,
    press: KeyEventInfo,
    release: KeyEventInfo,
)
    requires
        presses(press, target),
        releases(release, target),
    ensures
        !triggers(idle_tracker(), true, Some(target), press),
        triggers(
            tracker_after(idle_tracker(), true, Some(target), press),
            true,
            Some(target),
            release,
        ),
        tracker_after(
            tracker_after(idle_tracker(), true, Some(target), press),
            true,
            Some(target),
            release,
        ) == idle_tracker(),
{
}

/// A shortcut held while another key is pressed is not used when released.
pub proof fn law_shortcut_used_with_other_key_does_not_trigger(
    target: HotkeySpec,
    press: KeyEventInfo,
    other: KeyEventInfo,
    release: KeyEventInfo,
)
    requires
        presses(press, target),
        other.is_key_down,
        !presses(other, target),
    ensures
        ({
            let armed = tracker_after(idle_tracker(), true, Some(target), press);
            let spoilt = tracker_after(armed, true, Some(target), other);
            !triggers(spoilt, true, Some(target), release)
        }),
{
}

/// While the shortcut is held, a key-down that presses it again (the
/// keyboard's auto-repeat) changes nothing: in particular it does not count
/// as other input.
pub proof fn law_repeated_press_leaves_tracker_unchanged(
    t: TrackerView,
    target: HotkeySpec,
    event: KeyEventInfo,
)
    requires
        t.armed matches Some(a) && presses_view(event, a),
    ensures
        tracker_after(t, true, Some(target), event) == t,
        !triggers(t, true, Some(target), event),
{
}

/// Pressing the shortcut, holding it while the keyboard repeats the press,
/// and releasing it uses it once, on the release.
pub proof fn law_held_shortcut_triggers_on_release(
    target: HotkeySpec,
    press: KeyEventInfo,
    repeat: KeyEventInfo,
    release: KeyEventInfo,
)
    requires
        presses(press, target),
        presses(repeat, target),
        releases(release, target),
    ensures
        ({
            let armed = tracker_after(idle_tracker(), true, Some(target), press);
            let held = tracker_after(armed, true, Some(target), repeat);
            &&& !triggers(idle_tracker(), true, Some(target), press)
            &&& !triggers(armed, true, Some(target), repeat)
            &&& triggers(held, true, Some(target), release)
        }),
{
}

} // verus!
