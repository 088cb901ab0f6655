use handy_core::recent_transcription_undo::{
    clear_candidate, current_undo_hotkey, delete_recent_transcription, event_presses_hotkey,
    event_releases_hotkey, has_pending_delete_action, record_inserted_text, take_valid_candidate,
    DeleteAction, HotkeySpec, KeyEventInfo, RecentTranscriptionUndo, UndoShortcutTracker,
};

fn key(name: &str) -> Option<String> {
    Some(name.to_string())
}

fn down(modifiers: u32, k: Option<&str>) -> KeyEventInfo {
    KeyEventInfo { modifiers, key: k.map(|s| s.to_string()), is_key_down: true, changed_modifier: None }
}

fn up(modifiers: u32, k: Option<&str>, changed: Option<u32>) -> KeyEventInfo {
    KeyEventInfo { modifiers, key: k.map(|s| s.to_string()), is_key_down: false, changed_modifier: changed }
}

#[test]
fn recent_dictation_is_deleted_within_window() {
    let mut undo = RecentTranscriptionUndo::new();
    record_inserted_text(&mut undo, "안녕하세요", true, 5_000, 1_000);
    assert_eq!(delete_recent_transcription(&mut undo, true, 6_000), DeleteAction::DeleteCharacters(5));
}

#[test]
fn second_press_clears_input_then_nothing() {
    let mut undo = RecentTranscriptionUndo::new();
    record_inserted_text(&mut undo, "abc", true, 5_000, 0);
    assert_eq!(delete_recent_transcription(&mut undo, true, 100), DeleteAction::DeleteCharacters(3));
    assert_eq!(delete_recent_transcription(&mut undo, true, 1_600), DeleteAction::ClearCurrentInput);
    assert_eq!(delete_recent_transcription(&mut undo, true, 1_700), DeleteAction::Nothing);
}

#[test]
fn second_press_after_clear_window_does_nothing() {
    let mut undo = RecentTranscriptionUndo::new();
    record_inserted_text(&mut undo, "abc", true, 5_000, 0);
    assert_eq!(delete_recent_transcription(&mut undo, true, 100), DeleteAction::DeleteCharacters(3));
    assert_eq!(delete_recent_transcription(&mut undo, true, 1_601), DeleteAction::Nothing);
}

#[test]
fn expired_dictation_is_kept() {
    let mut undo = RecentTranscriptionUndo::new();
    record_inserted_text(&mut undo, "abc", true, 5_000, 1_000);
    assert_eq!(delete_recent_transcription(&mut undo, true, 6_001), DeleteAction::Nothing);
}

#[test]
fn empty_or_disabled_dictation_leaves_nothing() {
    let mut undo = RecentTranscriptionUndo::new();
    record_inserted_text(&mut undo, "abc", true, 5_000, 0);
    record_inserted_text(&mut undo, "", true, 5_000, 10);
    assert_eq!(delete_recent_transcription(&mut undo, true, 20), DeleteAction::Nothing);

    let mut undo = RecentTranscriptionUndo::new();
    record_inserted_text(&mut undo, "abc", false, 5_000, 0);
    assert_eq!(delete_recent_transcription(&mut undo, true, 20), DeleteAction::Nothing);
}

#[test]
fn disabled_undo_never_deletes() {
    let mut undo = RecentTranscriptionUndo::new();
    record_inserted_text(&mut undo, "abc", true, 5_000, 0);
    assert_eq!(delete_recent_transcription(&mut undo, false, 10), DeleteAction::Nothing);
    assert!(!has_pending_delete_action(&mut undo, false));
    assert!(has_pending_delete_action(&mut undo, true));
}

#[test]
fn candidate_is_taken_once() {
    let mut undo = RecentTranscriptionUndo::new();
    record_inserted_text(&mut undo, "abcd", true, 5_000, 0);
    assert_eq!(take_valid_candidate(&mut undo, true, 10), Some(4));
    assert_eq!(take_valid_candidate(&mut undo, true, 10), None);
    record_inserted_text(&mut undo, "abcd", true, 5_000, 0);
    clear_candidate(&mut undo);
    assert_eq!(take_valid_candidate(&mut undo, true, 10), None);
}

#[test]
fn undo_hotkey_parses_binding() {
    let mut undo = RecentTranscriptionUndo::new();
    let hotkey = current_undo_hotkey(&mut undo, true, Some("Cmd+Shift+K")).unwrap();
    assert_eq!(hotkey.modifiers, 0x1 | 0x20 | 0x2 | 0x40);
    assert_eq!(hotkey.key.as_deref(), Some("K"));
    assert!(current_undo_hotkey(&mut undo, true, Some("Cmd+K+L")).is_none());
    assert!(current_undo_hotkey(&mut undo, true, None).is_none());
    assert!(current_undo_hotkey(&mut undo, false, Some("Cmd+K")).is_none());
}

#[test]
fn modifier_matching_follows_sides() {
    let cmd_either = HotkeySpec { modifiers: 0x1 | 0x20, key: key("K") };
    assert!(event_presses_hotkey(&down(0x1, Some("K")), &cmd_either));
    assert!(event_presses_hotkey(&down(0x20, Some("K")), &cmd_either));
    assert!(!event_presses_hotkey(&down(0x1 | 0x2, Some("K")), &cmd_either));
    assert!(!event_presses_hotkey(&down(0x1, Some("J")), &cmd_either));
    let cmd_left = HotkeySpec { modifiers: 0x1, key: key("K") };
    assert!(!event_presses_hotkey(&down(0x20, Some("K")), &cmd_left));
    assert!(event_presses_hotkey(&down(0x21, Some("K")), &cmd_left));
    let with_fn = HotkeySpec { modifiers: 0x10, key: key("K") };
    assert!(!event_presses_hotkey(&down(0x0, Some("K")), &with_fn));
}

#[test]
fn release_of_modifier_only_hotkey() {
    let opt = HotkeySpec { modifiers: 0x8 | 0x100, key: None };
    assert!(event_releases_hotkey(&up(0, None, Some(0x8)), &opt));
    assert!(!event_releases_hotkey(&up(0, None, Some(0x2)), &opt));
    assert!(!event_releases_hotkey(&up(0, None, None), &opt));
    let k = HotkeySpec { modifiers: 0x1, key: key("K") };
    assert!(event_releases_hotkey(&up(0, Some("K"), None), &k));
    assert!(!event_releases_hotkey(&down(0x1, Some("K")), &k));
}

#[test]
fn clean_press_and_release_triggers_once() {
    let target = HotkeySpec { modifiers: 0x1 | 0x20, key: key("Z") };
    let mut tracker = UndoShortcutTracker::new();
    let t = || Some(HotkeySpec { modifiers: target.modifiers, key: target.key.clone() });
    assert!(!tracker.on_key_event(true, t(), &down(0x1, Some("Z"))));
    assert!(tracker.on_key_event(true, t(), &up(0x1, Some("Z"), None)));
    assert!(!tracker.on_key_event(true, t(), &up(0x1, Some("Z"), None)));
}

#[test]
fn press_used_with_other_key_does_not_trigger() {
    let target = HotkeySpec { modifiers: 0x1 | 0x20, key: key("Z") };
    let t = || Some(HotkeySpec { modifiers: target.modifiers, key: target.key.clone() });
    let mut tracker = UndoShortcutTracker::new();
    assert!(!tracker.on_key_event(true, t(), &down(0x1, Some("Z"))));
    assert!(!tracker.on_key_event(true, t(), &down(0x1, Some("X"))));
    assert!(!tracker.on_key_event(true, t(), &up(0x1, Some("Z"), None)));
    assert!(!tracker.on_key_event(false, t(), &down(0x1, Some("Z"))));
    assert!(!tracker.on_key_event(true, t(), &up(0x1, Some("Z"), None)));
}

#[test]
fn empty_or_disabled_dictation_clears_even_at_end_of_clock() {
    let mut undo = RecentTranscriptionUndo::new();
    record_inserted_text(&mut undo, "abc", true, 5_000, 0);
    record_inserted_text(&mut undo, "", true, 5_000, u64::MAX);
    assert_eq!(take_valid_candidate(&mut undo, true, 10), None);

    let mut undo = RecentTranscriptionUndo::new();
    record_inserted_text(&mut undo, "abc", true, 5_000, 0);
    record_inserted_text(&mut undo, "xyz", false, u64::MAX, u64::MAX);
    assert_eq!(take_valid_candidate(&mut undo, true, 10), None);
}

#[test]
fn new_dictation_disarms_clear_follow_up() {
    let mut undo = RecentTranscriptionUndo::new();
    record_inserted_text(&mut undo, "abc", true, 5_000, 0);
    assert_eq!(delete_recent_transcription(&mut undo, true, 100), DeleteAction::DeleteCharacters(3));
    record_inserted_text(&mut undo, "hello", true, 5_000, 200);
    // A new dictation disarms the clear follow-up, so the press deletes it.
    assert_eq!(delete_recent_transcription(&mut undo, true, 300), DeleteAction::DeleteCharacters(5));
    assert_eq!(delete_recent_transcription(&mut undo, true, 400), DeleteAction::ClearCurrentInput);
    assert_eq!(take_valid_candidate(&mut undo, true, 400), None);
}

#[test]
fn undo_works_at_the_end_of_the_clock() {
    let mut undo = RecentTranscriptionUndo::new();
    record_inserted_text(&mut undo, "abc", true, 5_000, u64::MAX - 10);
    assert_eq!(delete_recent_transcription(&mut undo, true, u64::MAX - 5), DeleteAction::DeleteCharacters(3));
    assert_eq!(delete_recent_transcription(&mut undo, true, u64::MAX), DeleteAction::ClearCurrentInput);
    assert_eq!(delete_recent_transcription(&mut undo, true, u64::MAX), DeleteAction::Nothing);
}
