use handy_core::interim_transcription::{
    finish_preview, finish_session, preview_text_to_show, request_preview, start_session,
    InterimTranscriptionState, PreviewDecision,
};

#[test]
fn previews_run_only_in_an_active_session() {
    let mut state: InterimTranscriptionState<u32> = InterimTranscriptionState::new();
    assert!(matches!(request_preview(&mut state, true, false, 1), PreviewDecision::Skipped));
    start_session(&mut state);
    assert!(matches!(request_preview(&mut state, false, false, 1), PreviewDecision::Skipped));
    match request_preview(&mut state, true, false, 2) {
        PreviewDecision::Run { generation, audio } => {
            assert_eq!(generation, 1);
            assert_eq!(audio, 2);
        }
        PreviewDecision::Skipped => panic!("expected a preview"),
    }
}

#[test]
fn one_preview_at_a_time_and_latest_settled_waits() {
    let mut state: InterimTranscriptionState<u32> = InterimTranscriptionState::new();
    start_session(&mut state);
    assert!(matches!(request_preview(&mut state, true, false, 1), PreviewDecision::Run { .. }));
    assert!(matches!(request_preview(&mut state, true, true, 2), PreviewDecision::Skipped));
    assert!(matches!(request_preview(&mut state, true, false, 3), PreviewDecision::Skipped));
    assert!(matches!(request_preview(&mut state, true, true, 4), PreviewDecision::Skipped));
    assert_eq!(finish_preview(&mut state), Some(4));
    assert_eq!(finish_preview(&mut state), None);
    assert!(matches!(request_preview(&mut state, true, false, 5), PreviewDecision::Run { .. }));
}

#[test]
fn previews_of_an_old_session_are_dropped() {
    let mut state: InterimTranscriptionState<u32> = InterimTranscriptionState::new();
    start_session(&mut state);
    let generation = match request_preview(&mut state, true, false, 1) {
        PreviewDecision::Run { generation, .. } => generation,
        PreviewDecision::Skipped => panic!("expected a preview"),
    };
    assert_eq!(preview_text_to_show(&state, generation, "  hello \n", true).as_deref(), Some("hello"));
    assert!(preview_text_to_show(&state, generation, "   ", true).is_none());
    assert!(preview_text_to_show(&state, generation, "hello", false).is_none());
    assert!(matches!(request_preview(&mut state, true, true, 2), PreviewDecision::Skipped));
    finish_session(&mut state);
    assert!(preview_text_to_show(&state, generation, "hello", true).is_none());
    assert_eq!(finish_preview(&mut state), None);
    assert!(matches!(request_preview(&mut state, true, false, 3), PreviewDecision::Skipped));
    start_session(&mut state);
    assert!(preview_text_to_show(&state, generation, "hello", true).is_none());
}
