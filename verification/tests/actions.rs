use handy_core::actions::{
    apple_reply_outcome, assemble_processed_transcription, build_contextual_system_prompt,
    build_contextual_user_content, build_legacy_context_decision_prompt,
    build_legacy_post_process_prompt, build_system_prompt, format_recent_context, history_entry,
    insertion_step,
    json_object_candidate, maybe_convert_chinese_variant, parse_post_process_json_result,
    plain_reply_outcome, plan_post_process, post_process_result_from_fields,
    previous_inserted_text, reasoning_override, recent_context_instruction,
    recording_error_kind, structured_reply_outcome, InsertionStep, LlmReply, PostProcessPrompt,
    PostProcessProvider, PostProcessRequest, PostProcessResult, PostProcessSettings,
    ReasoningOverride, RecordingErrorKind, StructuredOutcome,
};
use handy_core::post_process_context::RecentPostProcessContext;
use handy_core::text::strip_invisible_chars;

fn context(post_processed: Option<&str>, inserted: usize) -> RecentPostProcessContext {
    RecentPostProcessContext::new(
        "raw words".to_string(),
        "final words".to_string(),
        post_processed.map(|s| s.to_string()),
        inserted,
        1_000,
    )
}

fn settings(provider: Option<(&str, bool)>, model: &str, selected: Option<&str>) -> PostProcessSettings {
    PostProcessSettings {
        provider: provider.map(|(id, structured)| PostProcessProvider {
            id: id.to_string(),
            supports_structured_output: structured,
        }),
        model: model.to_string(),
        selected_prompt_id: selected.map(|s| s.to_string()),
        prompts: vec![
            PostProcessPrompt { id: "clean".to_string(), prompt: "Fix this:\n${output}".to_string() },
            PostProcessPrompt { id: "blank".to_string(), prompt: "   ".to_string() },
            PostProcessPrompt { id: "clean".to_string(), prompt: "shadowed".to_string() },
        ],
        context_prompt: "  ".to_string(),
        default_context_prompt: "Decide.".to_string(),
    }
}

#[test]
fn parses_replace_previous_operation_from_json() {
    let result = parse_post_process_json_result(
        r#"{"operation":"replace_previous","transcription":"이전 입력을 고친 문장입니다."}"#,
    )
    .expect("JSON result should parse");

    assert!(result.replace_previous);
    assert_eq!(result.text, "이전 입력을 고친 문장입니다.");
}

#[test]
fn parses_json_even_when_wrapped_in_markdown() {
    let result = parse_post_process_json_result(
        "```json\n{\"operation\":\"insert\",\"transcription\":\"새 문장입니다.\"}\n```",
    )
    .expect("wrapped JSON result should parse");

    assert!(!result.replace_previous);
    assert_eq!(result.text, "새 문장입니다.");
}

#[test]
fn contextual_system_prompt_preserves_selected_cleanup_prompt() {
    let prompt = "Clean this transcript:\n- Add punctuation.\n\nTranscript:\n${output}";
    let context_prompt = "Return JSON with operation and transcription. Default to insert.";

    let result = build_contextual_system_prompt(prompt, context_prompt);

    assert!(result.contains(context_prompt));
    assert!(result.contains("Clean this transcript"));
    assert!(result.contains("Add punctuation"));
    assert!(result.contains("Always return the required JSON object"));
}

#[test]
fn contextual_system_prompt_exact_text() {
    let result = build_contextual_system_prompt("Be brief. ${output} ", "CTX");
    assert_eq!(
        result,
        "CTX\n\nCleanup rules for the `transcription` value only:\nBe brief.\n\nIf the cleanup rules ask for plain text, treat that as applying inside the JSON `transcription` value. Always return the required JSON object."
    );
    assert_eq!(build_contextual_system_prompt(" ${output} ", "CTX"), "CTX");
}

#[test]
fn system_prompt_drops_placeholder_and_trims() {
    assert_eq!(build_system_prompt("  Clean:\n${output}\n"), "Clean:");
    assert_eq!(build_system_prompt("${output}"), "");
    assert_eq!(build_system_prompt("a ${output} b ${output}"), "a  b");
}

#[test]
fn context_instruction_falls_back_to_default() {
    assert_eq!(recent_context_instruction(" \t\n", "default"), "default");
    assert_eq!(recent_context_instruction("  mine  ", "default"), "mine");
}

#[test]
fn recent_context_shows_post_processed_text_first() {
    let with_pp = context(Some("polished"), 8);
    assert_eq!(previous_inserted_text(&with_pp), "polished");
    assert_eq!(format_recent_context(&with_pp), "P_raw:\nraw words\n\nP:\npolished");
    let without_pp = context(None, 8);
    assert_eq!(previous_inserted_text(&without_pp), "final words");
}

#[test]
fn user_content_with_and_without_context() {
    let c = context(None, 3);
    assert_eq!(
        build_contextual_user_content("now", Some(&c)),
        "P_raw:\nraw words\n\nP:\nfinal words\n\nC:\nnow"
    );
    assert_eq!(build_contextual_user_content("now", None), "now");
}

#[test]
fn legacy_prompts() {
    let c = context(None, 3);
    assert_eq!(
        build_legacy_post_process_prompt("Fix: ${output}!", "hi", None, "CTX"),
        "Fix: hi!"
    );
    assert_eq!(
        build_legacy_post_process_prompt("Fix: ${output}!", "hi", Some(&c), "CTX"),
        "CTX\n\nP_raw:\nraw words\n\nP:\nfinal words\n\nC:\nhi"
    );
    assert_eq!(
        build_legacy_context_decision_prompt("${output}", "hi", &c, "CTX"),
        "CTX\n\nP_raw:\nraw words\n\nP:\nfinal words\n\nC:\nhi"
    );
    assert_eq!(
        build_legacy_context_decision_prompt("Fix ${output}", "hi", &c, "CTX"),
        "CTX\n\nCleanup rules for the `transcription` value only:\nFix\n\nIf the cleanup rules ask for plain text, treat that as applying inside the JSON `transcription` value. Always return the required JSON object.\n\nP_raw:\nraw words\n\nP:\nfinal words\n\nC:\nhi"
    );
}

#[test]
fn json_candidate_cuts_object_out() {
    assert_eq!(json_object_candidate("  text {\"a\":1} more  "), "{\"a\":1}");
    assert_eq!(json_object_candidate("  } no object {  "), "} no object {");
    assert_eq!(json_object_candidate(" plain "), "plain");
}

#[test]
fn invisible_characters_are_stripped() {
    assert_eq!(strip_invisible_chars("a\u{200B}b\u{200C}c\u{200D}d\u{FEFF}e"), "abcde");
    let r = parse_post_process_json_result("{\"transcription\":\"x\u{200B}y\"}").unwrap();
    assert_eq!(r.text, "xy");
    assert!(!r.replace_previous);
}

#[test]
fn replies_that_are_not_json_objects_do_not_parse() {
    assert!(parse_post_process_json_result("no json").is_none());
    assert!(parse_post_process_json_result("{\"operation\":\"insert\"}").is_none());
    assert!(parse_post_process_json_result("{\"transcription\":5}").is_none());
}

#[test]
fn operation_must_be_exactly_replace_previous() {
    let r = PostProcessResult::with_operation("t".to_string(), Some("replace_previous"));
    assert!(r.replace_previous);
    let r = PostProcessResult::with_operation("t".to_string(), Some("Replace_previous"));
    assert!(!r.replace_previous);
    let r = PostProcessResult::with_operation("t".to_string(), None);
    assert!(!r.replace_previous);
    let r = post_process_result_from_fields(Some("a\u{FEFF}".to_string()), Some("replace_previous".to_string())).unwrap();
    assert_eq!(r.text, "a");
    assert!(r.replace_previous);
    assert!(post_process_result_from_fields(None, Some("insert".to_string())).is_none());
}

#[test]
fn reasoning_is_switched_off_for_custom_and_openrouter() {
    assert_eq!(reasoning_override("custom"), ReasoningOverride::EffortNone);
    assert_eq!(reasoning_override("openrouter"), ReasoningOverride::EffortNoneExcluded);
    assert_eq!(reasoning_override("openai"), ReasoningOverride::Unchanged);
}

#[test]
fn plan_skips_without_what_it_needs() {
    let t = "hello";
    assert!(matches!(plan_post_process(&settings(None, "m", Some("clean")), t, None), PostProcessRequest::Skip));
    assert!(matches!(plan_post_process(&settings(Some(("openai", true)), "  ", Some("clean")), t, None), PostProcessRequest::Skip));
    assert!(matches!(plan_post_process(&settings(Some(("openai", true)), "m", None), t, None), PostProcessRequest::Skip));
    assert!(matches!(plan_post_process(&settings(Some(("openai", true)), "m", Some("missing")), t, None), PostProcessRequest::Skip));
    assert!(matches!(plan_post_process(&settings(Some(("openai", true)), "m", Some("blank")), t, None), PostProcessRequest::Skip));
}

#[test]
fn plan_structured_request() {
    let s = settings(Some(("custom", true)), "m", Some("clean"));
    match plan_post_process(&s, "hello", None) {
        PostProcessRequest::Structured { system_prompt, user_content, legacy_prompt, reasoning, legacy_expects_json } => {
            assert_eq!(system_prompt, "Fix this:");
            assert_eq!(user_content, "hello");
            assert_eq!(legacy_prompt, "Fix this:\nhello");
            assert_eq!(reasoning, ReasoningOverride::EffortNone);
            assert!(!legacy_expects_json);
        }
        _ => panic!("expected a structured request"),
    }
    let c = context(None, 2);
    match plan_post_process(&s, "hello", Some(&c)) {
        PostProcessRequest::Structured { system_prompt, user_content, legacy_expects_json, .. } => {
            assert!(system_prompt.starts_with("Decide.\n\nCleanup rules"));
            assert_eq!(user_content, "P_raw:\nraw words\n\nP:\nfinal words\n\nC:\nhello");
            assert!(legacy_expects_json);
        }
        _ => panic!("expected a structured request"),
    }
}

#[test]
fn plan_legacy_and_apple_requests() {
    let s = settings(Some(("openrouter", false)), "m", Some("clean"));
    match plan_post_process(&s, "hello", None) {
        PostProcessRequest::Legacy { prompt, reasoning, expects_json } => {
            assert_eq!(prompt, "Fix this:\nhello");
            assert_eq!(reasoning, ReasoningOverride::EffortNoneExcluded);
            assert!(!expects_json);
        }
        _ => panic!("expected a plain request"),
    }
    let apple = settings(Some(("apple_intelligence", true)), "4096", Some("clean"));
    let c = context(None, 2);
    match plan_post_process(&apple, "hello", Some(&c)) {
        PostProcessRequest::AppleIntelligence { system_prompt, user_content, expects_json } => {
            assert!(system_prompt.starts_with("Follow the user request exactly."));
            assert!(user_content.ends_with("\n\nC:\nhello"));
            assert!(expects_json);
        }
        _ => panic!("expected an Apple request"),
    }
}

#[test]
fn structured_replies() {
    match structured_reply_outcome(LlmReply::Content("{\"transcription\":\"ok\",\"operation\":\"insert\"}".to_string())) {
        StructuredOutcome::Finished(Some(r)) => {
            assert_eq!(r.text, "ok");
            assert!(!r.replace_previous);
        }
        _ => panic!("expected a result"),
    }
    match structured_reply_outcome(LlmReply::Content("just text\u{200B}".to_string())) {
        StructuredOutcome::Finished(Some(r)) => assert_eq!(r.text, "just text"),
        _ => panic!("expected a result"),
    }
    assert!(matches!(structured_reply_outcome(LlmReply::NoContent), StructuredOutcome::Finished(None)));
    assert!(matches!(structured_reply_outcome(LlmReply::Failed), StructuredOutcome::FallBackToPlain));
}

#[test]
fn plain_and_apple_replies() {
    let r = plain_reply_outcome(LlmReply::Content("{\"transcription\":\"j\"}".to_string()), false).unwrap();
    assert_eq!(r.text, "{\"transcription\":\"j\"}");
    let r = plain_reply_outcome(LlmReply::Content("{\"transcription\":\"j\",\"operation\":\"replace_previous\"}".to_string()), true).unwrap();
    assert_eq!(r.text, "j");
    assert!(r.replace_previous);
    let r = plain_reply_outcome(LlmReply::Content("not json".to_string()), true).unwrap();
    assert_eq!(r.text, "not json");
    assert!(plain_reply_outcome(LlmReply::NoContent, true).is_none());
    assert!(plain_reply_outcome(LlmReply::Failed, false).is_none());
    assert!(apple_reply_outcome(LlmReply::Content("  \n".to_string()), false).is_none());
    assert_eq!(apple_reply_outcome(LlmReply::Content("fine".to_string()), false).unwrap().text, "fine");
    assert!(apple_reply_outcome(LlmReply::Failed, true).is_none());
}

#[test]
fn processed_transcription_replaces_only_with_inserted_context() {
    let s = settings(Some(("custom", true)), "m", Some("clean"));
    let c = context(None, 4);
    let p = PostProcessResult { text: "new".to_string(), replace_previous: true };
    let out = assemble_processed_transcription("old", None, true, Some(&c), Some(p), &s);
    assert_eq!(out.final_text, "new");
    assert_eq!(out.post_processed_text.as_deref(), Some("new"));
    assert_eq!(out.post_process_prompt.as_deref(), Some("Fix this:\n${output}"));
    assert_eq!(out.replace_previous_char_count, Some(4));

    let empty = context(None, 0);
    let p = PostProcessResult { text: "new".to_string(), replace_previous: true };
    let out = assemble_processed_transcription("old", None, true, Some(&empty), Some(p), &s);
    assert_eq!(out.replace_previous_char_count, None);

    let out = assemble_processed_transcription("old", Some("conv".to_string()), true, None, None, &s);
    assert_eq!(out.final_text, "conv");
    assert!(out.post_processed_text.is_none());

    let out = assemble_processed_transcription("old", Some("conv".to_string()), false, None, None, &s);
    assert_eq!(out.final_text, "conv");
    assert_eq!(out.post_processed_text.as_deref(), Some("conv"));
    let out = assemble_processed_transcription("same", Some("same".to_string()), false, None, None, &s);
    assert!(out.post_processed_text.is_none());
}

#[test]
fn insertion_steps() {
    let s = settings(None, "", None);
    let out = assemble_processed_transcription("", None, false, None, None, &s);
    assert!(matches!(insertion_step(out), InsertionStep::Nothing));
    let out = assemble_processed_transcription("text", None, false, None, None, &s);
    match insertion_step(out) {
        InsertionStep::Paste { text } => assert_eq!(text, "text"),
        _ => panic!("expected a paste"),
    }
    let s2 = settings(Some(("custom", true)), "m", Some("clean"));
    let c = context(None, 7);
    let p = PostProcessResult { text: "fixed".to_string(), replace_previous: true };
    let out = assemble_processed_transcription("x", None, true, Some(&c), Some(p), &s2);
    match insertion_step(out) {
        InsertionStep::ReplacePrevious { previous_char_count, text } => {
            assert_eq!(previous_char_count, 7);
            assert_eq!(text, "fixed");
        }
        _ => panic!("expected a replacement"),
    }
}

#[test]
fn chinese_variant_conversion() {
    assert_eq!(maybe_convert_chinese_variant("ko", "漢字"), None);
    assert_eq!(
        maybe_convert_chinese_variant("zh-Hans", "開放中文轉換").as_deref(),
        Some("开放中文转换")
    );
    assert_eq!(
        maybe_convert_chinese_variant("zh-Hant", "开放中文转换").as_deref(),
        Some("開放中文轉換")
    );
}

#[test]
fn recording_errors_are_classified() {
    assert_eq!(recording_error_kind(true, true), RecordingErrorKind::MicrophonePermissionDenied);
    assert_eq!(recording_error_kind(false, true), RecordingErrorKind::NoInputDevice);
    assert_eq!(recording_error_kind(false, false), RecordingErrorKind::Unknown);
    assert_eq!(RecordingErrorKind::MicrophonePermissionDenied.error_type(), "microphone_permission_denied");
    assert_eq!(RecordingErrorKind::NoInputDevice.error_type(), "no_input_device");
    assert_eq!(RecordingErrorKind::Unknown.error_type(), "unknown");
}

#[test]
fn json_candidate_cut_twice_is_cut_once() {
    for reply in [
        "  Sure! ```json\n{\"transcription\": \"hi\"}\n``` done ",
        "no braces here ",
        "} reversed {",
        "\t{\"a\": {\"b\": 1}}\n",
    ] {
        let once = json_object_candidate(reply);
        assert_eq!(json_object_candidate(&once), once);
    }
    assert_eq!(json_object_candidate("  Sure! {\"x\": 1} ok "), "{\"x\": 1}");
}

#[test]
fn history_entry_saved_only_with_recording() {
    assert!(history_entry("a.wav".to_string(), false, Some("hi".to_string()), true, None, None).is_none());
    assert!(history_entry("a.wav".to_string(), false, None, false, None, None).is_none());

    let e = history_entry(
        "a.wav".to_string(),
        true,
        Some("hi".to_string()),
        true,
        Some("Hi.".to_string()),
        Some("Fix it".to_string()),
    )
    .unwrap();
    assert_eq!(e.file_name, "a.wav");
    assert_eq!(e.transcription_text, "hi");
    assert!(e.post_processed);
    assert_eq!(e.post_processed_text.as_deref(), Some("Hi."));
    assert_eq!(e.post_process_prompt.as_deref(), Some("Fix it"));

    let failed = history_entry(
        "b.wav".to_string(),
        true,
        None,
        true,
        Some("ignored".to_string()),
        Some("ignored".to_string()),
    )
    .unwrap();
    assert_eq!(failed.file_name, "b.wav");
    assert_eq!(failed.transcription_text, "");
    assert!(failed.post_processed);
    assert_eq!(failed.post_processed_text, None);
    assert_eq!(failed.post_process_prompt, None);
}
