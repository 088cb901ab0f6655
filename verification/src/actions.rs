//! What happens to a transcription after speech recognition: optional
//! conversion between Simplified and Traditional Chinese, the prompts sent to
//! a post-processing language model, the interpretation of its replies, and
//! the final text that is inserted or that replaces the previous insertion.

use vstd::prelude::*;
use crate::post_process_context::{ContextEntry, RecentPostProcessContext};
use crate::text::{
    chars_of, first_index_of, find_first_char, find_last_char, is_blank, is_blank_text, is_invisible,
    last_index_of, opt_text, replace_all, replace_text, same_text, string_of_range,
    strip_invisible_chars, trim, trimmed, without_invisible,
};

verus! {

// ---------------------------------------------------------------------------
// Prompt text
// ---------------------------------------------------------------------------

/// The prompt template with its `${output}` placeholder removed and the
/// surrounding white space trimmed.
pub open spec fn system_prompt_text(template: Seq<char>) -> Seq<char> {
    trim(replace_all(template, "${output}"@, Seq::<char>::empty()))
}

/// The configured context instruction, trimmed, or the default one when the
/// configured one is blank.
pub open spec fn context_instruction_text(configured: Seq<char>, default_prompt: Seq<char>) -> Seq<
    char,
> {
    if trim(configured).len() == 0 {
        default_prompt
    } else {
        trim(configured)
    }
}

/// The text that the previous dictation left in the input field.
pub open spec fn previous_text(c: ContextEntry) -> Seq<char> {
    match c.post_processed_text {
        Some(t) => t,
        None => c.final_text,
    }
}

/// The previous dictation as shown to the model.
pub open spec fn recent_block(c: ContextEntry) -> Seq<char> {
    "P_raw:\n"@ + c.raw_transcription + "\n\nP:\n"@ + previous_text(c)
}

/// The user message: the transcription, preceded by the previous dictation
/// when there is one.
pub open spec fn contextual_user_text(transcription: Seq<char>, c: Option<ContextEntry>) -> Seq<
    char,
> {
    match c {
        Some(c) => recent_block(c) + "\n\nC:\n"@ + transcription,
        None => transcription,
    }
}

/// The block that carries the user's cleanup rules into a prompt that asks
/// for a JSON answer.
pub open spec fn cleanup_rules_text(cleanup: Seq<char>) -> Seq<char> {
    "\n\nCleanup rules for the `transcription` value only:\n"@ + cleanup
        + "\n\nIf the cleanup rules ask for plain text, treat that as applying inside the JSON `transcription` value. Always return the required JSON object."@
}

/// The system prompt used with a previous dictation: the context
/// instruction, followed by the cleanup rules when there are any.
pub open spec fn contextual_system_text(prompt: Seq<char>, context_prompt: Seq<char>) -> Seq<char> {
    let cleanup = system_prompt_text(prompt);
    if cleanup.len() == 0 {
        context_prompt
    } else {
        context_prompt + cleanup_rules_text(cleanup)
    }
}

/// The single prompt of the plain-completion mode.
pub open spec fn legacy_prompt_text(
    prompt: Seq<char>,
    transcription: Seq<char>,
    c: Option<ContextEntry>,
    context_prompt: Seq<char>,
) -> Seq<char> {
    match c {
        Some(c) => context_prompt + "\n\n"@ + recent_block(c) + "\n\nC:\n"@ + transcription,
        None => replace_all(prompt, "${output}"@, transcription),
    }
}

/// The single prompt that asks the model to decide between inserting and
/// replacing the previous dictation.
pub open spec fn legacy_decision_text(
    prompt: Seq<char>,
    transcription: Seq<char>,
    c: ContextEntry,
    context_prompt: Seq<char>,
) -> Seq<char> {
    let cleanup = system_prompt_text(prompt);
    let block = if cleanup.len() == 0 {
        Seq::<char>::empty()
    } else {
        cleanup_rules_text(cleanup)
    };
    context_prompt + block + "\n\n"@ + recent_block(c) + "\n\nC:\n"@ + transcription
}

proof fn lemma_placeholder_nonempty()
    ensures
        "${output}"@.len() > 0,
{
    reveal_strlit("${output}");
}

/// Builds a system prompt from the user's prompt template: the
/// `${output}` placeholder is removed, since the transcription travels as
/// the user message, and the result is trimmed.
pub fn build_system_prompt(prompt_template: &str) -> (r: String)
    ensures
        r@ == system_prompt_text(prompt_template@),
{
    proof {
        lemma_placeholder_nonempty();
        reveal_strlit("");
        assert(""@ =~= Seq::<char>::empty());
    }
    let replaced = replace_text(prompt_template, "${output}", "");
    trimmed(replaced.as_str())
}

/// The context instruction: the configured one, trimmed, or the default one
/// when the configured one is blank.
pub fn recent_context_instruction(configured: &str, default_prompt: &str) -> (r: String)
    ensures
        r@ == context_instruction_text(configured@, default_prompt@),
{
    let prompt = trimmed(configured);
    if prompt.as_str().is_empty() {
        String::from_str(default_prompt)
    } else {
        prompt
    }
}

/// The text that the previous dictation left in the input field: its
/// post-processed text when there is one, else its final text.
pub fn previous_inserted_text(context: &RecentPostProcessContext) -> (r: &str)
    ensures
        r@ == previous_text(context@),
{
    match &context.post_processed_text {
        Some(t) => t.as_str(),
        None => context.final_text.as_str(),
    }
}

/// The previous dictation as shown to the model:
/// `P_raw:\n{raw}\n\nP:\n{previous}`.
pub fn format_recent_context(context: &RecentPostProcessContext) -> (r: String)
    ensures
        r@ == recent_block(context@),
{
    let mut r = String::new();
    r.append("P_raw:\n");
    r.append(context.raw_transcription.as_str());
    r.append("\n\nP:\n");
    r.append(previous_inserted_text(context));
    r
}

/// The view of an optional context.
pub open spec fn opt_context(c: Option<&RecentPostProcessContext>) -> Option<ContextEntry> {
    match c {
        Some(c) => Some(c@),
        None => None,
    }
}

/// The user message: `{previous dictation}\n\nC:\n{transcription}`, or the
/// bare transcription when there is no previous dictation.
pub fn build_contextual_user_content(
    transcription: &str,
    context: Option<&RecentPostProcessContext>,
) -> (r: String)
    ensures
        r@ == contextual_user_text(transcription@, opt_context(context)),
{
    match context {
        Some(c) => {
            let mut r = format_recent_context(c);
            r.append("\n\nC:\n");
            r.append(transcription);
            r
        },
        None => String::from_str(transcription),
    }
}

fn append_cleanup_rules(r: &mut String, cleanup: &str)
    ensures
        final(r)@ == old(r)@ + cleanup_rules_text(cleanup@),
{
    let ghost start = r@;
    r.append("\n\nCleanup rules for the `transcription` value only:\n");
    r.append(cleanup);
    r.append(
        "\n\nIf the cleanup rules ask for plain text, treat that as applying inside the JSON `transcription` value. Always return the required JSON object.",
    );
    assert(r@ =~= start + cleanup_rules_text(cleanup@));
}

/// The system prompt used when a previous dictation is offered: the context
/// instruction, followed by the user's cleanup rules, which are to apply
/// inside the JSON `transcription` value.
pub fn build_contextual_system_prompt(prompt: &str, context_prompt: &str) -> (r: String)
    ensures
        r@ == contextual_system_text(prompt@, context_prompt@),
{
    let cleanup_prompt = build_system_prompt(prompt);
    if cleanup_prompt.as_str().is_empty() {
        return String::from_str(context_prompt);
    }
    let mut r = String::from_str(context_prompt);
    append_cleanup_rules(&mut r, cleanup_prompt.as_str());
    r
}

/// The prompt of the plain-completion mode: with a previous dictation,
/// `{context prompt}\n\n{previous dictation}\n\nC:\n{transcription}`;
/// without one, the template with `${output}` replaced by the transcription.
pub fn build_legacy_post_process_prompt(
    prompt: &str,
    transcription: &str,
    context: Option<&RecentPostProcessContext>,
    context_prompt: &str,
) -> (r: String)
    ensures
        r@ == legacy_prompt_text(prompt@, transcription@, opt_context(context), context_prompt@),
{
    match context {
        Some(c) => {
            let mut r = String::from_str(context_prompt);
            r.append("\n\n");
            let block = format_recent_context(c);
            r.append(block.as_str());
            r.append("\n\nC:\n");
            r.append(transcription);
            r
        },
        None => {
            proof {
                lemma_placeholder_nonempty();
            }
            replace_text(prompt, "${output}", transcription)
        },
    }
}

/// The prompt that asks the model to decide between inserting the new
/// dictation and replacing the previous one:
/// `{context prompt}{cleanup rules}\n\n{previous dictation}\n\nC:\n{transcription}`.
pub fn build_legacy_context_decision_prompt(
    prompt_template: &str,
    transcription: &str,
    context: &RecentPostProcessContext,
    context_prompt: &str,
) -> (r: String)
    ensures
        r@ == legacy_decision_text(prompt_template@, transcription@, context@, context_prompt@),
{
    let cleanup_prompt = build_system_prompt(prompt_template);
    let mut r = String::from_str(context_prompt);
    if !cleanup_prompt.as_str().is_empty() {
        append_cleanup_rules(&mut r, cleanup_prompt.as_str());
    } else {
        assert(r@ =~= r@ + Seq::<char>::empty());
    }
    r.append("\n\n");
    let block = format_recent_context(context);
    r.append(block.as_str());
    r.append("\n\nC:\n");
    r.append(transcription);
    r
}

// ---------------------------------------------------------------------------
// Replies
// ---------------------------------------------------------------------------

/// The part of a reply that should hold the JSON object: the trimmed reply
/// from its first `{` to its last `}`, or the whole trimmed reply when there
/// is no such pair in that order.
pub open spec fn json_candidate_text(content: Seq<char>) -> Seq<char> {
    let t = trim(content);
    match (first_index_of(t, '{'), last_index_of(t, '}')) {
        (Some(start), Some(end)) => if start <= end {
            t.subrange(start, end + 1)
        } else {
            t
        },
        _ => t,
    }
}

/// Cuts the JSON object out of a model reply, for replies that wrap it in
/// markdown fences or prose.
pub fn json_object_candidate(content: &str) -> (r: String)
    ensures
        r@ == json_candidate_text(content@),
{
    let t = trimmed(content);
    let v = chars_of(t.as_str());
    match (find_first_char(&v, '{'), find_last_char(&v, '}')) {
        (Some(start), Some(end)) => {
            if start <= end {
                string_of_range(&v, start, end + 1)
            } else {
                t
            }
        },
        _ => t,
    }
}

/// What the JSON parser finds under `key` in `document`: the member's text
/// when `document` is a JSON object whose member `key` is a string, else
/// nothing.
pub uninterp spec fn json_string_member(document: Seq<char>, key: Seq<char>) -> Option<Seq<char>>;

/// Parses `document` with `serde_json::from_str` into a `serde_json::Value`
/// and returns the string held by its member `key`, if the document parses,
/// is an object, and that member is a string.
///
/// The contract claims only that the answer is a function of the two texts
/// (named `json_string_member`); what the parser accepts is not restated.
#[verifier::external_body]
fn json_member_text(document: &str, key: &str) -> (r: Option<String>)
    ensures
        opt_text(r) == json_string_member(document@, key@),
{
    let value = match serde_json::from_str::<serde_json::Value>(document) {
        Ok(value) => value,
        Err(_) => return None,
    };
    match value.get(key) {
        Some(serde_json::Value::String(text)) => Some(text.clone()),
        _ => None,
    }
}

/// The outcome of post-processing: the text to insert, and whether it
/// replaces the previous dictation instead of following it.
pub struct PostProcessResult {
    pub text: String,
    pub replace_previous: bool,
}

impl View for PostProcessResult {
    type V = (Seq<char>, bool);

    open spec fn view(&self) -> (Seq<char>, bool) {
        (self.text@, self.replace_previous)
    }
}

/// The view of an optional result.
pub open spec fn opt_result(r: Option<PostProcessResult>) -> Option<(Seq<char>, bool)> {
    match r {
        Some(r) => Some(r@),
        None => None,
    }
}

/// Whether an `operation` value asks to replace the previous dictation.
pub open spec fn asks_to_replace(operation: Option<Seq<char>>) -> bool {
    operation == Some("replace_previous"@)
}

impl PostProcessResult {
    /// A result that is inserted after whatever came before.
    pub fn insert(text: String) -> (r: Self)
        ensures
            r@ == (text@, false),
    {
        PostProcessResult { text, replace_previous: false }
    }

    /// A result whose `operation` decides between inserting and replacing:
    /// only `replace_previous` replaces.
    pub fn with_operation(text: String, operation: Option<&str>) -> (r: Self)
        ensures
            r.text@ == text@,
            r.replace_previous == match operation {
                Some(op) => asks_to_replace(Some(op@)),
                None => false,
            },
    {
        let replace_previous = match operation {
            Some(value) => same_text(value, "replace_previous"),
            None => false,
        };
        PostProcessResult { text, replace_previous }
    }
}

/// The result described by a reply's `transcription` and `operation`
/// members: none without a transcription; else the transcription with
/// invisible characters removed, replacing the previous dictation exactly
/// when the operation is `replace_previous`.
pub open spec fn result_from_fields(
    transcription: Option<Seq<char>>,
    operation: Option<Seq<char>>,
) -> Option<(Seq<char>, bool)> {
    match transcription {
        Some(t) => Some((without_invisible(t), asks_to_replace(operation))),
        None => None,
    }
}

/// The result that a reply parses to.
pub open spec fn parsed_reply(content: Seq<char>) -> Option<(Seq<char>, bool)> {
    let document = json_candidate_text(content);
    result_from_fields(
        json_string_member(document, "transcription"@),
        json_string_member(document, "operation"@),
    )
}

/// Turns the `transcription` and `operation` members of a reply into a
/// result.
pub fn post_process_result_from_fields(
    transcription: Option<String>,
    operation: Option<String>,
) -> (r: Option<PostProcessResult>)
    ensures
        opt_result(r) == result_from_fields(opt_text(transcription), opt_text(operation)),
{
    match transcription {
        None => None,
        Some(t) => {
            let text = strip_invisible_chars(t.as_str());
            let result = match &operation {
                Some(op) => PostProcessResult::with_operation(text, Some(op.as_str())),
                None => PostProcessResult::with_operation(text, None),
            };
            Some(result)
        },
    }
}

/// Parses a structured reply: the JSON object found in it must hold a string
/// `transcription`; its `operation` decides whether the previous dictation
/// is replaced.
pub fn parse_post_process_json_result(content: &str) -> (r: Option<PostProcessResult>)
    ensures
        opt_result(r) == parsed_reply(content@),
{
    let document = json_object_candidate(content);
    let transcription = json_member_text(document.as_str(), "transcription");
    let operation = json_member_text(document.as_str(), "operation");
    post_process_result_from_fields(transcription, operation)
}

// ---------------------------------------------------------------------------
// Deciding what to ask the model
// ---------------------------------------------------------------------------

/// The provider whose identifier selects Apple's on-device model.
pub const APPLE_INTELLIGENCE_PROVIDER_ID: &'static str = "apple_intelligence";

/// The system prompt used with Apple's on-device model when it must decide
/// between inserting and replacing.
pub const APPLE_JSON_SYSTEM_PROMPT: &'static str =
    "Follow the user request exactly. When asked to return JSON, return only valid JSON with no markdown or explanation.";

/// The post-processing provider that the user selected.
pub struct PostProcessProvider {
    pub id: String,
    pub supports_structured_output: bool,
}

/// A prompt template that the user saved.
pub struct PostProcessPrompt {
    pub id: String,
    pub prompt: String,
}

/// The settings that post-processing reads, resolved for the active
/// provider.
pub struct PostProcessSettings {
    /// The active provider, if one is selected.
    pub provider: Option<PostProcessProvider>,
    /// The model configured for the active provider (empty when none is).
    pub model: String,
    /// The identifier of the selected prompt template.
    pub selected_prompt_id: Option<String>,
    /// The saved prompt templates.
    pub prompts: Vec<PostProcessPrompt>,
    /// The configured context instruction (may be blank).
    pub context_prompt: String,
    /// The context instruction used when the configured one is blank.
    pub default_context_prompt: String,
}

/// The template of the first saved prompt whose identifier is `id`.
pub open spec fn prompt_with_id(prompts: Seq<PostProcessPrompt>, id: Seq<char>) -> Option<Seq<char>>
    decreases prompts.len(),
{
    if prompts.len() == 0 {
        None
    } else if prompts[0].id@ == id {
        Some(prompts[0].prompt@)
    } else {
        prompt_with_id(prompts.drop_first(), id)
    }
}

/// The template of the selected prompt, if one is selected and saved.
pub open spec fn selected_prompt(s: PostProcessSettings) -> Option<Seq<char>> {
    match s.selected_prompt_id {
        Some(id) => prompt_with_id(s.prompts@, id@),
        None => None,
    }
}

/// Looks up the template of the first saved prompt whose identifier is `id`.
pub fn find_prompt(prompts: &Vec<PostProcessPrompt>, id: &str) -> (r: Option<String>)
    ensures
        opt_text(r) == prompt_with_id(prompts@, id@),
{
    let mut i: usize = 0;
    assert(prompts@.skip(0) =~= prompts@);
    while i < prompts.len()
        invariant
            i <= prompts.len(),
            prompt_with_id(prompts@, id@) == prompt_with_id(prompts@.skip(i as int), id@),
        decreases prompts.len() - i,
    {
        assert(prompts@.skip(i as int).drop_first() =~= prompts@.skip(i + 1));
        if same_text(prompts[i].id.as_str(), id) {
            return Some(prompts[i].prompt.clone());
        }
        i = i + 1;
    }
    None
}

/// The template of the selected prompt, if one is selected and saved.
pub fn selected_prompt_text(settings: &PostProcessSettings) -> (r: Option<String>)
    ensures
        opt_text(r) == selected_prompt(*settings),
{
    match &settings.selected_prompt_id {
        Some(id) => find_prompt(&settings.prompts, id.as_str()),
        None => None,
    }
}

/// How reasoning is configured for a request.
#[derive(Clone, Copy, PartialEq, Eq, Structural, Debug)]
pub enum ReasoningOverride {
    /// The provider's defaults.
    Unchanged,
    /// A top-level `reasoning_effort` of `none` (local OpenAI-compatible
    /// servers).
    EffortNone,
    /// A nested reasoning object with effort `none` and the reasoning text
    /// excluded from the reply.
    EffortNoneExcluded,
}

/// Reasoning is switched off for the `custom` and `openrouter` providers.
pub open spec fn reasoning_for(provider_id: Seq<char>) -> ReasoningOverride {
    if provider_id == "custom"@ {
        ReasoningOverride::EffortNone
    } else if provider_id == "openrouter"@ {
        ReasoningOverride::EffortNoneExcluded
    } else {
        ReasoningOverride::Unchanged
    }
}

/// How reasoning is configured for requests to the provider `provider_id`.
pub fn reasoning_override(provider_id: &str) -> (r: ReasoningOverride)
    ensures
        r == reasoning_for(provider_id@),
{
    if same_text(provider_id, "custom") {
        ReasoningOverride::EffortNone
    } else if same_text(provider_id, "openrouter") {
        ReasoningOverride::EffortNoneExcluded
    } else {
        ReasoningOverride::Unchanged
    }
}

/// The request to make of the post-processing model.
pub enum PostProcessRequest {
    /// Post-processing does not run.
    Skip,
    /// Ask Apple's on-device model (where it is available).
    AppleIntelligence { system_prompt: String, user_content: String, expects_json: bool },
    /// Ask for a structured reply; if that request fails, fall back to the
    /// plain-completion prompt.
    Structured {
        system_prompt: String,
        user_content: String,
        legacy_prompt: String,
        reasoning: ReasoningOverride,
        legacy_expects_json: bool,
    },
    /// Ask for a plain completion.
    Legacy { prompt: String, reasoning: ReasoningOverride, expects_json: bool },
}

/// The mathematical content of a [`PostProcessRequest`].
pub enum RequestPlan {
    Skip,
    AppleIntelligence { system_prompt: Seq<char>, user_content: Seq<char>, expects_json: bool },
    Structured {
        system_prompt: Seq<char>,
        user_content: Seq<char>,
        legacy_prompt: Seq<char>,
        reasoning: ReasoningOverride,
        legacy_expects_json: bool,
    },
    Legacy { prompt: Seq<char>, reasoning: ReasoningOverride, expects_json: bool },
}

impl View for PostProcessRequest {
    type V = RequestPlan;

    open spec fn view(&self) -> RequestPlan {
        match self {
            PostProcessRequest::Skip => RequestPlan::Skip,
            PostProcessRequest::AppleIntelligence { system_prompt, user_content, expects_json } =>
                RequestPlan::AppleIntelligence {
                system_prompt: system_prompt@,
                user_content: user_content@,
                expects_json: *expects_json,
            },
            PostProcessRequest::Structured {
                system_prompt,
                user_content,
                legacy_prompt,
                reasoning,
                legacy_expects_json,
            } => RequestPlan::Structured {
                system_prompt: system_prompt@,
                user_content: user_content@,
                legacy_prompt: legacy_prompt@,
                reasoning: *reasoning,
                legacy_expects_json: *legacy_expects_json,
            },
            PostProcessRequest::Legacy { prompt, reasoning, expects_json } => RequestPlan::Legacy {
                prompt: prompt@,
                reasoning: *reasoning,
                expects_json: *expects_json,
            },
        }
    }
}

/// Whether the settings leave post-processing with nothing to do: no
/// provider, a blank model, no selected prompt, a selected prompt that is
/// not saved, or a blank one.
pub open spec fn post_processing_skipped(s: PostProcessSettings) -> bool {
    ||| s.provider is None
    ||| is_blank(s.model@)
    ||| selected_prompt(s) is None
    ||| is_blank(selected_prompt(s)->0)
}

/// The plain-completion prompt for a transcription: the decision prompt when
/// a previous dictation is offered, else the template with the
/// transcription in place of `${output}`.
pub open spec fn plain_prompt_text(
    prompt: Seq<char>,
    transcription: Seq<char>,
    c: Option<ContextEntry>,
    context_prompt: Seq<char>,
) -> Seq<char> {
    match c {
        Some(c) => legacy_decision_text(prompt, transcription, c, context_prompt),
        None => legacy_prompt_text(prompt, transcription, None, context_prompt),
    }
}

/// The request for `transcription`, given the settings and the previous
/// dictation, if one is offered.
pub open spec fn planned_request(
    s: PostProcessSettings,
    transcription: Seq<char>,
    c: Option<ContextEntry>,
) -> RequestPlan {
    if post_processing_skipped(s) {
        RequestPlan::Skip
    } else {
        let provider = s.provider->0;
        let prompt = selected_prompt(s)->0;
        let context_prompt = context_instruction_text(
            s.context_prompt@,
            s.default_context_prompt@,
        );
        let reasoning = reasoning_for(provider.id@);
        let plain = plain_prompt_text(prompt, transcription, c, context_prompt);
        if provider.supports_structured_output {
            let system_prompt = if c is Some {
                contextual_system_text(prompt, context_prompt)
            } else {
                system_prompt_text(prompt)
            };
            let user_content = contextual_user_text(transcription, c);
            if provider.id@ == APPLE_INTELLIGENCE_PROVIDER_ID@ {
                match c {
                    Some(c) => RequestPlan::AppleIntelligence {
                        system_prompt: APPLE_JSON_SYSTEM_PROMPT@,
                        user_content: legacy_decision_text(
                            prompt,
                            transcription,
                            c,
                            context_prompt,
                        ),
                        expects_json: true,
                    },
                    None => RequestPlan::AppleIntelligence {
                        system_prompt,
                        user_content,
                        expects_json: false,
                    },
                }
            } else {
                RequestPlan::Structured {
                    system_prompt,
                    user_content,
                    legacy_prompt: plain,
                    reasoning,
                    legacy_expects_json: c is Some,
                }
            }
        } else {
            RequestPlan::Legacy { prompt: plain, reasoning, expects_json: c is Some }
        }
    }
}

fn plain_prompt(
    prompt: &str,
    transcription: &str,
    context: Option<&RecentPostProcessContext>,
    context_prompt: &str,
) -> (r: String)
    ensures
        r@ == plain_prompt_text(prompt@, transcription@, opt_context(context), context_prompt@),
{
    match context {
        Some(c) => build_legacy_context_decision_prompt(prompt, transcription, c, context_prompt),
        None => build_legacy_post_process_prompt(prompt, transcription, None, context_prompt),
    }
}

/// Decides what to ask the post-processing model about `transcription`,
/// offering the previous dictation as context when there is one.
pub fn plan_post_process(
    settings: &PostProcessSettings,
    transcription: &str,
    context: Option<&RecentPostProcessContext>,
) -> (r: PostProcessRequest)
    ensures
        r@ == planned_request(*settings, transcription@, opt_context(context)),
{
    let provider = match &settings.provider {
        Some(provider) => provider,
        None => return PostProcessRequest::Skip,
    };
    if is_blank_text(settings.model.as_str()) {
        return PostProcessRequest::Skip;
    }
    let prompt = match selected_prompt_text(settings) {
        Some(prompt) => prompt,
        None => return PostProcessRequest::Skip,
    };
    if is_blank_text(prompt.as_str()) {
        return PostProcessRequest::Skip;
    }
    let context_prompt = recent_context_instruction(
        settings.context_prompt.as_str(),
        settings.default_context_prompt.as_str(),
    );
    let reasoning = reasoning_override(provider.id.as_str());
    let has_context = context.is_some();
    if provider.supports_structured_output {
        let system_prompt = if has_context {
            build_contextual_system_prompt(prompt.as_str(), context_prompt.as_str())
        } else {
            build_system_prompt(prompt.as_str())
        };
        let user_content = build_contextual_user_content(transcription, context);
        if same_text(provider.id.as_str(), APPLE_INTELLIGENCE_PROVIDER_ID) {
            match context {
                Some(c) => {
                    let user_content = build_legacy_context_decision_prompt(
                        prompt.as_str(),
                        transcription,
                        c,
                        context_prompt.as_str(),
                    );
                    return PostProcessRequest::AppleIntelligence {
                        system_prompt: String::from_str(APPLE_JSON_SYSTEM_PROMPT),
                        user_content,
                        expects_json: true,
                    };
                },
                None => {
                    return PostProcessRequest::AppleIntelligence {
                        system_prompt,
                        user_content,
                        expects_json: false,
                    };
                },
            }
        }
        let legacy_prompt = plain_prompt(
            prompt.as_str(),
            transcription,
            context,
            context_prompt.as_str(),
        );
        PostProcessRequest::Structured {
            system_prompt,
            user_content,
            legacy_prompt,
            reasoning,
            legacy_expects_json: has_context,
        }
    } else {
        let prompt = plain_prompt(prompt.as_str(), transcription, context, context_prompt.as_str());
        PostProcessRequest::Legacy { prompt, reasoning, expects_json: has_context }
    }
}

// ---------------------------------------------------------------------------
// Interpreting the model's replies
// ---------------------------------------------------------------------------

/// A reply from the post-processing model.
pub enum LlmReply {
    /// The model answered with this content.
    Content(String),
    /// The request succeeded but the answer had no content.
    NoContent,
    /// The request failed.
    Failed,
}

/// The mathematical content of an [`LlmReply`].
pub enum ReplyView {
    Content(Seq<char>),
    NoContent,
    Failed,
}

impl View for LlmReply {
    type V = ReplyView;

    open spec fn view(&self) -> ReplyView {
        match self {
            LlmReply::Content(c) => ReplyView::Content(c@),
            LlmReply::NoContent => ReplyView::NoContent,
            LlmReply::Failed => ReplyView::Failed,
        }
    }
}

/// The result of a reply that should hold a JSON object: what it parses to,
/// or, when it does not parse, the reply itself to be inserted.
pub open spec fn parsed_or_inserted(content: Seq<char>) -> (Seq<char>, bool) {
    match parsed_reply(content) {
        Some(r) => r,
        None => (content, false),
    }
}

/// The result of a plain reply: its text without invisible characters,
/// parsed as JSON when a JSON answer was asked for.
pub open spec fn plain_reply_result(content: Seq<char>, expects_json: bool) -> (Seq<char>, bool) {
    let text = without_invisible(content);
    if expects_json {
        parsed_or_inserted(text)
    } else {
        (text, false)
    }
}

/// What becomes of a structured request.
pub enum StructuredOutcome {
    /// Post-processing is over, with this result.
    Finished(Option<PostProcessResult>),
    /// The structured request failed; the plain-completion prompt is tried.
    FallBackToPlain,
}

/// Interprets the reply to a structured request: a reply that parses gives
/// its result; one that does not is inserted as it is, without invisible
/// characters; an empty answer ends post-processing; a failure falls back to
/// a plain completion.
pub fn structured_reply_outcome(reply: LlmReply) -> (r: StructuredOutcome)
    ensures
        match reply@ {
            ReplyView::Content(c) => r matches StructuredOutcome::Finished(Some(p)) && p@ == match parsed_reply(c) {
                Some(parsed) => parsed,
                None => (without_invisible(c), false),
            },
            ReplyView::NoContent => r matches StructuredOutcome::Finished(None),
            ReplyView::Failed => r is FallBackToPlain,
        },
{
    match reply {
        LlmReply::Content(content) => match parse_post_process_json_result(content.as_str()) {
            Some(result) => StructuredOutcome::Finished(Some(result)),
            None => StructuredOutcome::Finished(
                Some(PostProcessResult::insert(strip_invisible_chars(content.as_str()))),
            ),
        },
        LlmReply::NoContent => StructuredOutcome::Finished(None),
        LlmReply::Failed => StructuredOutcome::FallBackToPlain,
    }
}

fn plain_result(content: &str, expects_json: bool) -> (r: PostProcessResult)
    ensures
        r@ == plain_reply_result(content@, expects_json),
{
    let text = strip_invisible_chars(content);
    if expects_json {
        match parse_post_process_json_result(text.as_str()) {
            Some(result) => result,
            None => PostProcessResult::insert(text),
        }
    } else {
        PostProcessResult::insert(text)
    }
}

/// Interprets the reply to a plain-completion request: its content, without
/// invisible characters, parsed as JSON when a JSON answer was asked for;
/// nothing when the answer is empty or the request failed.
pub fn plain_reply_outcome(reply: LlmReply, expects_json: bool) -> (r: Option<PostProcessResult>)
    ensures
        opt_result(r) == match reply@ {
            ReplyView::Content(c) => Some(plain_reply_result(c, expects_json)),
            _ => None,
        },
{
    match reply {
        LlmReply::Content(content) => Some(plain_result(content.as_str(), expects_json)),
        _ => None,
    }
}

/// Interprets the reply of Apple's on-device model: as a plain reply, except
/// that a blank answer gives nothing.
pub fn apple_reply_outcome(reply: LlmReply, expects_json: bool) -> (r: Option<PostProcessResult>)
    ensures
        opt_result(r) == match reply@ {
            ReplyView::Content(c) => if is_blank(c) {
                None
            } else {
                Some(plain_reply_result(c, expects_json))
            },
            _ => None,
        },
{
    match reply {
        LlmReply::Content(content) => {
            if is_blank_text(content.as_str()) {
                None
            } else {
                Some(plain_result(content.as_str(), expects_json))
            }
        },
        _ => None,
    }
}

// ---------------------------------------------------------------------------
// The processed transcription
// ---------------------------------------------------------------------------

/// The text to insert and what history keeps about it.
pub struct ProcessedTranscription {
    pub final_text: String,
    pub post_processed_text: Option<String>,
    pub post_process_prompt: Option<String>,
    pub replace_previous_char_count: Option<usize>,
}

/// Assembles the processed transcription from the recognised
/// `transcription`, its Chinese-variant conversion if one was made, and,
/// when post-processing was asked for, its result and the previous
/// dictation offered as context.
///
/// Post-processing that produced a result decides the final text; it
/// replaces the previous dictation only when it asks to and that dictation
/// inserted at least one character. Without post-processing, a converted text
/// that differs from the recognised one is kept as the post-processed text.
pub fn assemble_processed_transcription(
    transcription: &str,
    converted: Option<String>,
    post_process: bool,
    context: Option<&RecentPostProcessContext>,
    processed: Option<PostProcessResult>,
    settings: &PostProcessSettings,
) -> (r: ProcessedTranscription)
    ensures
        ({
            let start = match converted {
                Some(t) => t@,
                None => transcription@,
            };
            if post_process && processed is Some {
                let p = processed->0;
                &&& r.final_text@ == p.text@
                &&& opt_text(r.post_processed_text) == Some(p.text@)
                &&& opt_text(r.post_process_prompt) == selected_prompt(*settings)
                &&& r.replace_previous_char_count == match context {
                    Some(c) => if c.inserted_char_count > 0 && p.replace_previous {
                        Some(c.inserted_char_count)
                    } else {
                        None::<usize>
                    },
                    None => None,
                }
            } else if post_process {
                &&& r.final_text@ == start
                &&& r.post_processed_text is None
                &&& r.post_process_prompt is None
                &&& r.replace_previous_char_count is None
            } else {
                &&& r.final_text@ == start
                &&& opt_text(r.post_processed_text) == if start != transcription@ {
                    Some(start)
                } else {
                    None
                }
                &&& r.post_process_prompt is None
                &&& r.replace_previous_char_count is None
            }
        }),
{
    let final_text = match converted {
        Some(t) => t,
        None => String::from_str(transcription),
    };
    if post_process {
        match processed {
            Some(p) => {
                let replace_previous_char_count = match context {
                    Some(c) => if c.inserted_char_count > 0 && p.replace_previous {
                        Some(c.inserted_char_count)
                    } else {
                        None
                    },
                    None => None,
                };
                ProcessedTranscription {
                    final_text: p.text.clone(),
                    post_processed_text: Some(p.text),
                    post_process_prompt: selected_prompt_text(settings),
                    replace_previous_char_count,
                }
            },
            None => ProcessedTranscription {
                final_text,
                post_processed_text: None,
                post_process_prompt: None,
                replace_previous_char_count: None,
            },
        }
    } else {
        let post_processed_text = if same_text(final_text.as_str(), transcription) {
            None
        } else {
            Some(final_text.clone())
        };
        ProcessedTranscription {
            final_text,
            post_processed_text,
            post_process_prompt: None,
            replace_previous_char_count: None,
        }
    }
}

/// How the processed transcription reaches the input field.
pub enum InsertionStep {
    /// Nothing to insert.
    Nothing,
    /// Paste the text after the cursor.
    Paste { text: String },
    /// Delete the previous dictation's characters, then paste the text.
    ReplacePrevious { previous_char_count: usize, text: String },
}

/// Decides how the processed transcription is inserted: an empty final text
/// inserts nothing; otherwise it replaces the previous dictation when
/// post-processing asked for that, and is pasted after it when not.
pub fn insertion_step(processed: ProcessedTranscription) -> (r: InsertionStep)
    ensures
        processed.final_text@.len() == 0 ==> r is Nothing,
        processed.final_text@.len() > 0 ==> match processed.replace_previous_char_count {
            Some(n) => r matches InsertionStep::ReplacePrevious { previous_char_count, text } && previous_char_count == n && text@ == processed.final_text@,
            None => r matches InsertionStep::Paste { text } && text@ == processed.final_text@,
        },
{
    if processed.final_text.as_str().is_empty() {
        return InsertionStep::Nothing;
    }
    match processed.replace_previous_char_count {
        Some(n) => InsertionStep::ReplacePrevious { previous_char_count: n, text: processed.final_text },
        None => InsertionStep::Paste { text: processed.final_text },
    }
}

/// A history entry: the recording's file name, the recognised text, whether
/// post-processing was asked for, and what it produced with which prompt.
pub struct HistoryEntry {
    pub file_name: String,
    pub transcription_text: String,
    pub post_processed: bool,
    pub post_processed_text: Option<String>,
    pub post_process_prompt: Option<String>,
}

/// The history entry to save once a recording has been transcribed, or has
/// failed to be (`transcription` is `None`). Nothing is saved unless the
/// recording itself was saved; a failed transcription is saved with empty
/// text and no post-processing result, so that it can be retried.
pub fn history_entry(
    file_name: String,
    wav_saved: bool,
    transcription: Option<String>,
    post_process: bool,
    post_processed_text: Option<String>,
    post_process_prompt: Option<String>,
) -> (r: Option<HistoryEntry>)
    ensures
        r is Some <==> wav_saved,
        r matches Some(e) ==> {
            &&& e.file_name@ == file_name@
            &&& e.post_processed == post_process
            &&& match transcription {
                Some(t) => {
                    &&& e.transcription_text@ == t@
                    &&& opt_text(e.post_processed_text) == opt_text(post_processed_text)
                    &&& opt_text(e.post_process_prompt) == opt_text(post_process_prompt)
                },
                None => {
                    &&& e.transcription_text@.len() == 0
                    &&& e.post_processed_text is None
                    &&& e.post_process_prompt is None
                },
            }
        },
{
    if !wav_saved {
        return None;
    }
    match transcription {
        Some(t) => Some(
            HistoryEntry {
                file_name,
                transcription_text: t,
                post_processed: post_process,
                post_processed_text,
                post_process_prompt,
            },
        ),
        None => Some(
            HistoryEntry {
                file_name,
                transcription_text: String::new(),
                post_processed: post_process,
                post_processed_text: None,
                post_process_prompt: None,
            },
        ),
    }
}

/// Why recording could not start.
#[derive(Clone, Copy, PartialEq, Eq, Structural, Debug)]
pub enum RecordingErrorKind {
    MicrophonePermissionDenied,
    NoInputDevice,
    Unknown,
}

/// Classifies a recording failure: a denied microphone permission comes
/// first, then a missing input device.
pub fn recording_error_kind(permission_denied: bool, no_input_device: bool) -> (r:
    RecordingErrorKind)
    ensures
        r == if permission_denied {
            RecordingErrorKind::MicrophonePermissionDenied
        } else if no_input_device {
            RecordingErrorKind::NoInputDevice
        } else {
            RecordingErrorKind::Unknown
        },
{
    if permission_denied {
        RecordingErrorKind::MicrophonePermissionDenied
    } else if no_input_device {
        RecordingErrorKind::NoInputDevice
    } else {
        RecordingErrorKind::Unknown
    }
}

impl RecordingErrorKind {
    /// The name under which the failure is reported to the interface.
    pub fn error_type(&self) -> (r: &'static str)
        ensures
            r@ == match *self {
                RecordingErrorKind::MicrophonePermissionDenied => "microphone_permission_denied"@,
                RecordingErrorKind::NoInputDevice => "no_input_device"@,
                RecordingErrorKind::Unknown => "unknown"@,
            },
    {
        match self {
            RecordingErrorKind::MicrophonePermissionDenied => "microphone_permission_denied",
            RecordingErrorKind::NoInputDevice => "no_input_device",
            RecordingErrorKind::Unknown => "unknown",
        }
    }
}

// ---------------------------------------------------------------------------
// Simplified and Traditional Chinese
// ---------------------------------------------------------------------------

#[verifier::external_type_specification]
#[verifier::external_body]
pub struct ExOpenCC(ferrous_opencc::OpenCC);

#[verifier::external_type_specification]
#[verifier::external_body]
pub struct ExOpenCCError(ferrous_opencc::error::OpenCCError);

/// The Chinese script that a transcription is converted to.
#[derive(Clone, Copy, PartialEq, Eq, Structural, Debug)]
pub enum ChineseScript {
    /// Simplified Chinese, from Taiwan-style Traditional Chinese with phrases
    /// (OpenCC's `tw2sp` configuration).
    Simplified,
    /// Taiwan-style Traditional Chinese, from Simplified Chinese (OpenCC's
    /// `s2tw` configuration).
    Traditional,
}

/// The script that the selected language asks for: `zh-Hans` is Simplified
/// and `zh-Hant` Traditional Chinese; other languages ask for none.
pub open spec fn script_for_language(language: Seq<char>) -> Option<ChineseScript> {
    if language == "zh-Hans"@ {
        Some(ChineseScript::Simplified)
    } else if language == "zh-Hant"@ {
        Some(ChineseScript::Traditional)
    } else {
        None
    }
}

/// An OpenCC converter together with the script it converts to.
pub struct ChineseConverter {
    script: ChineseScript,
    converter: ferrous_opencc::OpenCC,
}

impl ChineseConverter {
    /// The script this converter converts to.
    pub closed spec fn target(&self) -> ChineseScript {
        self.script
    }
}

/// Whether OpenCC's built-in configuration loads: `tw2sp` when `simplified`,
/// else `s2tw`.
pub uninterp spec fn opencc_config_loads(simplified: bool) -> bool;

/// The text that OpenCC's built-in configuration (`tw2sp` when `simplified`,
/// else `s2tw`) makes of `text`.
pub uninterp spec fn opencc_converted(simplified: bool, text: Seq<char>) -> Seq<char>;

/// Whether `script` is Simplified Chinese.
pub open spec fn is_simplified(script: ChineseScript) -> bool {
    script == ChineseScript::Simplified
}

/// Calls `ferrous_opencc::OpenCC::from_config` with the built-in
/// configuration for `script` (`Tw2sp` for Simplified, `S2tw` for
/// Traditional).
///
/// The built-in configurations are embedded in the crate, so whether loading
/// succeeds depends on `script` alone; the contract names that outcome
/// (`opencc_config_loads`) and does not say which way it goes.
#[verifier::external_body]
fn load_chinese_converter(script: ChineseScript) -> (r: Result<
    ChineseConverter,
    ferrous_opencc::error::OpenCCError,
>)
    ensures
        r is Ok <==> opencc_config_loads(is_simplified(script)),
        r matches Ok(c) ==> c.target() == script,
{
    let config = match script {
        ChineseScript::Simplified => ferrous_opencc::config::BuiltinConfig::Tw2sp,
        ChineseScript::Traditional => ferrous_opencc::config::BuiltinConfig::S2tw,
    };
    match ferrous_opencc::OpenCC::from_config(config) {
        Ok(converter) => Ok(ChineseConverter { script, converter }),
        Err(err) => Err(err),
    }
}

/// Calls `ferrous_opencc::OpenCC::convert`, which rewrites `text` through
/// the dictionaries of the converter's configuration; the contract names the
/// result (`opencc_converted`) as a function of that configuration and the
/// text.
#[verifier::external_body]
fn convert_chinese(converter: &ChineseConverter, text: &str) -> (r: String)
    ensures
        r@ == opencc_converted(is_simplified(converter.target()), text@),
{
    converter.converter.convert(text)
}

/// The script that the selected language asks for.
pub fn chinese_script_for(selected_language: &str) -> (r: Option<ChineseScript>)
    ensures
        r == script_for_language(selected_language@),
{
    if same_text(selected_language, "zh-Hans") {
        Some(ChineseScript::Simplified)
    } else if same_text(selected_language, "zh-Hant") {
        Some(ChineseScript::Traditional)
    } else {
        None
    }
}

/// Converts the transcription to the Chinese script of the selected
/// language: nothing for other languages, nor when the converter fails to
/// load.
pub fn maybe_convert_chinese_variant(selected_language: &str, transcription: &str) -> (r: Option<
    String,
>)
    ensures
        opt_text(r) == match script_for_language(selected_language@) {
            Some(script) => if opencc_config_loads(is_simplified(script)) {
                Some(opencc_converted(is_simplified(script), transcription@))
            } else {
                None
            },
            None => None,
        },
{
    let script = match chinese_script_for(selected_language) {
        Some(script) => script,
        None => return None,
    };
    match load_chinese_converter(script) {
        Ok(converter) => Some(convert_chinese(&converter, transcription)),
        Err(_) => None,
    }
}

// ---------------------------------------------------------------------------
// Laws
// ---------------------------------------------------------------------------

/// Whether `s` holds no invisible character.
pub open spec fn free_of_invisible(s: Seq<char>) -> bool {
    forall|i: int| 0 <= i < s.len() ==> !is_invisible(#[trigger] s[i])
}

/// Stripping leaves no invisible character behind.
pub proof fn law_stripped_text_has_no_invisible_chars(s: Seq<char>)
    ensures
        free_of_invisible(without_invisible(s)),
    decreases s.len(),
{
    if s.len() > 0 {
        law_stripped_text_has_no_invisible_chars(s.drop_last());
    }
}

/// No post-processing result carries an invisible character: not one parsed
/// from JSON, not a plain reply, not a structured reply inserted as it is.
pub proof fn law_results_have_no_invisible_chars(content: Seq<char>, expects_json: bool)
    ensures
        parsed_reply(content) matches Some(r) ==> free_of_invisible(r.0),
        free_of_invisible(plain_reply_result(content, expects_json).0),
        free_of_invisible(
            match parsed_reply(content) {
                Some(r) => r.0,
                None => without_invisible(content),
            },
        ),
{
    law_stripped_text_has_no_invisible_chars(content);
    let document = json_candidate_text(content);
    if let Some(t) = json_string_member(document, "transcription"@) {
        law_stripped_text_has_no_invisible_chars(t);
    }
    let stripped = without_invisible(content);
    let inner = json_candidate_text(stripped);
    if let Some(t) = json_string_member(inner, "transcription"@) {
        law_stripped_text_has_no_invisible_chars(t);
    }
}

/// The system prompt used with a previous dictation begins with the context
/// instruction and, when the selected template has cleanup rules, carries
/// them whole, followed by the demand for the JSON object.
pub proof fn law_contextual_system_prompt_keeps_cleanup_rules(
    prompt: Seq<char>,
    context_prompt: Seq<char>,
)
    ensures
        ({
            let r = contextual_system_text(prompt, context_prompt);
            let cleanup = system_prompt_text(prompt);
            let head = "\n\nCleanup rules for the `transcription` value only:\n"@;
            let tail = "\n\nIf the cleanup rules ask for plain text, treat that as applying inside the JSON `transcription` value. Always return the required JSON object."@;
            &&& r.len() >= context_prompt.len()
            &&& r.subrange(0, context_prompt.len() as int) == context_prompt
            &&& cleanup.len() > 0 ==> {
                let at: int = context_prompt.len() + head.len() as int;
                &&& r.len() == at + cleanup.len() + tail.len()
                &&& r.subrange(at, at + cleanup.len()) == cleanup
                &&& r.subrange(at + cleanup.len(), r.len() as int) == tail
            }
        }),
{
    let r = contextual_system_text(prompt, context_prompt);
    let cleanup = system_prompt_text(prompt);
    let head = "\n\nCleanup rules for the `transcription` value only:\n"@;
    let tail = "\n\nIf the cleanup rules ask for plain text, treat that as applying inside the JSON `transcription` value. Always return the required JSON object."@;
    if cleanup.len() == 0 {
        assert(r.subrange(0, context_prompt.len() as int) =~= context_prompt);
    } else {
        let at: int = context_prompt.len() + head.len() as int;
        assert(r =~= context_prompt + head + cleanup + tail);
        assert(r.subrange(0, context_prompt.len() as int) =~= context_prompt);
        assert(r.subrange(at, at + cleanup.len()) =~= cleanup);
        assert(r.subrange(at + cleanup.len(), r.len() as int) =~= tail);
    }
}

proof fn lemma_first_index_at_start(s: Seq<char>, c: char)
    requires
        s.len() > 0,
        s[0] == c,
    ensures
        first_index_of(s, c) == Some(0int),
{
    let k = choose|k: int| 0 <= k < s.len() && s[k] == c && forall|j: int| 0 <= j < k ==> s[j] != c;
    assert(0 <= 0 < s.len() && s[0] == c && forall|j: int| 0 <= j < 0 ==> s[j] != c);
    if k > 0 {
        assert(s[0] != c);
    }
}

proof fn lemma_last_index_at_end(s: Seq<char>, c: char)
    requires
        s.len() > 0,
        s.last() == c,
    ensures
        last_index_of(s, c) == Some(s.len() - 1),
{
    let n = s.len() - 1;
    let k = choose|k: int|
        0 <= k < s.len() && s[k] == c && forall|m: int| k < m < s.len() ==> s[m] != c;
    assert(0 <= n < s.len() && s[n] == c && forall|m: int| n < m < s.len() ==> s[m] != c);
    if k < n {
        assert(s[n] != c);
    }
}

/// The cut from the first `{` to the last `}` of a trimmed reply is its own
/// candidate.
proof fn lemma_cut_is_own_candidate(t: Seq<char>, start: int, end: int)
    requires
        first_index_of(t, '{') == Some(start),
        last_index_of(t, '}') == Some(end),
        start <= end,
    ensures
        json_candidate_text(t.subrange(start, end + 1)) == t.subrange(start, end + 1),
{
    crate::text::lemma_first_index_found(t, '{');
    crate::text::lemma_last_index_found(t, '}');
    assert(0 <= start < t.len() && t[start] == '{');
    assert(0 <= end < t.len() && t[end] == '}');
    let cut = t.subrange(start, end + 1);
    assert(cut[0] == '{');
    assert(cut.last() == '}');
    reveal_white_space_braces();
    crate::text::lemma_trim_of_unpadded(cut);
    lemma_first_index_at_start(cut, '{');
    lemma_last_index_at_end(cut, '}');
    assert(cut.subrange(0, cut.len() as int) =~= cut);
}

/// Cutting the JSON object out of a reply a second time changes nothing.
pub proof fn law_json_candidate_is_idempotent(content: Seq<char>)
    ensures
        json_candidate_text(json_candidate_text(content)) == json_candidate_text(content),
{
    let t = trim(content);
    crate::text::lemma_trim_idempotent(content);
    let first = first_index_of(t, '{');
    let last = last_index_of(t, '}');
    if first is Some && last is Some && first->0 <= last->0 {
        lemma_cut_is_own_candidate(t, first->0, last->0);
    } else {
        assert(json_candidate_text(content) == t);
        assert(trim(t) == t);
    }
}

proof fn reveal_white_space_braces()
    ensures
        !crate::text::is_white_space('{'),
        !crate::text::is_white_space('}'),
{
}

/// A reply and the JSON object cut out of it parse alike: the transcription
/// and the operation are both read from that object.
pub proof fn law_reply_parses_like_its_json_object(content: Seq<char>)
    ensures
        parsed_reply(content) == parsed_reply(json_candidate_text(content)),
{
    law_json_candidate_is_idempotent(content);
}

/// A reply parses exactly when the JSON object cut out of it has a string
/// `transcription`; the result is that text without invisible characters,
/// and it replaces the previous dictation exactly when the same object's
/// `operation` is `replace_previous`.
pub proof fn law_reply_fields_come_from_json_object(content: Seq<char>)
    ensures
        ({
            let object = json_candidate_text(content);
            let transcription = json_string_member(object, "transcription"@);
            let operation = json_string_member(object, "operation"@);
            &&& parsed_reply(content) is Some <==> transcription is Some
            &&& parsed_reply(content) matches Some((text, replace)) ==> {
                &&& text == without_invisible(transcription->0)
                &&& replace == (operation == Some("replace_previous"@))
            }
        }),
{
}

/// Whether `p` is a prompt that asks the model to decide about
/// `transcription` given the previous dictation `c`: it opens with the
/// context `instruction`, carries the template's cleanup rules whole (when it
/// has any) before the previous dictation, and closes with the previous
/// dictation followed by the new transcription.
pub open spec fn carries_decision_parts(
    p: Seq<char>,
    template: Seq<char>,
    transcription: Seq<char>,
    c: ContextEntry,
    instruction: Seq<char>,
) -> bool {
    let cleanup = system_prompt_text(template);
    let closing = "\n\n"@ + recent_block(c) + "\n\nC:\n"@ + transcription;
    &&& p.len() >= instruction.len() + closing.len()
    &&& p.subrange(0, instruction.len() as int) == instruction
    &&& p.subrange(p.len() - closing.len(), p.len() as int) == closing
    &&& cleanup.len() > 0 ==> exists|i: int|
        instruction.len() <= i && i + cleanup.len() <= p.len() - closing.len() && #[trigger] p.subrange(
            i,
            i + cleanup.len(),
        ) == cleanup
}

proof fn lemma_decision_prompt_parts(
    template: Seq<char>,
    transcription: Seq<char>,
    c: ContextEntry,
    instruction: Seq<char>,
)
    ensures
        carries_decision_parts(
            legacy_decision_text(template, transcription, c, instruction),
            template,
            transcription,
            c,
            instruction,
        ),
{
    let p = legacy_decision_text(template, transcription, c, instruction);
    let cleanup = system_prompt_text(template);
    let closing = "\n\n"@ + recent_block(c) + "\n\nC:\n"@ + transcription;
    let head = "\n\nCleanup rules for the `transcription` value only:\n"@;
    let tail = "\n\nIf the cleanup rules ask for plain text, treat that as applying inside the JSON `transcription` value. Always return the required JSON object."@;
    if cleanup.len() == 0 {
        assert(p =~= instruction + closing);
    } else {
        assert(p =~= instruction + head + cleanup + tail + closing);
        let i: int = (instruction.len() + head.len()) as int;
        assert(p.subrange(i, i + cleanup.len()) =~= cleanup);
    }
    assert(p.subrange(0, instruction.len() as int) =~= instruction);
    assert(p.subrange(p.len() - closing.len(), p.len() as int) =~= closing);
}

/// With a previous dictation, every prompt that asks the model to decide
/// between inserting and replacing (the plain-completion prompt, the
/// fallback of a structured request, and the request to Apple's on-device
/// model) opens with the context instruction, keeps the selected template's
/// cleanup rules, and closes with the previous dictation and the new
/// transcription.
pub proof fn law_decision_prompts_keep_cleanup_rules(
    s: PostProcessSettings,
    transcription: Seq<char>,
    c: ContextEntry,
)
    ensures
        ({
            let template = selected_prompt(s)->0;
            let instruction = context_instruction_text(
                s.context_prompt@,
                s.default_context_prompt@,
            );
            &&& planned_request(s, transcription, Some(c)) matches RequestPlan::Legacy {
                prompt,
                ..
            } ==> carries_decision_parts(prompt, template, transcription, c, instruction)
            &&& planned_request(s, transcription, Some(c)) matches RequestPlan::Structured {
                legacy_prompt,
                ..
            } ==> carries_decision_parts(legacy_prompt, template, transcription, c, instruction)
            &&& planned_request(s, transcription, Some(c)) matches RequestPlan::AppleIntelligence {
                user_content,
                ..
            } ==> carries_decision_parts(user_content, template, transcription, c, instruction)
        }),
{
    let template = selected_prompt(s)->0;
    let instruction = context_instruction_text(s.context_prompt@, s.default_context_prompt@);
    lemma_decision_prompt_parts(template, transcription, c, instruction);
}

} // verus!
