//! Self-healing: what is asked of a provider when a translation or an
//! execution has failed, and the machine that decides how often.

use crate::compiler::{
    CompileError, CompileRequest, CompileRequestView, Compiler, SourceKind, SourceKindView,
};
use crate::clients::missing_key;
use crate::paths::{is_healable, is_self_heal_supported_source};
use crate::provider::ProviderSelection;
use crate::session::{sanitize_repl_javascript, sanitized};
use crate::text::{
    chars_of, contains, decimal, decimal_text, is_blank, lemma_trimmed_empty, lines, occurs_at,
    parse_number, parsed_number, push_all, push_str, split_lines, string_of, text_contains, texts,
    trim, trimmed,
};
use vstd::prelude::*;

verus! {

// ---------------------------------------------------------------------------
// The budget
// ---------------------------------------------------------------------------

/// Whether another repair may be asked for after `attempt` of them: always
/// where there is no limit, and else while the limit is not reached.
pub open spec fn budget_remains(attempt: nat, limit: Option<nat>) -> bool {
    match limit {
        Some(max) => attempt < max,
        None => true,
    }
}

/// A limit as a natural number.
pub open spec fn limit_view(limit: Option<usize>) -> Option<nat> {
    match limit {
        Some(max) => Some(max as nat),
        None => None,
    }
}

/// Whether another repair may be asked for after `attempt` of them.
pub fn can_continue_self_heal(attempt: usize, limit: Option<usize>) -> (r: bool)
    ensures
        r == budget_remains(attempt as nat, limit_view(limit)),
{
    match limit {
        Some(max) => attempt < max,
        None => true,
    }
}

/// The limit that a setting stands for: a number above zero is the
/// limit; zero, no setting and anything that is no number mean no limit.
pub open spec fn limit_of_setting(raw: Option<Seq<char>>) -> Option<nat> {
    match raw {
        None => None,
        Some(text) => match parsed_number(trimmed(text), usize::MAX as nat) {
            Some(n) => if n == 0 {
                None
            } else {
                Some(n)
            },
            None => None,
        },
    }
}

/// Reads the limit of an interactive session from its setting.
pub fn parse_self_heal_limit(raw: Option<&str>) -> (limit: Option<usize>)
    ensures
        limit_view(limit) == limit_of_setting(raw.deep_view()),
{
    match raw {
        None => None,
        Some(text) => {
            let t = trim(&chars_of(text));
            match parse_number(&t, usize::MAX) {
                Some(n) => if n == 0 {
                    None
                } else {
                    Some(n)
                },
                None => None,
            }
        },
    }
}

/// Whether an error of a repair shows that no further repair can help:
/// the credential is missing, or no provider can be reached or is known.
pub open spec fn is_non_recoverable(error_text: Seq<char>) -> bool {
    contains(error_text, "OPENAI_API_KEY"@) || contains(error_text, "llm unavailable"@) || contains(
        error_text,
        "unknown provider"@,
    )
}

/// Whether an error of a repair shows that no further repair can help.
pub fn is_non_recoverable_self_heal_error(error_text: &str) -> (r: bool)
    ensures
        r == is_non_recoverable(error_text@),
{
    let text = chars_of(error_text);
    text_contains(&text, "OPENAI_API_KEY") || text_contains(&text, "llm unavailable")
        || text_contains(&text, "unknown provider")
}

// ---------------------------------------------------------------------------
// Diagnosis
// ---------------------------------------------------------------------------

/// Where a failure happened.
#[derive(Debug, Clone, Copy, PartialEq, Eq, Structural)]
pub enum FailureStage {
    /// No JavaScript was produced.
    Translation,
    /// JavaScript was produced and did not run.
    Execution,
}

/// The stage as it is named in a repair prompt.
pub open spec fn stage_text(stage: FailureStage) -> Seq<char> {
    match stage {
        FailureStage::Translation => "translation/compile before execution"@,
        FailureStage::Execution => "runtime execution after JS generation"@,
    }
}

impl FailureStage {
    /// The stage as it is named in a repair prompt.
    pub fn describe(&self) -> (r: &'static str)
        ensures
            r@ == stage_text(*self),
    {
        match self {
            FailureStage::Translation => "translation/compile before execution",
            FailureStage::Execution => "runtime execution after JS generation",
        }
    }
}

/// The first of the lines from `from` on that is not blank, trimmed.
pub open spec fn first_nonblank(all: Seq<Seq<char>>, from: int) -> Option<Seq<char>>
    decreases all.len() - from,
{
    if from < 0 || from >= all.len() {
        None
    } else if trimmed(all[from]).len() > 0 {
        Some(trimmed(all[from]))
    } else {
        first_nonblank(all, from + 1)
    }
}

/// The one-line summary of an error: its first line that is not blank.
pub open spec fn error_summary(error_text: Seq<char>) -> Seq<char> {
    match first_nonblank(lines(error_text), 0) {
        Some(line) => line,
        None => "unknown error"@,
    }
}

/// The one-line summary of an error.
pub fn summarize_error(error_text: &str) -> (r: String)
    ensures
        r@ == error_summary(error_text@),
{
    let all = split_lines(&chars_of(error_text));
    let mut i: usize = 0;
    while i < all.len()
        invariant
            i <= all.len(),
            texts(all@) == lines(error_text@),
            first_nonblank(lines(error_text@), 0) == first_nonblank(lines(error_text@), i as int),
        decreases all.len() - i,
    {
        assert(texts(all@)[i as int] == all@[i as int]@);
        let line = trim(&all[i]);
        if line.len() > 0 {
            return string_of(&line);
        }
        i += 1;
    }
    "unknown error".to_string()
}

/// What an error probably comes from, told from the words in it.  This
/// is advice for the provider; nothing is decided by it.
pub open spec fn probable_cause(error_text: Seq<char>) -> Seq<char> {
    if contains(error_text, "ReferenceError"@) {
        "Undefined variable or symbol usage."@
    } else if contains(error_text, "TypeError"@) {
        "Invalid operation on value type (often null/undefined access)."@
    } else if contains(error_text, "SyntaxError"@) {
        "Generated JS contains invalid syntax."@
    } else if contains(error_text, "failed evaluating"@) {
        "Runtime engine rejected or failed while evaluating the generated script."@
    } else if contains(error_text, "OPENAI_API_KEY"@) || contains(error_text, "llm unavailable"@) {
        "Provider/config issue prevented translation."@
    } else {
        "General execution/translation failure; inspect exact error text."@
    }
}

/// The probable cause of an error.
pub fn diagnose(error_text: &str) -> (r: &'static str)
    ensures
        r@ == probable_cause(error_text@),
{
    let text = chars_of(error_text);
    if text_contains(&text, "ReferenceError") {
        "Undefined variable or symbol usage."
    } else if text_contains(&text, "TypeError") {
        "Invalid operation on value type (often null/undefined access)."
    } else if text_contains(&text, "SyntaxError") {
        "Generated JS contains invalid syntax."
    } else if text_contains(&text, "failed evaluating") {
        "Runtime engine rejected or failed while evaluating the generated script."
    } else if text_contains(&text, "OPENAI_API_KEY") || text_contains(&text, "llm unavailable") {
        "Provider/config issue prevented translation."
    } else {
        "General execution/translation failure; inspect exact error text."
    }
}

// ---------------------------------------------------------------------------
// Repair prompts
// ---------------------------------------------------------------------------

/// The stage of a failure, told from whether JavaScript was produced.
pub open spec fn stage_of(generated_js: Option<Seq<char>>) -> FailureStage {
    match generated_js {
        Some(_) => FailureStage::Execution,
        None => FailureStage::Translation,
    }
}

/// The part of a repair prompt that shows the JavaScript that failed.
pub open spec fn failed_javascript_section(generated_js: Option<Seq<char>>) -> Seq<char> {
    match generated_js {
        Some(js) => "FAILED JAVASCRIPT:\n"@ + js + "\n\n"@,
        None => "FAILED JAVASCRIPT:\n<none produced before failure>\n\n"@,
    }
}

/// The prompt that asks a provider to repair a failed attempt of an
/// interactive session.  It names the attempt, counted from one, the
/// stage of the failure, a summary and the probable cause of the error,
/// and shows the user's input, the JavaScript that failed and the whole
/// error.
pub open spec fn repl_heal_prompt(
    user_prompt: Seq<char>,
    generated_js: Option<Seq<char>>,
    error_text: Seq<char>,
    attempt: nat,
) -> Seq<char> {
    "You are repairing a failed Klumo REPL attempt.\nGoal: produce JavaScript that runs successfully in the current REPL session.\nReturn ONLY runnable JavaScript script statements. No markdown, no prose, no import/export.\nKeep user intent and behavior as close as possible.\n\nFAILURE REPORT\n- Attempt number: "@
        + decimal(attempt + 1) + "\n- Failure stage: "@ + stage_text(stage_of(generated_js))
        + "\n- Error summary: "@ + error_summary(error_text) + "\n- Probable cause: "@
        + probable_cause(error_text) + "\n\nUSER PROMPT:\n"@ + user_prompt + "\n\n"@
        + failed_javascript_section(generated_js) + "FULL ERROR OUTPUT:\n"@ + error_text
        + "\n\nREPAIR REQUIREMENTS\n1. Fix the direct cause of the error.\n2. Keep side effects minimal and preserve existing REPL bindings when possible.\n3. Output only executable script statements.\n"@
}

/// Builds the repair prompt of an interactive session for the attempt
/// with the index `attempt`, counted from zero.
pub fn build_repl_self_heal_request(
    user_prompt: &str,
    generated_js: Option<&str>,
    error_text: &str,
    attempt: usize,
) -> (r: String)
    requires
        attempt < usize::MAX,
    ensures
        r@ == repl_heal_prompt(user_prompt@, generated_js.deep_view(), error_text@, attempt as nat),
{
    let stage = match generated_js {
        Some(_) => FailureStage::Execution,
        None => FailureStage::Translation,
    };
    let mut out: Vec<char> = Vec::new();
    push_str(
        &mut out,
        "You are repairing a failed Klumo REPL attempt.\nGoal: produce JavaScript that runs successfully in the current REPL session.\nReturn ONLY runnable JavaScript script statements. No markdown, no prose, no import/export.\nKeep user intent and behavior as close as possible.\n\nFAILURE REPORT\n- Attempt number: ",
    );
    push_all(&mut out, &decimal_text(attempt + 1));
    push_str(&mut out, "\n- Failure stage: ");
    push_str(&mut out, stage.describe());
    push_str(&mut out, "\n- Error summary: ");
    push_str(&mut out, summarize_error(error_text).as_str());
    push_str(&mut out, "\n- Probable cause: ");
    push_str(&mut out, diagnose(error_text));
    push_str(&mut out, "\n\nUSER PROMPT:\n");
    push_str(&mut out, user_prompt);
    push_str(&mut out, "\n\n");
    match generated_js {
        Some(js) => {
            push_str(&mut out, "FAILED JAVASCRIPT:\n");
            push_str(&mut out, js);
            push_str(&mut out, "\n\n");
        },
        None => {
            push_str(&mut out, "FAILED JAVASCRIPT:\n<none produced before failure>\n\n");
        },
    }
    push_str(&mut out, "FULL ERROR OUTPUT:\n");
    push_str(&mut out, error_text);
    push_str(
        &mut out,
        "\n\nREPAIR REQUIREMENTS\n1. Fix the direct cause of the error.\n2. Keep side effects minimal and preserve existing REPL bindings when possible.\n3. Output only executable script statements.\n",
    );
    assert(out@ =~= repl_heal_prompt(
        user_prompt@,
        generated_js.deep_view(),
        error_text@,
        attempt as nat,
    ));
    string_of(&out)
}

/// The prompt that asks a provider to repair a whole file.  The provider
/// is asked for the complete file, not for a patch.
pub open spec fn file_heal_prompt(path: Seq<char>, source: Seq<char>, error_text: Seq<char>) -> Seq<
    char,
> {
    "Repair this JavaScript file so it runs successfully.\nReturn ONLY complete JavaScript source for the full file, no markdown, no prose.\nPreserve behavior and structure as much as possible.\nFile: "@
        + path + "\nRuntime error:\n"@ + error_text + "\nSOURCE START\n"@ + source
        + "\nSOURCE END"@
}

/// Builds the repair prompt of a whole file.
pub fn build_self_heal_request(path: &str, source: &str, error_text: &str) -> (r: String)
    ensures
        r@ == file_heal_prompt(path@, source@, error_text@),
{
    let mut out: Vec<char> = Vec::new();
    push_str(
        &mut out,
        "Repair this JavaScript file so it runs successfully.\nReturn ONLY complete JavaScript source for the full file, no markdown, no prose.\nPreserve behavior and structure as much as possible.\nFile: ",
    );
    push_str(&mut out, path);
    push_str(&mut out, "\nRuntime error:\n");
    push_str(&mut out, error_text);
    push_str(&mut out, "\nSOURCE START\n");
    push_str(&mut out, source);
    push_str(&mut out, "\nSOURCE END");
    assert(out@ =~= file_heal_prompt(path@, source@, error_text@));
    string_of(&out)
}

// ---------------------------------------------------------------------------
// Repair requests
// ---------------------------------------------------------------------------

/// Why a repair came to nothing.
#[derive(Debug, Clone, PartialEq, Eq)]
pub enum HealError {
    /// The compile of the repair prompt failed.
    Compile(CompileError),
    /// The repaired snippet was empty once its module syntax was removed.
    EmptySnippet,
    /// The repaired file was empty.
    EmptyFile,
}

impl HealError {
    /// What this error says.
    pub open spec fn message_spec(self) -> Seq<char> {
        match self {
            HealError::Compile(e) => e.message_spec(),
            HealError::EmptySnippet => "self-heal generated empty JavaScript after module-syntax cleanup"@,
            HealError::EmptyFile => "self-heal generated empty output"@,
        }
    }

    /// What this error says.
    pub fn message(&self) -> (r: String)
        ensures
            r@ == self.message_spec(),
    {
        match self {
            HealError::Compile(e) => e.message(),
            HealError::EmptySnippet => "self-heal generated empty JavaScript after module-syntax cleanup".to_string(),
            HealError::EmptyFile => "self-heal generated empty output".to_string(),
        }
    }
}

/// The request that compiles a repair prompt of an interactive session.
/// It is forced to a provider, goes around the cache, and carries an
/// identifier of its own for each attempt.
pub open spec fn repl_heal_request_spec(
    repl_lang: Seq<char>,
    provider_selection: ProviderSelection,
    model_override: Option<Seq<char>>,
    scope_context: Option<Seq<char>>,
    heal_prompt: Seq<char>,
    attempt: nat,
) -> CompileRequestView {
    CompileRequestView {
        source_text: heal_prompt,
        source_id: "<repl-self-heal-"@ + decimal(attempt) + ">"@,
        kind_hint: Some(SourceKindView::Unknown(repl_lang)),
        language_hint: Some(repl_lang),
        scope_context,
        force_llm: true,
        provider_selection,
        model_override,
        no_cache: true,
    }
}

/// Builds the request that compiles a repair prompt of an interactive
/// session.
pub fn repl_heal_request(
    repl_lang: &str,
    provider_selection: ProviderSelection,
    model_override: Option<String>,
    scope_context: Option<String>,
    heal_prompt: String,
    attempt: usize,
) -> (req: CompileRequest)
    ensures
        req.deep_view() == repl_heal_request_spec(
            repl_lang@,
            provider_selection,
            model_override.deep_view(),
            scope_context.deep_view(),
            heal_prompt@,
            attempt as nat,
        ),
{
    let mut id: Vec<char> = Vec::new();
    push_str(&mut id, "<repl-self-heal-");
    push_all(&mut id, &decimal_text(attempt));
    push_str(&mut id, ">");
    CompileRequest {
        source_text: heal_prompt,
        source_id: string_of(&id),
        kind_hint: Some(SourceKind::Unknown(repl_lang.to_string())),
        language_hint: Some(repl_lang.to_string()),
        scope_context,
        force_llm: true,
        provider_selection,
        model_override,
        no_cache: true,
    }
}

/// The request that compiles the repair prompt of a whole file.
pub open spec fn file_heal_request_spec(
    path: Seq<char>,
    source: Seq<char>,
    error_text: Seq<char>,
    attempt: nat,
    provider_selection: ProviderSelection,
    model_override: Option<Seq<char>>,
) -> CompileRequestView {
    CompileRequestView {
        source_text: file_heal_prompt(path, source, error_text),
        source_id: path + "#self-heal-"@ + decimal(attempt + 1),
        kind_hint: Some(SourceKindView::Unknown("self-heal"@)),
        language_hint: Some("self-heal-javascript"@),
        scope_context: None,
        force_llm: true,
        provider_selection,
        model_override,
        no_cache: true,
    }
}

/// Builds the request that compiles the repair prompt of a whole file.
pub fn file_heal_request(
    path: &str,
    source: &str,
    error_text: &str,
    attempt: usize,
    provider_selection: ProviderSelection,
    model_override: Option<String>,
) -> (req: CompileRequest)
    requires
        attempt < usize::MAX,
    ensures
        req.deep_view() == file_heal_request_spec(
            path@,
            source@,
            error_text@,
            attempt as nat,
            provider_selection,
            model_override.deep_view(),
        ),
{
    let mut id: Vec<char> = Vec::new();
    push_str(&mut id, path);
    push_str(&mut id, "#self-heal-");
    push_all(&mut id, &decimal_text(attempt + 1));
    CompileRequest {
        source_text: build_self_heal_request(path, source, error_text),
        source_id: string_of(&id),
        kind_hint: Some(SourceKind::Unknown("self-heal".to_string())),
        language_hint: Some("self-heal-javascript".to_string()),
        scope_context: None,
        force_llm: true,
        provider_selection,
        model_override,
        no_cache: true,
    }
}

/// What a repaired snippet is run as: the snippet without its module
/// syntax, unless nothing is left of it.
pub open spec fn accepted_snippet(javascript: Seq<char>) -> Result<Seq<char>, HealError> {
    if is_blank(sanitized(javascript)) {
        Err(HealError::EmptySnippet)
    } else {
        Ok(sanitized(javascript))
    }
}

/// A result whose success is JavaScript, seen as its characters.
pub open spec fn snippet_result(r: Result<String, HealError>) -> Result<Seq<char>, HealError> {
    match r {
        Ok(js) => Ok(js@),
        Err(e) => Err(e),
    }
}

/// Makes a repaired snippet fit for a session, and refuses it where
/// nothing is left.
pub fn accept_repl_candidate(javascript: &str) -> (r: Result<String, HealError>)
    ensures
        snippet_result(r) == accepted_snippet(javascript@),
{
    let cleaned = sanitize_repl_javascript(javascript);
    proof {
        lemma_trimmed_empty(cleaned@);
    }
    if trim(&chars_of(cleaned.as_str())).len() == 0 {
        Err(HealError::EmptySnippet)
    } else {
        Ok(cleaned)
    }
}

/// What a repaired file is written as: the provider's answer as it is,
/// unless it is blank.
pub open spec fn accepted_file(javascript: Seq<char>) -> Result<Seq<char>, HealError> {
    if is_blank(javascript) {
        Err(HealError::EmptyFile)
    } else {
        Ok(javascript)
    }
}

/// Takes a repaired file as it is, and refuses it where it is blank.
pub fn accept_file_patch(javascript: String) -> (r: Result<String, HealError>)
    ensures
        snippet_result(r) == accepted_file(javascript@),
{
    proof {
        lemma_trimmed_empty(javascript@);
    }
    if trim(&chars_of(javascript.as_str())).len() == 0 {
        Err(HealError::EmptyFile)
    } else {
        Ok(javascript)
    }
}

/// Whether `js` is what some snippet is run as.
pub open spec fn is_accepted_snippet(js: Seq<char>) -> bool {
    exists|raw: Seq<char>| #[trigger] accepted_snippet(raw) == Ok::<Seq<char>, HealError>(js)
}

/// Whether `js` is what some file is written as.
pub open spec fn is_accepted_file(js: Seq<char>) -> bool {
    exists|raw: Seq<char>| #[trigger] accepted_file(raw) == Ok::<Seq<char>, HealError>(js)
}

/// Compiles the repair prompt of an interactive session and makes the
/// answer fit for the session.  Whatever the compiler answers, a success
/// is a snippet without module syntax that is not blank.
pub fn compile_repl_heal_candidate<C: Compiler>(
    compiler: &C,
    repl_lang: &str,
    provider_selection: ProviderSelection,
    model_override: Option<String>,
    scope_context: Option<String>,
    heal_prompt: String,
    attempt: usize,
) -> (r: Result<String, HealError>)
    ensures
        r matches Ok(js) ==> is_accepted_snippet(js@) && !is_blank(js@),
        r matches Err(e) ==> !(e is EmptyFile),
{
    let request = repl_heal_request(
        repl_lang,
        provider_selection,
        model_override,
        scope_context,
        heal_prompt,
        attempt,
    );
    match compiler.compile(&request) {
        Ok(healed) => accept_repl_candidate(healed.javascript.as_str()),
        Err(e) => Err(HealError::Compile(e)),
    }
}

/// Asks for the replacement of a whole file that failed to run.
/// Whatever the compiler answers, a success is a file that is not blank.
pub fn repair_file<C: Compiler>(
    compiler: &C,
    path: &str,
    source: &str,
    error_text: &str,
    attempt: usize,
    provider_selection: ProviderSelection,
    model_override: Option<String>,
) -> (r: Result<String, HealError>)
    requires
        attempt < usize::MAX,
    ensures
        r matches Ok(js) ==> is_accepted_file(js@) && !is_blank(js@),
        r matches Err(e) ==> !(e is EmptySnippet),
{
    let request = file_heal_request(
        path,
        source,
        error_text,
        attempt,
        provider_selection,
        model_override,
    );
    match compiler.compile(&request) {
        Ok(repaired) => accept_file_patch(repaired.javascript),
        Err(e) => Err(HealError::Compile(e)),
    }
}

// ---------------------------------------------------------------------------
// The machine
// ---------------------------------------------------------------------------

/// Where a self-healing run stands.
#[derive(Debug, Clone, Copy, PartialEq, Eq, Structural)]
pub enum HealPhase {
    /// The current candidate is to be run.
    Executing,
    /// A repair is to be asked for.
    Repairing,
    /// The candidate ran.
    Succeeded,
    /// The last failure came when no repair was left in the budget.
    Exhausted,
    /// A repair failed in a way that no further repair can mend.
    Aborted,
}

/// What the surroundings report back to the machine.
#[derive(Debug, Clone, PartialEq, Eq)]
pub enum HealEvent {
    /// The candidate ran.
    Executed,
    /// The candidate did not run; the text is the whole error.
    ExecutionFailed(String),
    /// The provider answered with this JavaScript.
    Repaired(String),
    /// The repair came to nothing; the text is the whole error.
    RepairFailed(String),
}

/// An event as plain text.
pub enum HealEventView {
    Executed,
    ExecutionFailed(Seq<char>),
    Repaired(Seq<char>),
    RepairFailed(Seq<char>),
}

impl DeepView for HealEvent {
    type V = HealEventView;

    open spec fn deep_view(&self) -> HealEventView {
        match self {
            HealEvent::Executed => HealEventView::Executed,
            HealEvent::ExecutionFailed(e) => HealEventView::ExecutionFailed(e@),
            HealEvent::Repaired(js) => HealEventView::Repaired(js@),
            HealEvent::RepairFailed(e) => HealEventView::RepairFailed(e@),
        }
    }
}

/// One repair that is asked for: its index, counted from zero, the stage
/// of the failure, and the error, whole and in one line, with the
/// JavaScript that failed where there is any.
#[derive(Debug, Clone, PartialEq, Eq)]
pub struct RepairAttempt {
    pub attempt: usize,
    pub stage: FailureStage,
    pub error_summary: String,
    pub error_text: String,
    pub failed_javascript: Option<String>,
}

/// A repair as plain text.
pub struct RepairAttemptView {
    pub attempt: nat,
    pub stage: FailureStage,
    pub error_summary: Seq<char>,
    pub error_text: Seq<char>,
    pub failed_javascript: Option<Seq<char>>,
}

impl DeepView for RepairAttempt {
    type V = RepairAttemptView;

    open spec fn deep_view(&self) -> RepairAttemptView {
        RepairAttemptView {
            attempt: self.attempt as nat,
            stage: self.stage,
            error_summary: self.error_summary@,
            error_text: self.error_text@,
            failed_javascript: self.failed_javascript.deep_view(),
        }
    }
}

/// What the machine wants done next.
#[derive(Debug, Clone, PartialEq, Eq)]
pub enum HealAction {
    /// Run this JavaScript and report `Executed` or `ExecutionFailed`.
    Execute(String),
    /// Ask for this repair and report `Repaired` or `RepairFailed`.
    Repair(RepairAttempt),
    /// Nothing: the run is over.
    Stop,
}

/// An action as plain text.
pub enum HealActionView {
    Execute(Seq<char>),
    Repair(RepairAttemptView),
    Stop,
}

impl DeepView for HealAction {
    type V = HealActionView;

    open spec fn deep_view(&self) -> HealActionView {
        match self {
            HealAction::Execute(js) => HealActionView::Execute(js@),
            HealAction::Repair(r) => HealActionView::Repair(r.deep_view()),
            HealAction::Stop => HealActionView::Stop,
        }
    }
}

/// The state of a self-healing run.
pub struct SelfHealView {
    /// How many repairs may be asked for; `None` for as many as it takes.
    pub limit: Option<nat>,
    /// How many repairs were asked for and answered.
    pub attempts: nat,
    pub phase: HealPhase,
    /// The JavaScript that is run next or was run last.
    pub candidate: Option<Seq<char>>,
    /// The failure that is to be repaired, or was the last.
    pub last_error: Seq<char>,
    /// What the last failed repair reported.
    pub repair_error: Option<Seq<char>>,
}

/// Whether one more repair may be asked for: the budget allows it, and
/// the counter can count it.
pub open spec fn may_repair(attempts: nat, limit: Option<nat>) -> bool {
    budget_remains(attempts, limit) && attempts < usize::MAX
}

/// The phase after a failure that calls for a repair.
pub open spec fn phase_after_failure(attempts: nat, limit: Option<nat>) -> HealPhase {
    if may_repair(attempts, limit) {
        HealPhase::Repairing
    } else {
        HealPhase::Exhausted
    }
}

/// The state in which a run starts that has a candidate to run.
pub open spec fn started(limit: Option<nat>, candidate: Seq<char>) -> SelfHealView {
    SelfHealView {
        limit,
        attempts: 0,
        phase: HealPhase::Executing,
        candidate: Some(candidate),
        last_error: Seq::empty(),
        repair_error: None,
    }
}

/// The state in which a run starts whose translation has failed, so that
/// there is nothing to run yet.
pub open spec fn started_untranslated(limit: Option<nat>, error_text: Seq<char>) -> SelfHealView {
    SelfHealView {
        limit,
        attempts: 0,
        phase: phase_after_failure(0, limit),
        candidate: None,
        last_error: error_text,
        repair_error: None,
    }
}

/// The state after an event.
///
/// A candidate that ran ends the run.  One that failed is repaired while
/// the budget lasts, and ends the run where it does not.  A repair that
/// succeeded is counted, and its answer is the candidate that runs next.
/// A repair that failed beyond recovery ends the run at once, whatever is
/// left of the budget; one that failed otherwise is counted, and then the
/// current candidate is run again or, where there is none, the next
/// repair is asked for while the budget lasts.  An event that does not
/// answer what the machine asked for changes nothing.
pub open spec fn after(s: SelfHealView, e: HealEventView) -> SelfHealView {
    match (s.phase, e) {
        (HealPhase::Executing, HealEventView::Executed) => SelfHealView {
            phase: HealPhase::Succeeded,
            ..s
        },
        (HealPhase::Executing, HealEventView::ExecutionFailed(error)) => SelfHealView {
            phase: phase_after_failure(s.attempts, s.limit),
            last_error: error,
            ..s
        },
        (HealPhase::Repairing, HealEventView::Repaired(js)) => SelfHealView {
            attempts: s.attempts + 1,
            phase: HealPhase::Executing,
            candidate: Some(js),
            ..s
        },
        (HealPhase::Repairing, HealEventView::RepairFailed(error)) => if is_non_recoverable(error) {
            SelfHealView { phase: HealPhase::Aborted, repair_error: Some(error), ..s }
        } else {
            SelfHealView {
                attempts: s.attempts + 1,
                phase: if s.candidate is Some {
                    HealPhase::Executing
                } else {
                    phase_after_failure(s.attempts + 1, s.limit)
                },
                repair_error: Some(error),
                ..s
            }
        },
        _ => s,
    }
}

/// What the machine asks for in a state.
pub open spec fn action_of(s: SelfHealView) -> HealActionView {
    match s.phase {
        HealPhase::Executing => match s.candidate {
            Some(js) => HealActionView::Execute(js),
            None => HealActionView::Stop,
        },
        HealPhase::Repairing => HealActionView::Repair(
            RepairAttemptView {
                attempt: s.attempts,
                stage: stage_of(s.candidate),
                error_summary: error_summary(s.last_error),
                error_text: s.last_error,
                failed_javascript: s.candidate,
            },
        ),
        _ => HealActionView::Stop,
    }
}

/// What holds of every state that a run can reach.
pub open spec fn reachable(s: SelfHealView) -> bool {
    &&& s.attempts <= usize::MAX
    &&& s.limit matches Some(max) ==> s.attempts <= max && max <= usize::MAX
    &&& s.phase is Executing ==> s.candidate is Some
    &&& s.phase is Repairing ==> may_repair(s.attempts, s.limit)
    &&& s.phase is Exhausted ==> !may_repair(s.attempts, s.limit)
}

/// The message of a run that did not succeed.
pub open spec fn failure_text(s: SelfHealView, subject: Seq<char>) -> Option<Seq<char>> {
    match s.phase {
        HealPhase::Exhausted => Some(
            "failed running "@ + subject + " after "@ + decimal(s.attempts)
                + " self-heal attempts: "@ + s.last_error,
        ),
        HealPhase::Aborted => Some(
            "self-heal failed for "@ + subject + ": "@ + match s.repair_error {
                Some(error) => error,
                None => Seq::empty(),
            },
        ),
        _ => None,
    }
}

/// The machine that runs a candidate, has it repaired when it fails, and
/// runs the repair, within a budget of repairs.
pub struct SelfHeal {
    limit: Option<usize>,
    attempts: usize,
    phase: HealPhase,
    candidate: Option<String>,
    last_error: String,
    repair_error: Option<String>,
}

impl View for SelfHeal {
    type V = SelfHealView;

    closed spec fn view(&self) -> SelfHealView {
        SelfHealView {
            limit: limit_view(self.limit),
            attempts: self.attempts as nat,
            phase: self.phase,
            candidate: self.candidate.deep_view(),
            last_error: self.last_error@,
            repair_error: self.repair_error.deep_view(),
        }
    }
}

fn copy_text(value: &Option<String>) -> (r: Option<String>)
    ensures
        r.deep_view() == value.deep_view(),
{
    match value {
        Some(s) => Some(s.clone()),
        None => None,
    }
}

impl SelfHeal {
    /// Starts a run that has a candidate to run.
    pub fn start(limit: Option<usize>, candidate: String) -> (machine: SelfHeal)
        ensures
            machine@ == started(limit_view(limit), candidate@),
            reachable(machine@),
    {
        SelfHeal {
            limit,
            attempts: 0,
            phase: HealPhase::Executing,
            candidate: Some(candidate),
            last_error: String::new(),
            repair_error: None,
        }
    }

    /// Starts a run whose translation has failed.
    pub fn start_untranslated(limit: Option<usize>, error_text: String) -> (machine: SelfHeal)
        ensures
            machine@ == started_untranslated(limit_view(limit), error_text@),
            reachable(machine@),
    {
        let phase = if can_continue_self_heal(0, limit) {
            HealPhase::Repairing
        } else {
            HealPhase::Exhausted
        };
        SelfHeal {
            limit,
            attempts: 0,
            phase,
            candidate: None,
            last_error: error_text,
            repair_error: None,
        }
    }

    fn next_phase(&self, attempts: usize) -> (phase: HealPhase)
        ensures
            phase == phase_after_failure(attempts as nat, self@.limit),
    {
        if can_continue_self_heal(attempts, self.limit) && attempts < usize::MAX {
            HealPhase::Repairing
        } else {
            HealPhase::Exhausted
        }
    }

    /// Takes in what the surroundings report.  A failure beyond recovery
    /// of a repair ends the run at once; the counter goes up by one with
    /// each repair that was answered otherwise, and with nothing else.
    pub fn step(&mut self, event: HealEvent)
        requires
            reachable(old(self)@),
        ensures
            final(self)@ == after(old(self)@, event.deep_view()),
            reachable(final(self)@),
            old(self)@.phase is Repairing && (event.deep_view() matches HealEventView::RepairFailed(
                error,
            ) && is_non_recoverable(error)) ==> final(self)@.phase is Aborted,
    {
        match self.phase {
            HealPhase::Executing => match event {
                HealEvent::Executed => {
                    self.phase = HealPhase::Succeeded;
                },
                HealEvent::ExecutionFailed(error) => {
                    self.phase = self.next_phase(self.attempts);
                    self.last_error = error;
                },
                _ => {},
            },
            HealPhase::Repairing => match event {
                HealEvent::Repaired(js) => {
                    self.attempts = self.attempts + 1;
                    self.phase = HealPhase::Executing;
                    self.candidate = Some(js);
                },
                HealEvent::RepairFailed(error) => {
                    if is_non_recoverable_self_heal_error(error.as_str()) {
                        self.phase = HealPhase::Aborted;
                    } else {
                        self.attempts = self.attempts + 1;
                        self.phase = if self.candidate.is_some() {
                            HealPhase::Executing
                        } else {
                            self.next_phase(self.attempts)
                        };
                    }
                    self.repair_error = Some(error);
                },
                _ => {},
            },
            _ => {},
        }
    }

    /// What is to be done next.
    pub fn action(&self) -> (action: HealAction)
        ensures
            action.deep_view() == action_of(self@),
    {
        match self.phase {
            HealPhase::Executing => match &self.candidate {
                Some(js) => HealAction::Execute(js.clone()),
                None => HealAction::Stop,
            },
            HealPhase::Repairing => HealAction::Repair(
                RepairAttempt {
                    attempt: self.attempts,
                    stage: match &self.candidate {
                        Some(_) => FailureStage::Execution,
                        None => FailureStage::Translation,
                    },
                    error_summary: summarize_error(self.last_error.as_str()),
                    error_text: self.last_error.clone(),
                    failed_javascript: copy_text(&self.candidate),
                },
            ),
            _ => HealAction::Stop,
        }
    }

    /// Where the run stands.
    pub fn phase(&self) -> (phase: HealPhase)
        ensures
            phase == self@.phase,
    {
        self.phase
    }

    /// How many repairs were asked for and answered.
    pub fn attempts(&self) -> (attempts: usize)
        ensures
            attempts == self@.attempts,
    {
        self.attempts
    }

    /// Whether the run is over.
    pub fn is_finished(&self) -> (r: bool)
        ensures
            r == (self@.phase is Succeeded || self@.phase is Exhausted || self@.phase is Aborted),
    {
        match self.phase {
            HealPhase::Succeeded | HealPhase::Exhausted | HealPhase::Aborted => true,
            _ => false,
        }
    }

    /// The JavaScript that is run next or was run last.
    pub fn candidate(&self) -> (r: Option<String>)
        ensures
            r.deep_view() == self@.candidate,
    {
        copy_text(&self.candidate)
    }

    /// The failure that is to be repaired, or was the last.
    pub fn last_error(&self) -> (r: String)
        ensures
            r@ == self@.last_error,
    {
        self.last_error.clone()
    }

    /// The message of a run that did not succeed: for a run that used up
    /// its budget, the number of repairs and the last failure; for one
    /// that was cut short, what the repair reported.
    pub fn failure_message(&self, subject: &str) -> (r: Option<String>)
        ensures
            r.deep_view() == failure_text(self@, subject@),
    {
        match self.phase {
            HealPhase::Exhausted => {
                let mut out: Vec<char> = Vec::new();
                push_str(&mut out, "failed running ");
                push_str(&mut out, subject);
                push_str(&mut out, " after ");
                push_all(&mut out, &decimal_text(self.attempts));
                push_str(&mut out, " self-heal attempts: ");
                push_str(&mut out, self.last_error.as_str());
                Some(string_of(&out))
            },
            HealPhase::Aborted => {
                let mut out: Vec<char> = Vec::new();
                push_str(&mut out, "self-heal failed for ");
                push_str(&mut out, subject);
                push_str(&mut out, ": ");
                match &self.repair_error {
                    Some(error) => {
                        push_str(&mut out, error.as_str());
                    },
                    None => {},
                }
                assert(out@ =~= failure_text(self@, subject@)->0);
                Some(string_of(&out))
            },
            _ => None,
        }
    }
}

impl RepairAttempt {
    /// The prompt of this repair for an interactive session.
    pub fn repl_prompt(&self, user_prompt: &str) -> (r: String)
        requires
            self.attempt < usize::MAX,
        ensures
            r@ == repl_heal_prompt(
                user_prompt@,
                self.failed_javascript.deep_view(),
                self.error_text@,
                self.attempt as nat,
            ),
    {
        match &self.failed_javascript {
            Some(js) => build_repl_self_heal_request(
                user_prompt,
                Some(js.as_str()),
                self.error_text.as_str(),
                self.attempt,
            ),
            None => build_repl_self_heal_request(
                user_prompt,
                None,
                self.error_text.as_str(),
                self.attempt,
            ),
        }
    }
}

// ---------------------------------------------------------------------------
// What the machine guarantees
// ---------------------------------------------------------------------------

/// Whatever the event, a reachable state is followed by a reachable one,
/// and the counter goes up by one exactly when a repair was answered by
/// something other than a failure beyond recovery.
pub proof fn lemma_step_counts_repairs(s: SelfHealView, e: HealEventView)
    requires
        reachable(s),
    ensures
        reachable(after(s, e)),
        after(s, e).limit == s.limit,
        after(s, e).attempts == s.attempts + if s.phase is Repairing && (e is Repaired || (
            e matches HealEventView::RepairFailed(error) && !is_non_recoverable(error))) {
            1nat
        } else {
            0nat
        },
{
}

/// A repair that fails beyond recovery stops the run at once, whatever
/// is left of the budget: the machine is done, asks for nothing more, and
/// no event moves it again.
pub proof fn lemma_non_recoverable_stops(s: SelfHealView, error: Seq<char>, later: HealEventView)
    requires
        s.phase is Repairing,
        is_non_recoverable(error),
    ensures
        after(s, HealEventView::RepairFailed(error)).phase is Aborted,
        after(s, HealEventView::RepairFailed(error)).attempts == s.attempts,
        action_of(after(s, HealEventView::RepairFailed(error))) is Stop,
        after(after(s, HealEventView::RepairFailed(error)), later) == after(
            s,
            HealEventView::RepairFailed(error),
        ),
{
}

/// The failure with which the surroundings answer a state when
/// everything fails.
pub open spec fn failing_answer(
    s: SelfHealView,
    execution_error: Seq<char>,
    repair_error: Seq<char>,
) -> HealEventView {
    if s.phase is Repairing {
        HealEventView::RepairFailed(repair_error)
    } else {
        HealEventView::ExecutionFailed(execution_error)
    }
}

/// The state after `n` answers, each of them a failure.
pub open spec fn after_failures(
    s: SelfHealView,
    n: nat,
    execution_error: Seq<char>,
    repair_error: Seq<char>,
) -> SelfHealView
    decreases n,
{
    if n == 0 {
        s
    } else {
        after_failures(
            after(s, failing_answer(s, execution_error, repair_error)),
            (n - 1) as nat,
            execution_error,
            repair_error,
        )
    }
}

/// How many repairs the machine asks for in the course of `n` answers,
/// each of them a failure.
pub open spec fn repairs_asked(
    s: SelfHealView,
    n: nat,
    execution_error: Seq<char>,
    repair_error: Seq<char>,
) -> nat
    decreases n,
{
    if n == 0 {
        0
    } else {
        (if action_of(s) is Repair {
            1nat
        } else {
            0nat
        }) + repairs_asked(
            after(s, failing_answer(s, execution_error, repair_error)),
            (n - 1) as nat,
            execution_error,
            repair_error,
        )
    }
}

/// The number of failing answers after which a run is surely over.
pub open spec fn answers_needed(s: SelfHealView) -> nat {
    match (s.phase, s.limit) {
        (HealPhase::Executing, Some(max)) => (2 * (max - s.attempts) + 1) as nat,
        (HealPhase::Repairing, Some(max)) => (2 * (max - s.attempts)) as nat,
        _ => 0,
    }
}

proof fn lemma_failures_exhaust(
    s: SelfHealView,
    n: nat,
    execution_error: Seq<char>,
    repair_error: Seq<char>,
)
    requires
        reachable(s),
        s.limit is Some,
        !is_non_recoverable(repair_error),
        s.phase is Executing || s.phase is Repairing || s.phase is Exhausted,
        n >= answers_needed(s),
    ensures
        after_failures(s, n, execution_error, repair_error).phase is Exhausted,
        after_failures(s, n, execution_error, repair_error).attempts == s.limit->0,
        after_failures(s, n, execution_error, repair_error).limit == s.limit,
        s.attempts + repairs_asked(s, n, execution_error, repair_error) == s.limit->0,
        s.phase is Executing ==> after_failures(s, n, execution_error, repair_error).last_error
            == execution_error,
    decreases n,
{
    if n > 0 {
        let next = after(s, failing_answer(s, execution_error, repair_error));
        lemma_step_counts_repairs(s, failing_answer(s, execution_error, repair_error));
        lemma_failures_exhaust(next, (n - 1) as nat, execution_error, repair_error);
        if next.phase is Executing {
        } else if s.phase is Executing {
            lemma_failures_keep_error(next, (n - 1) as nat, execution_error, repair_error);
        }
    }
}

proof fn lemma_failures_keep_error(
    s: SelfHealView,
    n: nat,
    execution_error: Seq<char>,
    repair_error: Seq<char>,
)
    requires
        s.last_error == execution_error,
    ensures
        after_failures(s, n, execution_error, repair_error).last_error == execution_error,
    decreases n,
{
    if n > 0 {
        lemma_failures_keep_error(
            after(s, failing_answer(s, execution_error, repair_error)),
            (n - 1) as nat,
            execution_error,
            repair_error,
        );
    }
}

/// With a budget of `max` repairs, a candidate that never runs and a
/// provider that never mends it, the machine asks for exactly `max`
/// repairs and then gives up; its message names that number and the last
/// failure.
pub proof fn lemma_self_heal_terminates(
    max: nat,
    candidate: Seq<char>,
    subject: Seq<char>,
    execution_error: Seq<char>,
    repair_error: Seq<char>,
    n: nat,
)
    requires
        max <= usize::MAX,
        !is_non_recoverable(repair_error),
        n >= 2 * max + 1,
    ensures
        ({
            let end = after_failures(
                started(Some(max), candidate),
                n,
                execution_error,
                repair_error,
            );
            &&& end.phase is Exhausted
            &&& end.attempts == max
            &&& repairs_asked(started(Some(max), candidate), n, execution_error, repair_error)
                == max
            &&& failure_text(end, subject) == Some(
                "failed running "@ + subject + " after "@ + decimal(max)
                    + " self-heal attempts: "@ + execution_error,
            )
        }),
{
    lemma_failures_exhaust(started(Some(max), candidate), n, execution_error, repair_error);
}

/// The same where the translation failed and there never is a candidate:
/// exactly `max` repairs are asked for before the machine gives up.
pub proof fn lemma_untranslated_self_heal_terminates(
    max: nat,
    subject: Seq<char>,
    first_error: Seq<char>,
    repair_error: Seq<char>,
    n: nat,
)
    requires
        max <= usize::MAX,
        !is_non_recoverable(repair_error),
        n >= 2 * max,
    ensures
        ({
            let start = started_untranslated(Some(max), first_error);
            let end = after_failures(start, n, first_error, repair_error);
            &&& end.phase is Exhausted
            &&& end.attempts == max
            &&& repairs_asked(start, n, first_error, repair_error) == max
            &&& failure_text(end, subject) == Some(
                "failed running "@ + subject + " after "@ + decimal(max)
                    + " self-heal attempts: "@ + first_error,
            )
        }),
{
    let start = started_untranslated(Some(max), first_error);
    lemma_failures_exhaust(start, n, first_error, repair_error);
    lemma_failures_keep_error(start, n, first_error, repair_error);
}

// ---------------------------------------------------------------------------
// Whether a file is healed at all
// ---------------------------------------------------------------------------

/// What is done about a file that failed to run.
#[derive(Debug, Clone, Copy, PartialEq, Eq, Structural)]
pub enum FileHealPolicy {
    /// Healing was not asked for.
    Off,
    /// Healing was asked for, and the file is none that can be healed.
    Unsupported,
    /// The file is healed.
    On,
}

/// What is done about a file that failed to run: nothing where healing
/// was not asked for, and else healing where the file can be healed.
pub open spec fn policy_of(self_heal: bool, file: Seq<char>) -> FileHealPolicy {
    if !self_heal {
        FileHealPolicy::Off
    } else if !is_healable(file) {
        FileHealPolicy::Unsupported
    } else {
        FileHealPolicy::On
    }
}

/// Decides what is done about a file that failed to run.
pub fn file_heal_policy(self_heal: bool, file: &str) -> (policy: FileHealPolicy)
    ensures
        policy == policy_of(self_heal, file@),
{
    if !self_heal {
        FileHealPolicy::Off
    } else if !is_self_heal_supported_source(file) {
        FileHealPolicy::Unsupported
    } else {
        FileHealPolicy::On
    }
}

/// The message of a run that failed and is not healed.
pub open spec fn unhealed_failure_text(
    file: Seq<char>,
    supported: bool,
    error_text: Seq<char>,
) -> Seq<char> {
    "failed running "@ + file + (if supported {
        Seq::empty()
    } else {
        " (self-heal currently supports .js/.mjs/.cjs/.jsx)"@
    }) + ": "@ + error_text
}

/// The message of a run that failed and is not healed.
pub fn unhealed_failure(file: &str, policy: FileHealPolicy, error_text: &str) -> (r: String)
    ensures
        r@ == unhealed_failure_text(file@, !(policy is Unsupported), error_text@),
{
    let mut out: Vec<char> = Vec::new();
    push_str(&mut out, "failed running ");
    push_str(&mut out, file);
    match policy {
        FileHealPolicy::Unsupported => {
            push_str(&mut out, " (self-heal currently supports .js/.mjs/.cjs/.jsx)");
        },
        _ => {},
    }
    push_str(&mut out, ": ");
    push_str(&mut out, error_text);
    assert(out@ =~= unhealed_failure_text(file@, !(policy is Unsupported), error_text@));
    string_of(&out)
}

/// An error that says that the credential is missing is one of those
/// after which no repair is tried again.
pub proof fn lemma_missing_key_is_non_recoverable()
    ensures
        is_non_recoverable(missing_key()),
{
    reveal_strlit("OPENAI_API_KEY is required for OpenAI-compatible translation");
    reveal_strlit("OPENAI_API_KEY");
    assert(missing_key().subrange(0, 14) =~= "OPENAI_API_KEY"@);
    assert(occurs_at(missing_key(), "OPENAI_API_KEY"@, 0));
}

} // verus!
