//! Translation backends: the two providers, the order in which they are
//! tried, and the clean-up applied to what a backend answers.

use crate::text::{
    chars_of, contains, drop_trailing_whitespace, find, find_in, is_blank, join_strings, joined,
    lemma_drop_trailing_whitespace, lemma_find_contains, lemma_find_from, lemma_skip_whitespace,
    line_feed,
    lemma_trimmed_empty, lemma_trimmed_is_fixed, occurs_at, push_all, push_str, skip_whitespace,
    slice_of, str_eq, string_of, text_result, trim, trimmed, trimmed_start,
};
use vstd::prelude::*;

verus! {

/// A translation backend.
#[derive(Debug, Clone, Copy, PartialEq, Eq, Structural)]
pub enum Provider {
    /// The model server reached on the local network.
    Ollama,
    /// The hosted completion API, which needs a credential.
    OpenAiCompatible,
}

/// How the caller wants the backend chosen.
#[derive(Debug, Clone, Copy, PartialEq, Eq, Structural)]
pub enum ProviderSelection {
    Auto,
    Ollama,
    OpenAiCompatible,
}

/// One candidate of a fallback chain.
#[derive(Debug, Clone, PartialEq, Eq)]
pub struct ProviderDescriptor {
    pub provider: Provider,
    pub model: String,
}

/// A candidate as plain text.
pub struct ProviderDescriptorView {
    pub provider: Provider,
    pub model: Seq<char>,
}

impl DeepView for ProviderDescriptor {
    type V = ProviderDescriptorView;

    open spec fn deep_view(&self) -> ProviderDescriptorView {
        ProviderDescriptorView { provider: self.provider, model: self.model@ }
    }
}

/// What a backend is asked to translate.
#[derive(Debug, Clone, PartialEq, Eq)]
pub struct LlmTranslateRequest {
    pub source_text: String,
    pub source_id: String,
    pub language_hint: Option<String>,
    pub scope_context: Option<String>,
}

/// A request to a backend as plain text.
pub struct LlmTranslateRequestView {
    pub source_text: Seq<char>,
    pub source_id: Seq<char>,
    pub language_hint: Option<Seq<char>>,
    pub scope_context: Option<Seq<char>>,
}

impl DeepView for LlmTranslateRequest {
    type V = LlmTranslateRequestView;

    open spec fn deep_view(&self) -> LlmTranslateRequestView {
        LlmTranslateRequestView {
            source_text: self.source_text@,
            source_id: self.source_id@,
            language_hint: self.language_hint.deep_view(),
            scope_context: self.scope_context.deep_view(),
        }
    }
}

/// A successful translation and the backend that produced it.
#[derive(Debug, Clone, PartialEq, Eq)]
pub struct LlmTranslateResponse {
    pub javascript: String,
    pub provider: Provider,
    pub model: String,
}

/// A translation as plain text.
pub struct LlmTranslateResponseView {
    pub javascript: Seq<char>,
    pub provider: Provider,
    pub model: Seq<char>,
}

impl DeepView for LlmTranslateResponse {
    type V = LlmTranslateResponseView;

    open spec fn deep_view(&self) -> LlmTranslateResponseView {
        LlmTranslateResponseView {
            javascript: self.javascript@,
            provider: self.provider,
            model: self.model@,
        }
    }
}

/// The record of one candidate that failed.
#[derive(Debug, Clone, PartialEq, Eq)]
pub struct ProviderAttempt {
    pub provider: Provider,
    pub stage: &'static str,
    pub error: String,
}

/// A failed attempt as plain text.
pub struct ProviderAttemptView {
    pub provider: Provider,
    pub stage: Seq<char>,
    pub error: Seq<char>,
}

impl DeepView for ProviderAttempt {
    type V = ProviderAttemptView;

    open spec fn deep_view(&self) -> ProviderAttemptView {
        ProviderAttemptView { provider: self.provider, stage: self.stage@, error: self.error@ }
    }
}

/// Every candidate of the chain failed; the attempts are kept in the
/// order in which they were made.
#[derive(Debug, Clone, PartialEq, Eq)]
pub struct ProviderRoutingError {
    pub attempts: Vec<ProviderAttempt>,
}

/// Why a backend's answer was thrown away.
#[derive(Debug, Clone, Copy, PartialEq, Eq, Structural)]
pub enum NormalizeError {
    /// Nothing but whitespace came back.
    Empty,
    /// The first fenced block holds nothing but whitespace.
    EmptyFence,
}

/// Why a translation failed.
#[derive(Debug, Clone, PartialEq, Eq)]
pub enum TranslateError {
    /// The router went through its whole chain.
    Routing(ProviderRoutingError),
    /// A translation service of another kind failed; the text is its report.
    Service(String),
}

/// One backend.  `Err` holds the backend's report of what went wrong.
pub trait LlmClient {
    fn translate_to_js(&self, req: &LlmTranslateRequest, model: &str) -> Result<String, String>;
}

/// A cheap check that the local backend answers at all.
pub trait ReachabilityProbe {
    fn ollama_reachable(&self) -> bool;
}

/// Whatever turns a request into JavaScript by way of some chain of
/// candidates.
pub trait TranslationService {
    fn candidate_chain(&self, selection: ProviderSelection) -> Vec<ProviderDescriptor>;

    fn translate(
        &self,
        selection: ProviderSelection,
        req: &LlmTranslateRequest,
        model_override: Option<&str>,
    ) -> Result<LlmTranslateResponse, TranslateError>;
}

// ---------------------------------------------------------------------------
// Names and messages
// ---------------------------------------------------------------------------

/// The tag under which a provider is written into cache keys and cache
/// entries.
pub open spec fn provider_tag(provider: Provider) -> Seq<char> {
    match provider {
        Provider::Ollama => "ollama"@,
        Provider::OpenAiCompatible => "openai-compatible"@,
    }
}

/// The tag of a provider.
pub fn format_provider(provider: Provider) -> (r: String)
    ensures
        r@ == provider_tag(provider),
{
    match provider {
        Provider::Ollama => "ollama".to_string(),
        Provider::OpenAiCompatible => "openai-compatible".to_string(),
    }
}

/// The provider that a tag stands for: the local one for its own tag, the
/// hosted one for any other.
pub open spec fn provider_of_tag(tag: Seq<char>) -> Provider {
    if tag == "ollama"@ {
        Provider::Ollama
    } else {
        Provider::OpenAiCompatible
    }
}

/// Reads a provider tag back.
pub fn parse_provider(value: &str) -> (r: Provider)
    ensures
        r == provider_of_tag(value@),
{
    if str_eq(value, "ollama") {
        Provider::Ollama
    } else {
        Provider::OpenAiCompatible
    }
}

/// The name of a provider as its variant is spelled.
pub open spec fn provider_name(provider: Provider) -> Seq<char> {
    match provider {
        Provider::Ollama => "Ollama"@,
        Provider::OpenAiCompatible => "OpenAiCompatible"@,
    }
}

/// The name of a provider as its variant is spelled.
pub fn provider_name_of(provider: Provider) -> (r: &'static str)
    ensures
        r@ == provider_name(provider),
{
    match provider {
        Provider::Ollama => "Ollama",
        Provider::OpenAiCompatible => "OpenAiCompatible",
    }
}

impl NormalizeError {
    /// What this error says.
    pub open spec fn message_spec(self) -> Seq<char> {
        match self {
            NormalizeError::Empty => "LLM returned empty output"@,
            NormalizeError::EmptyFence => "LLM returned empty fenced output"@,
        }
    }

    /// What this error says.
    pub fn message(&self) -> (r: String)
        ensures
            r@ == self.message_spec(),
    {
        match self {
            NormalizeError::Empty => "LLM returned empty output".to_string(),
            NormalizeError::EmptyFence => "LLM returned empty fenced output".to_string(),
        }
    }
}

/// `s` between double quotes, with the escapes of Rust's `Debug` for `str`.
pub uninterp spec fn debug_quoted(s: Seq<char>) -> Seq<char>;

/// `format!("{:?}", s)`: the text that `Debug` writes for a `str`, which is
/// a function of the characters of `s` alone.
#[verifier::external_body]
pub(crate) fn quote_debug(s: &str) -> (r: String)
    ensures
        r@ == debug_quoted(s@),
{
    format!("{:?}", s)
}

/// One attempt as it is written into a routing failure's message.
pub open spec fn attempt_text(a: ProviderAttemptView) -> Seq<char> {
    "ProviderAttempt { provider: "@ + provider_name(a.provider) + ", stage: "@ + debug_quoted(
        a.stage,
    ) + ", error: "@ + debug_quoted(a.error) + " }"@
}

/// The attempts as they are written into a routing failure's message.
pub open spec fn attempt_texts(attempts: Seq<ProviderAttemptView>) -> Seq<Seq<char>> {
    Seq::new(attempts.len(), |i: int| attempt_text(attempts[i]))
}

/// The message of a routing failure: every attempt, in order.
pub open spec fn routing_message(attempts: Seq<ProviderAttemptView>) -> Seq<char> {
    "LLM routing failed after ["@ + joined(attempt_texts(attempts), ", "@) + "]"@
}

impl ProviderAttempt {
    /// This attempt as it is written into a routing failure's message.
    pub fn describe(&self) -> (r: String)
        ensures
            r@ == attempt_text(self.deep_view()),
    {
        let mut out: Vec<char> = Vec::new();
        push_str(&mut out, "ProviderAttempt { provider: ");
        push_str(&mut out, provider_name_of(self.provider));
        push_str(&mut out, ", stage: ");
        let stage = quote_debug(self.stage);
        push_str(&mut out, stage.as_str());
        push_str(&mut out, ", error: ");
        let error = quote_debug(self.error.as_str());
        push_str(&mut out, error.as_str());
        push_str(&mut out, " }");
        string_of(&out)
    }
}

impl ProviderRoutingError {
    /// What this error says.
    pub fn message(&self) -> (r: String)
        ensures
            r@ == routing_message(self.attempts.deep_view()),
    {
        let mut parts: Vec<String> = Vec::new();
        let mut i: usize = 0;
        while i < self.attempts.len()
            invariant
                i <= self.attempts.len(),
                parts.deep_view() == attempt_texts(self.attempts.deep_view()).take(i as int),
            decreases self.attempts.len() - i,
        {
            let text = self.attempts[i].describe();
            let ghost before = parts.deep_view();
            parts.push(text);
            assert(parts.deep_view() =~= before.push(text@));
            assert(before.push(text@) =~= attempt_texts(self.attempts.deep_view()).take(i + 1));
            i += 1;
        }
        assert(attempt_texts(self.attempts.deep_view()).take(i as int) == attempt_texts(
            self.attempts.deep_view(),
        ));
        let mut out: Vec<char> = Vec::new();
        push_str(&mut out, "LLM routing failed after [");
        let body = join_strings(&parts, ", ");
        push_all(&mut out, &body);
        push_str(&mut out, "]");
        string_of(&out)
    }
}

impl TranslateError {
    /// What this error says.
    pub open spec fn message_spec(self) -> Seq<char> {
        match self {
            TranslateError::Routing(e) => routing_message(e.attempts.deep_view()),
            TranslateError::Service(text) => text@,
        }
    }

    /// What this error says.
    pub fn message(&self) -> (r: String)
        ensures
            r@ == self.message_spec(),
    {
        match self {
            TranslateError::Routing(e) => e.message(),
            TranslateError::Service(text) => text.clone(),
        }
    }
}

// ---------------------------------------------------------------------------
// Output normalization
// ---------------------------------------------------------------------------

/// The marker that opens and closes a fenced block.
pub open spec fn fence() -> Seq<char> {
    "```"@
}

/// What stands inside the first fenced block of `s`: from the line after
/// the opening marker up to the next marker.
pub open spec fn fenced_interior(s: Seq<char>) -> Option<Seq<char>> {
    match find(s, fence()) {
        None => None,
        Some(start) => {
            let rest = s.skip(start + fence().len());
            match find(rest, line_feed()) {
                None => None,
                Some(nl) => {
                    let body = rest.skip(nl + line_feed().len());
                    match find(body, fence()) {
                        None => None,
                        Some(end) => Some(body.take(end)),
                    }
                },
            }
        },
    }
}

/// The JavaScript that a raw answer stands for.
pub open spec fn normalized(raw: Seq<char>) -> Result<Seq<char>, NormalizeError> {
    let t = trimmed(raw);
    if t.len() == 0 {
        Err(NormalizeError::Empty)
    } else {
        match fenced_interior(t) {
            Some(block) => if trimmed(block).len() == 0 {
                Err(NormalizeError::EmptyFence)
            } else {
                Ok(trimmed(block))
            },
            None => Ok(t),
        }
    }
}

/// What stands inside the first fenced block of `input`, where there is
/// one that is closed.
pub fn extract_fenced_code(input: &Vec<char>) -> (r: Option<Vec<char>>)
    ensures
        match r {
            Some(block) => fenced_interior(input@) == Some(block@),
            None => fenced_interior(input@) is None,
        },
{
    let fence = chars_of("```");
    let newline = chars_of("\n");
    let start = match find_in(input, &fence, 0) {
        Some(start) => start,
        None => { return None; },
    };
    let rest = slice_of(input, start + fence.len(), input.len());
    let nl = match find_in(&rest, &newline, 0) {
        Some(nl) => nl,
        None => { return None; },
    };
    let body = slice_of(&rest, nl + newline.len(), rest.len());
    let end = match find_in(&body, &fence, 0) {
        Some(end) => end,
        None => { return None; },
    };
    let block = slice_of(&body, 0, end);
    Some(block)
}

/// Cleans a backend's raw answer: surrounding whitespace goes; where the
/// answer holds a fenced block, only the inside of the first one stays.
/// An answer that is empty after that is refused.
pub fn normalize_js_output(raw: &str) -> (r: Result<String, NormalizeError>)
    ensures
        text_result(r) == normalized(raw@),
        is_blank(raw@) <==> r == Err::<String, NormalizeError>(NormalizeError::Empty),
{
    proof {
        lemma_trimmed_empty(raw@);
    }
    let text = chars_of(raw);
    let t = trim(&text);
    if t.len() == 0 {
        return Err(NormalizeError::Empty);
    }
    match extract_fenced_code(&t) {
        Some(block) => {
            let inner = trim(&block);
            if inner.len() == 0 {
                return Err(NormalizeError::EmptyFence);
            }
            Ok(string_of(&inner))
        },
        None => Ok(string_of(&t)),
    }
}

// What normalization guarantees

/// A text that is not empty, has no whitespace around it and holds no
/// fence marker.
pub open spec fn is_clean(js: Seq<char>) -> bool {
    js.len() > 0 && trimmed(js) == js && !contains(js, fence())
}

proof fn lemma_part_contains(s: Seq<char>, from: int, to: int, pat: Seq<char>)
    requires
        0 <= from <= to <= s.len(),
        contains(s.subrange(from, to), pat),
    ensures
        contains(s, pat),
{
    let part = s.subrange(from, to);
    let i = choose|i: int| occurs_at(part, pat, i);
    assert(part.subrange(i, i + pat.len()) =~= s.subrange(from + i, from + i + pat.len()));
    assert(occurs_at(s, pat, from + i));
}

proof fn lemma_trimmed_is_part(s: Seq<char>, pat: Seq<char>)
    requires
        contains(trimmed(s), pat),
    ensures
        contains(s, pat),
{
    lemma_skip_whitespace(s, 0);
    let a = skip_whitespace(s, 0);
    let t = trimmed_start(s);
    lemma_drop_trailing_whitespace(t, t.len() as int);
    let e = drop_trailing_whitespace(t, t.len() as int);
    assert(trimmed(s) =~= t.subrange(0, e));
    lemma_part_contains(t, 0, e, pat);
    assert(t =~= s.subrange(a, s.len() as int));
    lemma_part_contains(s, a, s.len() as int, pat);
}

/// The inside of a fenced block holds no fence marker.
proof fn lemma_interior_has_no_fence(s: Seq<char>)
    requires
        fenced_interior(s) is Some,
    ensures
        !contains(fenced_interior(s)->0, fence()),
{
    reveal_strlit("```");
    let start = find(s, fence())->0;
    let rest = s.skip(start + fence().len());
    let nl = find(rest, line_feed())->0;
    let body = rest.skip(nl + line_feed().len());
    let end = find(body, fence())->0;
    let block = body.take(end);
    lemma_find_from(body, fence(), 0);
    if contains(block, fence()) {
        let k = choose|k: int| occurs_at(block, fence(), k);
        assert(block.subrange(k, k + fence().len()) =~= body.subrange(k, k + fence().len()));
        assert(occurs_at(body, fence(), k));
    }
}

/// A text without a fence marker has no fenced block.
proof fn lemma_no_fence_no_interior(s: Seq<char>)
    requires
        !contains(s, fence()),
    ensures
        fenced_interior(s) is None,
{
    lemma_find_contains(s, fence());
}

/// Clean JavaScript passes through normalization unchanged.
pub proof fn lemma_clean_is_unchanged(js: Seq<char>)
    requires
        is_clean(js),
    ensures
        normalized(js) == Ok::<Seq<char>, NormalizeError>(js),
{
    lemma_no_fence_no_interior(js);
}

/// Where the trimmed answer holds a fenced block, nothing but the inside
/// of that block is kept.
pub proof fn lemma_fenced_yields_interior(raw: Seq<char>)
    requires
        fenced_interior(trimmed(raw)) is Some,
    ensures
        normalized(raw) matches Ok(js) ==> js == trimmed(fenced_interior(trimmed(raw))->0),
        normalized(raw) is Err ==> is_blank(fenced_interior(trimmed(raw))->0),
{
    lemma_trimmed_empty(fenced_interior(trimmed(raw))->0);
    lemma_trimmed_empty(raw);
}

/// Normalizing twice is normalizing once: what normalization accepts is
/// not empty, has no whitespace around it, and is returned unchanged when
/// normalized again.
pub proof fn lemma_normalize_idempotent(raw: Seq<char>)
    ensures
        normalized(raw) matches Ok(js) ==> js.len() > 0 && trimmed(js) == js && normalized(js)
            == Ok::<Seq<char>, NormalizeError>(js),
{
    let t = trimmed(raw);
    if let Ok(js) = normalized(raw) {
        match fenced_interior(t) {
            Some(block) => {
                lemma_trimmed_is_fixed(block);
                lemma_interior_has_no_fence(t);
                if contains(js, fence()) {
                    lemma_trimmed_is_part(block, fence());
                }
                lemma_no_fence_no_interior(js);
            },
            None => {
                lemma_trimmed_is_fixed(raw);
            },
        }
    }
}

// ---------------------------------------------------------------------------
// Routing
// ---------------------------------------------------------------------------

/// The model that a call goes to: the caller's override where there is
/// one, else the candidate's own.
pub open spec fn model_choice(model_override: Option<Seq<char>>, default: Seq<char>) -> Seq<char> {
    match model_override {
        Some(m) => m,
        None => default,
    }
}

/// The model that a call goes to.
pub fn resolved_model(model_override: Option<&str>, default: &str) -> (r: String)
    ensures
        r@ == model_choice(model_override.deep_view(), default@),
{
    match model_override {
        Some(m) => m.to_string(),
        None => default.to_string(),
    }
}

/// The candidates for a selection, in the order in which they are tried.
/// An explicit selection names its one provider.  `Auto` puts the local
/// provider before the hosted one where the local one answers, and leaves
/// it out where it does not.
pub open spec fn chain_spec(
    selection: ProviderSelection,
    reachable: bool,
    ollama_model: Seq<char>,
    openai_model: Seq<char>,
) -> Seq<ProviderDescriptorView> {
    let local = ProviderDescriptorView { provider: Provider::Ollama, model: ollama_model };
    let cloud = ProviderDescriptorView { provider: Provider::OpenAiCompatible, model: openai_model };
    match selection {
        ProviderSelection::Ollama => seq![local],
        ProviderSelection::OpenAiCompatible => seq![cloud],
        ProviderSelection::Auto => if reachable {
            seq![local, cloud]
        } else {
            seq![cloud]
        },
    }
}

/// The candidates for `selection`, given whether the local provider
/// answers.  Under `Auto` with the local provider out of reach the hosted
/// provider is the only candidate.
pub fn chain_for(
    selection: ProviderSelection,
    reachable: bool,
    ollama_model: &str,
    openai_model: &str,
) -> (r: Vec<ProviderDescriptor>)
    ensures
        r.deep_view() == chain_spec(selection, reachable, ollama_model@, openai_model@),
        selection is Auto && !reachable ==> r.len() == 1 && r[0].provider
            is OpenAiCompatible && r[0].model@ == openai_model@,
{
    let mut chain: Vec<ProviderDescriptor> = Vec::new();
    let with_local = match selection {
        ProviderSelection::Ollama => true,
        ProviderSelection::OpenAiCompatible => false,
        ProviderSelection::Auto => reachable,
    };
    let with_cloud = match selection {
        ProviderSelection::Ollama => false,
        _ => true,
    };
    if with_local {
        chain.push(ProviderDescriptor { provider: Provider::Ollama, model: ollama_model.to_string() });
    }
    if with_cloud {
        chain.push(
            ProviderDescriptor {
                provider: Provider::OpenAiCompatible,
                model: openai_model.to_string(),
            },
        );
    }
    assert(chain.deep_view() =~= chain_spec(selection, reachable, ollama_model@, openai_model@));
    chain
}

/// What one call to a backend comes to, given what the backend answered:
/// a normalized translation, or the text of the failure.
pub open spec fn call_outcome(
    provider: Provider,
    model: Seq<char>,
    answer: Result<Seq<char>, Seq<char>>,
) -> Result<LlmTranslateResponseView, Seq<char>> {
    match answer {
        Err(report) => Err(report),
        Ok(raw) => match normalized(raw) {
            Err(e) => Err(e.message_spec()),
            Ok(js) => Ok(LlmTranslateResponseView { javascript: js, provider, model }),
        },
    }
}

/// The outcome of a call as plain text.
pub open spec fn response_result(r: Result<LlmTranslateResponse, String>) -> Result<
    LlmTranslateResponseView,
    Seq<char>,
> {
    match r {
        Ok(resp) => Ok(resp.deep_view()),
        Err(e) => Err(e@),
    }
}

/// The answer of a backend as plain text.
pub open spec fn answer_view(r: Result<String, String>) -> Result<Seq<char>, Seq<char>> {
    match r {
        Ok(s) => Ok(s@),
        Err(e) => Err(e@),
    }
}

/// Turns a backend's answer into the outcome of the call.
pub fn finish_call(provider: Provider, model: String, answer: Result<String, String>) -> (r: Result<
    LlmTranslateResponse,
    String,
>)
    ensures
        response_result(r) == call_outcome(provider, model@, answer_view(answer)),
{
    match answer {
        Err(report) => Err(report),
        Ok(raw) => match normalize_js_output(raw.as_str()) {
            Err(e) => Err(e.message()),
            Ok(js) => Ok(LlmTranslateResponse { javascript: js, provider, model }),
        },
    }
}

/// The record kept of a candidate that failed.
pub fn failed_attempt(provider: Provider, error: String) -> (r: ProviderAttempt)
    ensures
        r.deep_view() == attempt_of(provider, error@),
{
    ProviderAttempt { provider, stage: "translate", error }
}

/// Routes a translation to the local and the hosted backend.
pub struct ProviderRouter<O, P, R> where O: LlmClient, P: LlmClient, R: ReachabilityProbe {
    pub ollama: O,
    pub openai: P,
    pub reachability: R,
    pub ollama_model: String,
    pub openai_model: String,
}

/// Whether `attempts` records one failure for each candidate of `chain`,
/// in the chain's order.
pub open spec fn attempts_follow(
    attempts: Seq<ProviderAttemptView>,
    chain: Seq<ProviderDescriptorView>,
) -> bool {
    &&& attempts.len() == chain.len()
    &&& forall|i: int|
        0 <= i < attempts.len() ==> (#[trigger] attempts[i]).provider == chain[i].provider
            && attempts[i].stage == "translate"@
}

/// The record of a candidate that failed with the report `error`.
pub open spec fn attempt_of(provider: Provider, error: Seq<char>) -> ProviderAttemptView {
    ProviderAttemptView { provider, stage: "translate"@, error }
}

/// What routing comes to from the candidate at position `i` on, given
/// what the backends answer, one answer for each candidate that is
/// asked: the translation of the first candidate whose call succeeds, or
/// else the failed attempts in the order of the chain.  No candidate is
/// asked after one has succeeded, and none is asked twice.
pub open spec fn routed(
    chain: Seq<ProviderDescriptorView>,
    model_override: Option<Seq<char>>,
    answers: Seq<Result<Seq<char>, Seq<char>>>,
    i: int,
) -> Result<LlmTranslateResponseView, Seq<ProviderAttemptView>>
    decreases answers.len() - i,
{
    if i < 0 || i >= answers.len() || i >= chain.len() {
        Err(Seq::empty())
    } else {
        match call_outcome(
            chain[i].provider,
            model_choice(model_override, chain[i].model),
            answers[i],
        ) {
            Ok(response) => Ok(response),
            Err(error) => match routed(chain, model_override, answers, i + 1) {
                Ok(response) => Ok(response),
                Err(rest) => Err(seq![attempt_of(chain[i].provider, error)] + rest),
            },
        }
    }
}

/// The outcome of a translation as plain text; a failure is seen as its
/// attempts.
pub open spec fn routing_result(r: Result<LlmTranslateResponse, TranslateError>) -> Result<
    LlmTranslateResponseView,
    Seq<ProviderAttemptView>,
> {
    match r {
        Ok(response) => Ok(response.deep_view()),
        Err(TranslateError::Routing(e)) => Err(e.attempts.deep_view()),
        Err(TranslateError::Service(_)) => Err(Seq::empty()),
    }
}

proof fn lemma_routed_one_more(
    chain: Seq<ProviderDescriptorView>,
    model_override: Option<Seq<char>>,
    given: Seq<Result<Seq<char>, Seq<char>>>,
    next: Result<Seq<char>, Seq<char>>,
    k: int,
)
    requires
        0 <= k <= given.len() < chain.len(),
        routed(chain, model_override, given, k) is Err,
    ensures
        routed(chain, model_override, given.push(next), k) == match call_outcome(
            chain[given.len() as int].provider,
            model_choice(model_override, chain[given.len() as int].model),
            next,
        ) {
            Ok(response) => Ok::<LlmTranslateResponseView, Seq<ProviderAttemptView>>(response),
            Err(error) => Err(
                routed(chain, model_override, given, k)->Err_0.push(
                    attempt_of(chain[given.len() as int].provider, error),
                ),
            ),
        },
    decreases given.len() - k,
{
    let longer = given.push(next);
    if k == given.len() {
        assert(longer[k] == next);
        assert(routed(chain, model_override, longer, k + 1) == Err::<
            LlmTranslateResponseView,
            Seq<ProviderAttemptView>,
        >(Seq::empty()));
        let outcome = call_outcome(
            chain[k].provider,
            model_choice(model_override, chain[k].model),
            next,
        );
        if let Err(error) = outcome {
            assert(seq![attempt_of(chain[k].provider, error)] + Seq::<ProviderAttemptView>::empty()
                =~= Seq::<ProviderAttemptView>::empty().push(attempt_of(chain[k].provider, error)));
        }
    } else {
        assert(longer[k] == given[k]);
        lemma_routed_one_more(chain, model_override, given, next, k + 1);
        let here = call_outcome(
            chain[k].provider,
            model_choice(model_override, chain[k].model),
            given[k],
        );
        let rest = routed(chain, model_override, given, k + 1)->Err_0;
        let last = call_outcome(
            chain[given.len() as int].provider,
            model_choice(model_override, chain[given.len() as int].model),
            next,
        );
        if let Err(error) = last {
            let added = attempt_of(chain[given.len() as int].provider, error);
            assert(seq![attempt_of(chain[k].provider, here->Err_0)] + rest.push(added) =~= (seq![
                attempt_of(chain[k].provider, here->Err_0),
            ] + rest).push(added));
        }
    }
}

/// Whether `js` is something that normalization hands out.
pub open spec fn is_normalized(js: Seq<char>) -> bool {
    exists|raw: Seq<char>| #[trigger] normalized(raw) == Ok::<Seq<char>, NormalizeError>(js)
}

impl<O, P, R> ProviderRouter<O, P, R> where O: LlmClient, P: LlmClient, R: ReachabilityProbe {
    /// The model configured for a provider.
    pub open spec fn default_model(&self, provider: Provider) -> Seq<char> {
        match provider {
            Provider::Ollama => self.ollama_model@,
            Provider::OpenAiCompatible => self.openai_model@,
        }
    }

    /// The chain for `selection`, given whether the local provider answers.
    pub open spec fn chain_when(&self, selection: ProviderSelection, reachable: bool) -> Seq<
        ProviderDescriptorView,
    > {
        chain_spec(selection, reachable, self.ollama_model@, self.openai_model@)
    }

    /// Calls one backend with the resolved model and normalizes its answer.
    /// Whatever the backend answers, the outcome is what `call_outcome`
    /// makes of the answer: a success names the provider that was asked
    /// and the model that was used, and holds normalized JavaScript.
    pub fn call_provider(
        &self,
        provider: Provider,
        req: &LlmTranslateRequest,
        model_override: Option<&str>,
    ) -> (r: Result<LlmTranslateResponse, String>)
        ensures
            exists|answer: Result<Seq<char>, Seq<char>>| #[trigger]
                call_outcome(
                    provider,
                    model_choice(model_override.deep_view(), self.default_model(provider)),
                    answer,
                ) == response_result(r),
            r matches Ok(resp) ==> resp.provider == provider && resp.model@ == model_choice(
                model_override.deep_view(),
                self.default_model(provider),
            ) && is_normalized(resp.javascript@),
    {
        match provider {
            Provider::Ollama => {
                let model = resolved_model(model_override, self.ollama_model.as_str());
                let answer = self.ollama.translate_to_js(req, model.as_str());
                let ghost given = answer_view(answer);
                let r = finish_call(provider, model, answer);
                assert(call_outcome(
                    provider,
                    model_choice(model_override.deep_view(), self.default_model(provider)),
                    given,
                ) == response_result(r));
                r
            },
            Provider::OpenAiCompatible => {
                let model = resolved_model(model_override, self.openai_model.as_str());
                let answer = self.openai.translate_to_js(req, model.as_str());
                let ghost given = answer_view(answer);
                let r = finish_call(provider, model, answer);
                assert(call_outcome(
                    provider,
                    model_choice(model_override.deep_view(), self.default_model(provider)),
                    given,
                ) == response_result(r));
                r
            },
        }
    }
}

impl<O, P, R> TranslationService for ProviderRouter<O, P, R> where
    O: LlmClient,
    P: LlmClient,
    R: ReachabilityProbe,
 {
    /// The candidates for `selection`.  Only `Auto` asks the probe.
    fn candidate_chain(&self, selection: ProviderSelection) -> (r: Vec<ProviderDescriptor>)
        ensures
            !(selection is Auto) ==> r.deep_view() == self.chain_when(selection, false),
            selection is Auto ==> r.deep_view() == self.chain_when(selection, true)
                || r.deep_view() == self.chain_when(selection, false),
    {
        let reachable = match selection {
            ProviderSelection::Auto => self.reachability.ollama_reachable(),
            _ => false,
        };
        chain_for(selection, reachable, self.ollama_model.as_str(), self.openai_model.as_str())
    }

    /// Tries the candidates in order, each once.  The first success is
    /// returned as it is; where every candidate fails, the error holds one
    /// attempt for each of them, in the chain's order, with what the
    /// candidate reported.
    fn translate(
        &self,
        selection: ProviderSelection,
        req: &LlmTranslateRequest,
        model_override: Option<&str>,
    ) -> (r: Result<LlmTranslateResponse, TranslateError>)
        ensures
            exists|reachable: bool, answers: Seq<Result<Seq<char>, Seq<char>>>|
                answers.len() <= self.chain_when(selection, reachable).len() && #[trigger] routed(
                    self.chain_when(selection, reachable),
                    model_override.deep_view(),
                    answers,
                    0,
                ) == routing_result(r),
            r matches Ok(resp) ==> {
                &&& exists|reachable: bool, i: int|
                    0 <= i < self.chain_when(selection, reachable).len() && (
                    #[trigger] self.chain_when(selection, reachable)[i]).provider == resp.provider
                &&& resp.model@ == model_choice(
                    model_override.deep_view(),
                    self.default_model(resp.provider),
                )
                &&& is_normalized(resp.javascript@)
            },
            r matches Err(error) ==> error is Routing && exists|reachable: bool| #[trigger]
                attempts_follow(
                    error->Routing_0.attempts.deep_view(),
                    self.chain_when(selection, reachable),
                ),
    {
        let chain = self.candidate_chain(selection);
        let ghost reachable: bool = chain.deep_view() == self.chain_when(selection, true);
        let ghost spec_chain = self.chain_when(selection, reachable);
        let ghost wanted = model_override.deep_view();
        assert(chain.deep_view() == spec_chain);
        let mut attempts: Vec<ProviderAttempt> = Vec::new();
        let ghost mut given: Seq<Result<Seq<char>, Seq<char>>> = Seq::empty();
        let mut i: usize = 0;
        assert(attempts.deep_view() =~= Seq::<ProviderAttemptView>::empty());
        while i < chain.len()
            invariant
                i <= chain.len(),
                chain.deep_view() == spec_chain,
                spec_chain == self.chain_when(selection, reachable),
                wanted == model_override.deep_view(),
                given.len() == i,
                routed(spec_chain, wanted, given, 0) == Err::<
                    LlmTranslateResponseView,
                    Seq<ProviderAttemptView>,
                >(attempts.deep_view()),
                attempts_follow(attempts.deep_view(), spec_chain.take(i as int)),
            decreases chain.len() - i,
        {
            let provider = chain[i].provider;
            assert(chain.deep_view()[i as int] == chain@[i as int].deep_view());
            assert(spec_chain[i as int].provider == provider);
            assert(spec_chain[i as int].model == self.default_model(provider));
            let outcome = self.call_provider(provider, req, model_override);
            let ghost model = model_choice(wanted, self.default_model(provider));
            let ghost answer = choose|answer: Result<Seq<char>, Seq<char>>|
                call_outcome(provider, model, answer) == response_result(outcome);
            proof {
                lemma_routed_one_more(spec_chain, wanted, given, answer, 0);
                given = given.push(answer);
            }
            match outcome {
                Ok(response) => {
                    assert(self.chain_when(selection, reachable)[i as int].provider
                        == response.provider);
                    assert(routed(
                        self.chain_when(selection, reachable),
                        model_override.deep_view(),
                        given,
                        0,
                    ) == routing_result(Ok(response)));
                    return Ok(response);
                },
                Err(error) => {
                    let ghost before = attempts.deep_view();
                    let attempt = failed_attempt(provider, error);
                    attempts.push(attempt);
                    assert(attempts.deep_view() =~= before.push(attempt.deep_view()));
                },
            }
            i += 1;
        }
        assert(spec_chain.take(i as int) == spec_chain);
        let failure = TranslateError::Routing(ProviderRoutingError { attempts });
        assert(attempts_follow(
            failure->Routing_0.attempts.deep_view(),
            self.chain_when(selection, reachable),
        ));
        assert(routed(
            self.chain_when(selection, reachable),
            model_override.deep_view(),
            given,
            0,
        ) == routing_result(Err(failure)));
        Err(failure)
    }
}

} // verus!
