//! What the two backends are asked, and where: the prompt, the
//! endpoints, and the words for a call that failed.

use crate::provider::{LlmClient, LlmTranslateRequest, LlmTranslateRequestView};
use crate::text::{chars_of, push_str, slice_of, string_of};
use vstd::prelude::*;

verus! {

/// How long the local provider may take to show that it is there.
pub const PROBE_TIMEOUT_SECS: u64 = 2;

/// How long the local provider may take over a translation.
pub const OLLAMA_TIMEOUT_SECS: u64 = 30;

/// How long the hosted provider may take over a translation.
pub const OPENAI_TIMEOUT_SECS: u64 = 45;

/// `s` without the slashes at its end.
pub open spec fn without_trailing_slashes(s: Seq<char>) -> Seq<char>
    decreases s.len(),
{
    if s.len() > 0 && s.last() == '/' {
        without_trailing_slashes(s.drop_last())
    } else {
        s
    }
}

/// The address of an endpoint under a base address.
pub open spec fn endpoint_spec(base_url: Seq<char>, path: Seq<char>) -> Seq<char> {
    without_trailing_slashes(base_url) + path
}

/// The address of the endpoint `path` under `base_url`, whose trailing
/// slashes do not count.
pub fn endpoint(base_url: &str, path: &str) -> (url: String)
    ensures
        url@ == endpoint_spec(base_url@, path@),
{
    let base = chars_of(base_url);
    let mut end: usize = base.len();
    assert(base@.take(end as int) == base@);
    while end > 0 && base[end - 1] == '/'
        invariant
            end <= base.len(),
            without_trailing_slashes(base@) == without_trailing_slashes(base@.take(end as int)),
        decreases end,
    {
        assert(base@.take(end as int).drop_last() == base@.take(end - 1));
        end -= 1;
    }
    let mut out = slice_of(&base, 0, end);
    push_str(&mut out, path);
    string_of(&out)
}

/// The prompt that a backend gets for a request.
pub open spec fn prompt_of(req: LlmTranslateRequestView) -> Seq<char> {
    "You are a strict transpiler. Return only runnable modern JavaScript (Node-style ESM), no prose.\\nSource id: "@
        + req.source_id + "\\nLanguage hint: "@ + (match req.language_hint {
        Some(hint) => hint,
        None => "unknown"@,
    }) + (match req.scope_context {
        Some(context) => "\\nSession context: "@ + context,
        None => Seq::empty(),
    }) + "\\nINPUT START\\n"@ + req.source_text + "\\nINPUT END"@
}

/// The prompt for a request: the instruction, the source identifier, the
/// language hint, the context of the session where there is one, and the
/// source between its markers.
pub fn build_prompt(req: &LlmTranslateRequest) -> (prompt: String)
    ensures
        prompt@ == prompt_of(req.deep_view()),
{
    let mut out: Vec<char> = Vec::new();
    push_str(
        &mut out,
        "You are a strict transpiler. Return only runnable modern JavaScript (Node-style ESM), no prose.\\nSource id: ",
    );
    push_str(&mut out, req.source_id.as_str());
    push_str(&mut out, "\\nLanguage hint: ");
    match &req.language_hint {
        Some(hint) => {
            push_str(&mut out, hint.as_str());
        },
        None => {
            push_str(&mut out, "unknown");
        },
    }
    match &req.scope_context {
        Some(context) => {
            push_str(&mut out, "\\nSession context: ");
            push_str(&mut out, context.as_str());
        },
        None => {},
    }
    push_str(&mut out, "\\nINPUT START\\n");
    push_str(&mut out, req.source_text.as_str());
    push_str(&mut out, "\\nINPUT END");
    assert(out@ =~= prompt_of(req.deep_view()));
    string_of(&out)
}

/// What is said of a call that a backend answered with a failure.
pub open spec fn request_failure_text(backend: Seq<char>, status: Seq<char>, body: Seq<char>) -> Seq<
    char,
> {
    backend + " request failed ("@ + status + "): "@ + body
}

/// What is said of a call that `backend` answered with the status
/// `status` and the body `body`.
pub fn request_failure(backend: &str, status: &str, body: &str) -> (text: String)
    ensures
        text@ == request_failure_text(backend@, status@, body@),
{
    let mut out: Vec<char> = Vec::new();
    push_str(&mut out, backend);
    push_str(&mut out, " request failed (");
    push_str(&mut out, status);
    push_str(&mut out, "): ");
    push_str(&mut out, body);
    string_of(&out)
}

/// The local model server, by its address.
#[derive(Debug, Clone, PartialEq, Eq)]
pub struct OllamaClient {
    pub base_url: String,
    pub timeout_secs: u64,
}

impl OllamaClient {
    /// The server at `base_url`, with the timeout of the probe.
    pub fn new(base_url: String) -> (r: Result<OllamaClient, String>)
        ensures
            r matches Ok(client) && client.base_url@ == base_url@ && client.timeout_secs
                == PROBE_TIMEOUT_SECS,
    {
        Ok(OllamaClient { base_url, timeout_secs: PROBE_TIMEOUT_SECS })
    }

    /// Where the server lists its models: what the probe asks for.
    pub fn tags_url(&self) -> (url: String)
        ensures
            url@ == endpoint_spec(self.base_url@, "/api/tags"@),
    {
        endpoint(self.base_url.as_str(), "/api/tags")
    }

    /// Where the server takes a prompt.
    pub fn generate_url(&self) -> (url: String)
        ensures
            url@ == endpoint_spec(self.base_url@, "/api/generate"@),
    {
        endpoint(self.base_url.as_str(), "/api/generate")
    }
}

/// The hosted completion API, by its address and credential.
#[derive(Debug, Clone, PartialEq, Eq)]
pub struct OpenAiCompatibleClient {
    pub base_url: String,
    pub api_key: String,
}

impl OpenAiCompatibleClient {
    /// The API at `base_url`, with its credential.
    pub fn from_parts(base_url: String, api_key: String) -> (client: OpenAiCompatibleClient)
        ensures
            client.base_url@ == base_url@,
            client.api_key@ == api_key@,
    {
        OpenAiCompatibleClient { base_url, api_key }
    }

    /// Where the API takes a conversation.
    pub fn chat_completions_url(&self) -> (url: String)
        ensures
            url@ == endpoint_spec(self.base_url@, "/chat/completions"@),
    {
        endpoint(self.base_url.as_str(), "/chat/completions")
    }
}

/// What the system is told before the prompt.
pub const OPENAI_SYSTEM_MESSAGE: &'static str =
    "You convert arbitrary source text into executable JavaScript. Return code only.";

/// The answer of the hosted API: the first of its choices.
pub fn first_choice(choices: Vec<String>) -> (r: Result<String, String>)
    ensures
        match r {
            Ok(content) => choices@.len() > 0 && content@ == choices@[0]@,
            Err(text) => choices@.len() == 0 && text@
                == "OpenAI-compatible response had no choices"@,
        },
{
    if choices.len() == 0 {
        Err("OpenAI-compatible response had no choices".to_string())
    } else {
        Ok(choices[0].clone())
    }
}

/// What a call fails with where the credential is missing.
pub open spec fn missing_key() -> Seq<char> {
    "OPENAI_API_KEY is required for OpenAI-compatible translation"@
}

/// A backend that is there only where its credential is.
pub struct MaybeClient<C: LlmClient> {
    pub inner: Option<C>,
}

impl<C: LlmClient> LlmClient for MaybeClient<C> {
    /// Hands the call on to the backend; without one, the call fails for
    /// want of the credential.
    fn translate_to_js(&self, req: &LlmTranslateRequest, model: &str) -> (r: Result<String, String>)
        ensures
            self.inner is None ==> (r matches Err(text) && text@ == missing_key()),
    {
        match &self.inner {
            Some(client) => client.translate_to_js(req, model),
            None => Err("OPENAI_API_KEY is required for OpenAI-compatible translation".to_string()),
        }
    }
}

} // verus!
