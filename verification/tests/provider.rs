use klumo::provider::{
    chain_for, normalize_js_output, LlmClient, LlmTranslateRequest, NormalizeError, Provider,
    ProviderDescriptor, ProviderRouter, ProviderSelection, ReachabilityProbe, TranslateError,
    TranslationService,
};

struct StubClient {
    fail: bool,
    output: String,
}

impl LlmClient for StubClient {
    fn translate_to_js(&self, _req: &LlmTranslateRequest, _model: &str) -> Result<String, String> {
        if self.fail {
            return Err("stub failure".to_string());
        }
        Ok(self.output.clone())
    }
}

struct Probe(bool);

impl ReachabilityProbe for Probe {
    fn ollama_reachable(&self) -> bool {
        self.0
    }
}

fn req() -> LlmTranslateRequest {
    LlmTranslateRequest {
        source_text: "write 1".to_string(),
        source_id: "sample.pseudo".to_string(),
        language_hint: Some("pseudo".to_string()),
        scope_context: None,
    }
}

fn router(
    ollama_fails: bool,
    ollama_output: &str,
    openai_fails: bool,
    openai_output: &str,
    reachable: bool,
) -> ProviderRouter<StubClient, StubClient, Probe> {
    ProviderRouter {
        ollama: StubClient { fail: ollama_fails, output: ollama_output.to_string() },
        openai: StubClient { fail: openai_fails, output: openai_output.to_string() },
        reachability: Probe(reachable),
        ollama_model: "ollama-model".to_string(),
        openai_model: "openai-model".to_string(),
    }
}

#[test]
fn strips_fence() {
    let out = normalize_js_output("```js\n1+1\n```").expect("normalize should pass");
    assert_eq!(out, "1+1");
}

#[test]
fn rejects_empty() {
    let err = normalize_js_output("  ").expect_err("must fail");
    assert!(err.message().contains("empty"));
}

#[test]
fn auto_prefers_ollama_when_reachable() {
    let router = router(false, "1", false, "2", true);
    let chain = router.candidate_chain(ProviderSelection::Auto);
    assert_eq!(chain[0].provider, Provider::Ollama);
}

#[test]
fn auto_falls_back_to_openai_on_ollama_failure() {
    let router = router(true, "", false, "3", true);
    let response = router
        .translate(ProviderSelection::Auto, &req(), None)
        .expect("fallback should work");
    assert_eq!(response.provider, Provider::OpenAiCompatible);
    assert_eq!(response.javascript, "3");
}

#[test]
fn explicit_provider_bypasses_auto() {
    let router = router(false, "1", false, "9", true);
    let chain = router.candidate_chain(ProviderSelection::OpenAiCompatible);
    assert_eq!(
        chain,
        vec![ProviderDescriptor {
            provider: Provider::OpenAiCompatible,
            model: "openai-model".to_string()
        }]
    );

    let response = router
        .translate(ProviderSelection::OpenAiCompatible, &req(), None)
        .expect("openai path should work");
    assert_eq!(response.provider, Provider::OpenAiCompatible);
    assert_eq!(response.javascript, "9");
}

#[test]
fn auto_without_local_provider_is_cloud_only() {
    let chain = router(false, "1", false, "2", false).candidate_chain(ProviderSelection::Auto);
    assert_eq!(
        chain,
        vec![ProviderDescriptor {
            provider: Provider::OpenAiCompatible,
            model: "openai-model".to_string()
        }]
    );
    assert_eq!(chain_for(ProviderSelection::Auto, false, "a", "b").len(), 1);
    let both = chain_for(ProviderSelection::Auto, true, "a", "b");
    assert_eq!(both.len(), 2);
    assert_eq!(both[0].provider, Provider::Ollama);
    assert_eq!(both[0].model, "a");
    assert_eq!(both[1].provider, Provider::OpenAiCompatible);
    assert_eq!(both[1].model, "b");
}

#[test]
fn normalization_keeps_clean_code_and_fence_interiors() {
    assert_eq!(normalize_js_output("console.log(1);"), Ok("console.log(1);".to_string()));
    assert_eq!(normalize_js_output("  let a = 1;\n"), Ok("let a = 1;".to_string()));
    assert_eq!(
        normalize_js_output("Here you go:\n```javascript\nlet a = 1;\nlet b = 2;\n```\nDone.\n```js\nx\n```"),
        Ok("let a = 1;\nlet b = 2;".to_string())
    );
    assert_eq!(normalize_js_output(""), Err(NormalizeError::Empty));
    assert_eq!(normalize_js_output(" \t\r\n\u{a0}\u{3000}"), Err(NormalizeError::Empty));
    assert_eq!(normalize_js_output("```js\n  \n```"), Err(NormalizeError::EmptyFence));
    assert_eq!(NormalizeError::EmptyFence.message(), "LLM returned empty fenced output");
    assert_eq!(NormalizeError::Empty.message(), "LLM returned empty output");
    // An opening marker without a closing one is no block.
    assert_eq!(normalize_js_output("```js\nlet a = 1;"), Ok("```js\nlet a = 1;".to_string()));
    // Normalizing what normalization returned changes nothing.
    let once = normalize_js_output("  ```\n  f();  \n```").expect("first");
    assert_eq!(once, "f();");
    assert_eq!(normalize_js_output(&once), Ok(once.clone()));
}

#[test]
fn every_candidate_failing_reports_each_attempt_in_order() {
    let router = router(true, "", false, "   ", true);
    let err = router
        .translate(ProviderSelection::Auto, &req(), Some("override"))
        .expect_err("both fail");
    match &err {
        TranslateError::Routing(e) => {
            assert_eq!(e.attempts.len(), 2);
            assert_eq!(e.attempts[0].provider, Provider::Ollama);
            assert_eq!(e.attempts[0].stage, "translate");
            assert_eq!(e.attempts[0].error, "stub failure");
            assert_eq!(e.attempts[1].provider, Provider::OpenAiCompatible);
            assert_eq!(e.attempts[1].error, "LLM returned empty output");
        }
        other => panic!("unexpected error {other:?}"),
    }
    assert_eq!(
        err.message(),
        "LLM routing failed after [ProviderAttempt { provider: Ollama, stage: \"translate\", error: \"stub failure\" }, ProviderAttempt { provider: OpenAiCompatible, stage: \"translate\", error: \"LLM returned empty output\" }]"
    );
}

#[test]
fn model_override_takes_precedence_over_the_candidate_model() {
    let router = router(false, "1", false, "2", true);
    let with = router
        .translate(ProviderSelection::Auto, &req(), Some("special"))
        .expect("ok");
    assert_eq!(with.provider, Provider::Ollama);
    assert_eq!(with.model, "special");
    let without = router.translate(ProviderSelection::Auto, &req(), None).expect("ok");
    assert_eq!(without.model, "ollama-model");
}
