//! Source classification and the compile coordinator: pass JavaScript
//! through, answer from the cache where a candidate's entry is there, and
//! otherwise have the source translated and remember the answer.

use crate::cache::{cache_key, cache_key_spec};
use crate::provider::{
    LlmTranslateRequest, LlmTranslateRequestView, LlmTranslateResponse, LlmTranslateResponseView,
    Provider, ProviderDescriptor, ProviderDescriptorView, ProviderSelection, TranslateError,
    TranslationService, model_choice, resolved_model,
};
use crate::text::{
    chars_of, is_str, last_index_of, lowered, rfind_char, slice_of, string_of, to_ascii_lower,
};
use vstd::prelude::*;

verus! {

/// The version of the prompt format.  It is part of every cache key, so a
/// change of the prompt format leaves the old entries unused.
pub const PROMPT_VERSION: &'static str = "m1-v1";

/// The prompt version as text.
pub open spec fn prompt_version() -> Seq<char> {
    "m1-v1"@
}

/// What a source text is taken to be.
#[derive(Debug, Clone, PartialEq, Eq)]
pub enum SourceKind {
    JavaScript,
    TypeScript,
    /// Some other language, by its normalized name.
    Unknown(String),
    /// Not decided yet: to be inferred from the source identifier.
    Auto,
}

/// A kind as plain text.
pub enum SourceKindView {
    JavaScript,
    TypeScript,
    Unknown(Seq<char>),
    Auto,
}

impl DeepView for SourceKind {
    type V = SourceKindView;

    open spec fn deep_view(&self) -> SourceKindView {
        match self {
            SourceKind::JavaScript => SourceKindView::JavaScript,
            SourceKind::TypeScript => SourceKindView::TypeScript,
            SourceKind::Unknown(name) => SourceKindView::Unknown(name@),
            SourceKind::Auto => SourceKindView::Auto,
        }
    }
}

/// The kind that a lower-case token names.
pub open spec fn kind_of_token(token: Seq<char>) -> SourceKindView {
    if token == "js"@ || token == "mjs"@ || token == "cjs"@ || token == "javascript"@ {
        SourceKindView::JavaScript
    } else if token == "ts"@ || token == "typescript"@ {
        SourceKindView::TypeScript
    } else if token == "auto"@ {
        SourceKindView::Auto
    } else {
        SourceKindView::Unknown(token)
    }
}

/// The kind that a language hint names, whatever its case.
pub open spec fn kind_from_hint(hint: Seq<char>) -> SourceKindView {
    kind_of_token(lowered(hint))
}

/// The kind that a source identifier stands for: what follows its last
/// `.` is read as a hint; without a `.` the kind is unknown.
pub open spec fn kind_from_source_id(source_id: Seq<char>) -> SourceKindView {
    match last_index_of(source_id, '.') {
        Some(dot) => kind_from_hint(source_id.skip(dot + 1)),
        None => SourceKindView::Unknown("unknown"@),
    }
}

/// The canonical hint of a kind.
pub open spec fn hint_of_kind(kind: SourceKindView) -> Seq<char> {
    match kind {
        SourceKindView::JavaScript => "javascript"@,
        SourceKindView::TypeScript => "typescript"@,
        SourceKindView::Unknown(name) => name,
        SourceKindView::Auto => "auto"@,
    }
}

impl SourceKind {
    /// The kind that a language hint names.  Case does not count; a hint
    /// that names no known kind is kept, in lower case, as the name of an
    /// unknown one.
    pub fn from_hint(hint: &str) -> (kind: SourceKind)
        ensures
            kind.deep_view() == kind_from_hint(hint@),
    {
        let token = to_ascii_lower(&chars_of(hint));
        if is_str(&token, "js") || is_str(&token, "mjs") || is_str(&token, "cjs") || is_str(
            &token,
            "javascript",
        ) {
            SourceKind::JavaScript
        } else if is_str(&token, "ts") || is_str(&token, "typescript") {
            SourceKind::TypeScript
        } else if is_str(&token, "auto") {
            SourceKind::Auto
        } else {
            SourceKind::Unknown(string_of(&token))
        }
    }

    /// The kind that a source identifier stands for, told from what
    /// follows its last `.`.
    pub fn infer_from_source_id(source_id: &str) -> (kind: SourceKind)
        ensures
            kind.deep_view() == kind_from_source_id(source_id@),
    {
        let id = chars_of(source_id);
        match rfind_char(&id, '.') {
            Some(dot) => {
                let ext = slice_of(&id, dot + 1, id.len());
                let ext = string_of(&ext);
                SourceKind::from_hint(ext.as_str())
            },
            None => SourceKind::Unknown("unknown".to_string()),
        }
    }

    /// The canonical hint: the string that is sent to providers as the
    /// language hint and that enters the cache key.
    pub fn as_hint(&self) -> (hint: String)
        ensures
            hint@ == hint_of_kind(self.deep_view()),
    {
        match self {
            SourceKind::JavaScript => "javascript".to_string(),
            SourceKind::TypeScript => "typescript".to_string(),
            SourceKind::Unknown(name) => name.clone(),
            SourceKind::Auto => "auto".to_string(),
        }
    }

    /// A copy of this kind.
    pub fn duplicate(&self) -> (kind: SourceKind)
        ensures
            kind.deep_view() == self.deep_view(),
    {
        match self {
            SourceKind::JavaScript => SourceKind::JavaScript,
            SourceKind::TypeScript => SourceKind::TypeScript,
            SourceKind::Unknown(name) => SourceKind::Unknown(name.clone()),
            SourceKind::Auto => SourceKind::Auto,
        }
    }
}

/// A copy of an optional string.
pub fn copy_optional(value: &Option<String>) -> (r: Option<String>)
    ensures
        r.deep_view() == value.deep_view(),
{
    match value {
        Some(s) => Some(s.clone()),
        None => None,
    }
}

// ---------------------------------------------------------------------------
// Requests and results
// ---------------------------------------------------------------------------

/// One source text to be turned into JavaScript, with the caller's
/// options already resolved.
#[derive(Debug, Clone)]
pub struct CompileRequest {
    pub source_text: String,
    pub source_id: String,
    pub kind_hint: Option<SourceKind>,
    pub language_hint: Option<String>,
    pub scope_context: Option<String>,
    pub force_llm: bool,
    pub provider_selection: ProviderSelection,
    pub model_override: Option<String>,
    pub no_cache: bool,
}

/// A request as plain text.
pub struct CompileRequestView {
    pub source_text: Seq<char>,
    pub source_id: Seq<char>,
    pub kind_hint: Option<SourceKindView>,
    pub language_hint: Option<Seq<char>>,
    pub scope_context: Option<Seq<char>>,
    pub force_llm: bool,
    pub provider_selection: ProviderSelection,
    pub model_override: Option<Seq<char>>,
    pub no_cache: bool,
}

impl DeepView for CompileRequest {
    type V = CompileRequestView;

    open spec fn deep_view(&self) -> CompileRequestView {
        CompileRequestView {
            source_text: self.source_text@,
            source_id: self.source_id@,
            kind_hint: self.kind_hint.deep_view(),
            language_hint: self.language_hint.deep_view(),
            scope_context: self.scope_context.deep_view(),
            force_llm: self.force_llm,
            provider_selection: self.provider_selection,
            model_override: self.model_override.deep_view(),
            no_cache: self.no_cache,
        }
    }
}

/// Where a result came from.
#[derive(Debug, Clone, PartialEq, Eq)]
pub struct CompileMetadata {
    pub provider: Option<Provider>,
    pub model: Option<String>,
    pub prompt_version: String,
    pub cache_hit: bool,
}

/// The metadata of a result as plain text.
pub struct CompileMetadataView {
    pub provider: Option<Provider>,
    pub model: Option<Seq<char>>,
    pub prompt_version: Seq<char>,
    pub cache_hit: bool,
}

impl DeepView for CompileMetadata {
    type V = CompileMetadataView;

    open spec fn deep_view(&self) -> CompileMetadataView {
        CompileMetadataView {
            provider: self.provider,
            model: self.model.deep_view(),
            prompt_version: self.prompt_version@,
            cache_hit: self.cache_hit,
        }
    }
}

/// The JavaScript that a request came to.
#[derive(Debug, Clone, PartialEq, Eq)]
pub struct CompileResult {
    pub javascript: String,
    pub metadata: CompileMetadata,
}

/// A result as plain text.
pub struct CompileResultView {
    pub javascript: Seq<char>,
    pub metadata: CompileMetadataView,
}

impl DeepView for CompileResult {
    type V = CompileResultView;

    open spec fn deep_view(&self) -> CompileResultView {
        CompileResultView {
            javascript: self.javascript@,
            metadata: self.metadata.deep_view(),
        }
    }
}

/// Why a compile failed.
#[derive(Debug, Clone, PartialEq, Eq)]
pub enum CompileError {
    /// The translation failed; the error is handed on as it came.
    Translate(TranslateError),
    /// The translation succeeded and the cache could not be written; the
    /// text is the cache's report.
    CacheWrite(String),
}

impl CompileError {
    /// What this error says.
    pub open spec fn message_spec(self) -> Seq<char> {
        match self {
            CompileError::Translate(e) => e.message_spec(),
            CompileError::CacheWrite(text) => text@,
        }
    }

    /// What this error says.
    pub fn message(&self) -> (r: String)
        ensures
            r@ == self.message_spec(),
    {
        match self {
            CompileError::Translate(e) => e.message(),
            CompileError::CacheWrite(text) => text.clone(),
        }
    }
}

/// Whatever compiles a request.
pub trait Compiler {
    /// Whether this compiler may answer `result` to the request `req`.
    /// Each compiler says for itself what it may answer; one that says
    /// nothing may answer anything.
    open spec fn compiles(
        &self,
        req: CompileRequestView,
        result: Result<CompileResult, CompileError>,
    ) -> bool {
        true
    }

    fn compile(&self, req: &CompileRequest) -> (r: Result<CompileResult, CompileError>)
        ensures
            self.compiles(req.deep_view(), r),
    ;
}

/// An advisory store of earlier results.  A `get` that cannot read or
/// understand an entry answers `None`; `Err` of `put` holds the store's
/// report.
pub trait CompileCache {
    /// Whether this store may answer `entry` when it is asked for `key`.
    /// Each store says for itself what it may answer; one that says
    /// nothing may answer anything.
    open spec fn finds(&self, key: Seq<char>, entry: Option<CompileResult>) -> bool {
        true
    }

    fn get(&self, key: &str) -> (r: Option<CompileResult>)
        ensures
            self.finds(key@, r),
    ;

    fn put(&self, key: &str, result: &CompileResult) -> Result<(), String>;
}

// ---------------------------------------------------------------------------
// The rules of one compile
// ---------------------------------------------------------------------------

/// The kind of a request: its explicit hint, or else what its source
/// identifier stands for.
pub open spec fn resolved_kind(req: CompileRequestView) -> SourceKindView {
    match req.kind_hint {
        None | Some(SourceKindView::Auto) => kind_from_source_id(req.source_id),
        Some(explicit) => explicit,
    }
}

/// The language hint of a request: the explicit one, or else the
/// canonical hint of its kind.
pub open spec fn effective_hint(req: CompileRequestView) -> Seq<char> {
    match req.language_hint {
        Some(hint) => hint,
        None => hint_of_kind(resolved_kind(req)),
    }
}

/// Whether a request goes to a provider: always when forced, and else
/// whenever its kind is not JavaScript.
pub open spec fn needs_llm(req: CompileRequestView) -> bool {
    req.force_llm || !(resolved_kind(req) is JavaScript)
}

/// The result for a request that needs no provider: the source as it is.
pub open spec fn passthrough(req: CompileRequestView) -> CompileResultView {
    CompileResultView {
        javascript: req.source_text,
        metadata: CompileMetadataView {
            provider: None,
            model: None,
            prompt_version: prompt_version(),
            cache_hit: false,
        },
    }
}

/// The result built from a provider's answer.
pub open spec fn fresh_result(response: LlmTranslateResponseView) -> CompileResultView {
    CompileResultView {
        javascript: response.javascript,
        metadata: CompileMetadataView {
            provider: Some(response.provider),
            model: Some(response.model),
            prompt_version: prompt_version(),
            cache_hit: false,
        },
    }
}

/// What is handed to the translation service for a request.
pub open spec fn translate_request(req: CompileRequestView) -> LlmTranslateRequestView {
    LlmTranslateRequestView {
        source_text: req.source_text,
        source_id: req.source_id,
        language_hint: Some(effective_hint(req)),
        scope_context: req.scope_context,
    }
}

/// The key under which a request looks for a candidate's earlier answer.
pub open spec fn lookup_key(req: CompileRequestView, provider: Provider, model: Seq<char>) -> Seq<
    char,
> {
    cache_key_spec(
        req.source_text,
        req.source_id,
        effective_hint(req),
        provider,
        model_choice(req.model_override, model),
    )
}

/// The keys under which a request looks for an earlier answer: one for
/// each candidate of the chain, in the chain's order.
pub open spec fn lookup_keys(req: CompileRequestView, chain: Seq<ProviderDescriptorView>) -> Seq<
    Seq<char>,
> {
    Seq::new(chain.len(), |i: int| lookup_key(req, chain[i].provider, chain[i].model))
}

/// The key under which a provider's answer to a request is stored.
pub open spec fn store_key(req: CompileRequestView, response: LlmTranslateResponseView) -> Seq<
    char,
> {
    cache_key_spec(
        req.source_text,
        req.source_id,
        effective_hint(req),
        response.provider,
        response.model,
    )
}

/// An answer is stored where the next identical request looks for it:
/// under the key of the candidate that answered, with the model that was
/// really used.
pub proof fn lemma_stored_where_looked_up(
    req: CompileRequestView,
    response: LlmTranslateResponseView,
    candidate_model: Seq<char>,
)
    requires
        response.model == model_choice(req.model_override, candidate_model),
    ensures
        store_key(req, response) == lookup_key(req, response.provider, candidate_model),
{
}

impl CompileRequest {
    /// The kind of the request: its explicit hint, or else what its source
    /// identifier stands for.
    pub fn resolved_kind(&self) -> (kind: SourceKind)
        ensures
            kind.deep_view() == resolved_kind(self.deep_view()),
    {
        match &self.kind_hint {
            None => SourceKind::infer_from_source_id(self.source_id.as_str()),
            Some(SourceKind::Auto) => SourceKind::infer_from_source_id(self.source_id.as_str()),
            Some(explicit) => explicit.duplicate(),
        }
    }

    /// The language hint of the request: the explicit one, or else the
    /// canonical hint of its kind.
    pub fn effective_hint(&self) -> (hint: String)
        ensures
            hint@ == effective_hint(self.deep_view()),
    {
        match &self.language_hint {
            Some(hint) => hint.clone(),
            None => self.resolved_kind().as_hint(),
        }
    }

    /// Whether the request goes to a provider.
    pub fn needs_llm(&self) -> (r: bool)
        ensures
            r == needs_llm(self.deep_view()),
    {
        if self.force_llm {
            return true;
        }
        match self.resolved_kind() {
            SourceKind::JavaScript => false,
            _ => true,
        }
    }

    /// The result for a request that needs no provider.
    pub fn passthrough(&self) -> (result: CompileResult)
        ensures
            result.deep_view() == passthrough(self.deep_view()),
    {
        CompileResult {
            javascript: self.source_text.clone(),
            metadata: CompileMetadata {
                provider: None,
                model: None,
                prompt_version: PROMPT_VERSION.to_string(),
                cache_hit: false,
            },
        }
    }

    /// What is handed to the translation service.
    pub fn translate_request(&self) -> (r: LlmTranslateRequest)
        ensures
            r.deep_view() == translate_request(self.deep_view()),
    {
        LlmTranslateRequest {
            source_text: self.source_text.clone(),
            source_id: self.source_id.clone(),
            language_hint: Some(self.effective_hint()),
            scope_context: copy_optional(&self.scope_context),
        }
    }

    /// The key under which this request looks for a candidate's earlier
    /// answer.
    pub fn lookup_key(&self, candidate: &ProviderDescriptor) -> (key: String)
        ensures
            key@ == lookup_key(self.deep_view(), candidate.provider, candidate.model@),
    {
        let hint = self.effective_hint();
        let model = match &self.model_override {
            Some(m) => resolved_model(Some(m.as_str()), candidate.model.as_str()),
            None => resolved_model(None, candidate.model.as_str()),
        };
        cache_key(
            self.source_text.as_str(),
            self.source_id.as_str(),
            hint.as_str(),
            candidate.provider,
            model.as_str(),
        )
    }

    /// The keys under which this request looks for an earlier answer: one
    /// for each candidate of the chain, in the chain's order.
    pub fn lookup_keys(&self, chain: &Vec<ProviderDescriptor>) -> (keys: Vec<String>)
        ensures
            keys.deep_view() == lookup_keys(self.deep_view(), chain.deep_view()),
    {
        let mut keys: Vec<String> = Vec::new();
        let mut i: usize = 0;
        assert(keys.deep_view() =~= lookup_keys(self.deep_view(), chain.deep_view()).take(0));
        while i < chain.len()
            invariant
                i <= chain.len(),
                keys.deep_view() == lookup_keys(self.deep_view(), chain.deep_view()).take(i as int),
            decreases chain.len() - i,
        {
            let ghost before = keys.deep_view();
            let key = self.lookup_key(&chain[i]);
            keys.push(key);
            assert(keys.deep_view() =~= before.push(key@));
            assert(chain.deep_view()[i as int] == chain@[i as int].deep_view());
            assert(before.push(key@) =~= lookup_keys(self.deep_view(), chain.deep_view()).take(
                i + 1,
            ));
            i += 1;
        }
        assert(lookup_keys(self.deep_view(), chain.deep_view()).take(chain.len() as int)
            =~= lookup_keys(self.deep_view(), chain.deep_view()));
        keys
    }

    /// The key under which a provider's answer to this request is stored.
    pub fn store_key(&self, response: &LlmTranslateResponse) -> (key: String)
        ensures
            key@ == store_key(self.deep_view(), response.deep_view()),
    {
        let hint = self.effective_hint();
        cache_key(
            self.source_text.as_str(),
            self.source_id.as_str(),
            hint.as_str(),
            response.provider,
            response.model.as_str(),
        )
    }
}

impl CompileResult {
    /// The result built from a provider's answer.
    pub fn fresh(response: LlmTranslateResponse) -> (result: CompileResult)
        ensures
            result.deep_view() == fresh_result(response.deep_view()),
    {
        CompileResult {
            javascript: response.javascript,
            metadata: CompileMetadata {
                provider: Some(response.provider),
                model: Some(response.model),
                prompt_version: PROMPT_VERSION.to_string(),
                cache_hit: false,
            },
        }
    }
}

/// Whether a result has the shape of one built from a provider's answer.
pub open spec fn is_fresh(result: CompileResultView) -> bool {
    exists|response: LlmTranslateResponseView| result == #[trigger] fresh_result(response)
}

// ---------------------------------------------------------------------------
// The coordinator
// ---------------------------------------------------------------------------

/// Compiles requests with a translation service and a cache.
pub struct CompilerRouter<T, C> where T: TranslationService, C: CompileCache {
    pub translator: T,
    pub cache: C,
}

impl<T, C> CompilerRouter<T, C> where T: TranslationService, C: CompileCache {
    /// The kind of the request: its explicit hint, or else what its source
    /// identifier stands for.
    pub fn resolved_kind(&self, req: &CompileRequest) -> (kind: SourceKind)
        ensures
            kind.deep_view() == resolved_kind(req.deep_view()),
    {
        req.resolved_kind()
    }

    /// Whether the cache answered with a miss for each of the first `n`
    /// keys.
    pub open spec fn missed(&self, keys: Seq<Seq<char>>, n: int) -> bool {
        forall|k: int| 0 <= k < n ==> self.cache.finds(#[trigger] keys[k], None)
    }

    /// Whether `result` is what the cache answered under the lookup key of
    /// a candidate of some chain, after it had answered with a miss for
    /// every candidate before that one.
    pub open spec fn is_hit(&self, req: CompileRequestView, result: CompileResult) -> bool {
        exists|chain: Seq<ProviderDescriptorView>, i: int|
            0 <= i < chain.len() && self.missed(lookup_keys(req, chain), i)
                && #[trigger] self.cache.finds(lookup_keys(req, chain)[i], Some(result))
    }

    /// The first entry that the cache holds under one of the keys, in
    /// their order: the keys are asked for one after the other, and what
    /// the cache answers first is returned as it is.  Nothing is returned
    /// only where the cache answered with a miss for every key.
    fn first_hit(&self, keys: &Vec<String>) -> (r: Option<CompileResult>)
        ensures
            match r {
                Some(hit) => exists|i: int|
                    0 <= i < keys@.len() && self.missed(keys.deep_view(), i)
                        && #[trigger] self.cache.finds(keys.deep_view()[i], Some(hit)),
                None => self.missed(keys.deep_view(), keys@.len() as int),
            },
    {
        let mut i: usize = 0;
        while i < keys.len()
            invariant
                i <= keys.len(),
                self.missed(keys.deep_view(), i as int),
            decreases keys.len() - i,
        {
            assert(keys.deep_view()[i as int] == keys@[i as int]@);
            if let Some(cached) = self.cache.get(keys[i].as_str()) {
                assert(self.cache.finds(keys.deep_view()[i as int], Some(cached)));
                return Some(cached);
            }
            i += 1;
        }
        None
    }
}

impl<T, C> Compiler for CompilerRouter<T, C> where T: TranslationService, C: CompileCache {
    /// What this compiler may answer: to a request that needs no provider,
    /// nothing but its own source; to any other, no success but one built
    /// from a provider's answer or, with caching on, what the cache
    /// answered first for a candidate of the chain; and a failure to write
    /// the cache only with caching on.
    open spec fn compiles(
        &self,
        req: CompileRequestView,
        result: Result<CompileResult, CompileError>,
    ) -> bool {
        &&& !needs_llm(req) ==> (result matches Ok(r) && r.deep_view() == passthrough(req))
        &&& needs_llm(req) ==> (result matches Ok(r) ==> is_fresh(r.deep_view()) || (!req.no_cache
            && self.is_hit(req, r)))
        &&& result matches Err(CompileError::CacheWrite(_)) ==> needs_llm(req) && !req.no_cache
    }

    /// Compiles one request.
    ///
    /// A request that needs no provider is answered with its own source.
    /// Any other is answered from the cache where caching is on and the
    /// cache holds an entry for a candidate of the chain; else the source
    /// is translated, and, where caching is on, the answer is stored under
    /// the key of the provider and model that gave it.  A translation
    /// failure is handed on as it came, and nothing is stored after one.
    /// So a success is either built from a provider's answer or, with
    /// caching on, what the cache answered first for a candidate.
    fn compile(&self, req: &CompileRequest) -> (r: Result<CompileResult, CompileError>)
        ensures
            !needs_llm(req.deep_view()) ==> (r matches Ok(result) && result.deep_view()
                == passthrough(req.deep_view())),
            needs_llm(req.deep_view()) && req.no_cache ==> (r matches Ok(result) ==> is_fresh(
                result.deep_view(),
            )),
            needs_llm(req.deep_view()) ==> (r matches Ok(result) ==> is_fresh(result.deep_view())
                || (!req.no_cache && self.is_hit(req.deep_view(), result))),
            r matches Err(CompileError::CacheWrite(_)) ==> needs_llm(req.deep_view())
                && !req.no_cache,
    {
        if !req.needs_llm() {
            return Ok(req.passthrough());
        }
        if !req.no_cache {
            let chain = self.translator.candidate_chain(req.provider_selection);
            let keys = req.lookup_keys(&chain);
            if let Some(cached) = self.first_hit(&keys) {
                assert(self.is_hit(req.deep_view(), cached)) by {
                    let i = choose|i: int|
                        0 <= i < keys@.len() && self.missed(keys.deep_view(), i)
                            && #[trigger] self.cache.finds(keys.deep_view()[i], Some(cached));
                    let looked = lookup_keys(req.deep_view(), chain.deep_view());
                    assert(keys.deep_view() == looked);
                    assert(looked.len() == chain.deep_view().len());
                    assert(keys.deep_view().len() == keys@.len());
                    assert(0 <= i < chain.deep_view().len());
                    assert(self.missed(looked, i));
                    assert(self.cache.finds(looked[i], Some(cached)));
                }
                return Ok(cached);
            }
        }
        let request = req.translate_request();
        let answer = match &req.model_override {
            Some(m) => self.translator.translate(req.provider_selection, &request, Some(m.as_str())),
            None => self.translator.translate(req.provider_selection, &request, None),
        };
        let translated = match answer {
            Ok(translated) => translated,
            Err(e) => { return Err(CompileError::Translate(e)); },
        };
        let key = if req.no_cache {
            None
        } else {
            Some(req.store_key(&translated))
        };
        let result = CompileResult::fresh(translated);
        if let Some(key) = key {
            if let Err(report) = self.cache.put(key.as_str(), &result) {
                return Err(CompileError::CacheWrite(report));
            }
        }
        Ok(result)
    }
}

} // verus!
