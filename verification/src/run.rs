//! Running one source: the options of a run, the compile request that
//! they make, and what is reported of a run.

use crate::compiler::{
    copy_optional, CompileError, CompileRequest, CompileRequestView, CompileResult,
    CompileResultView, Compiler, SourceKind, SourceKindView, kind_from_hint,
};
use crate::config::{ProgressSetting, ProviderSetting, RunDefaults, RunDefaultsView};
use crate::engine::{EngineError, EvalOutput, JsEngine};
use crate::provider::{
    debug_quoted, provider_name, provider_name_of, quote_debug, ProviderSelection,
};
use crate::text::{chars_of, lowered, push_all, push_str, string_of, to_ascii_lower};
use vstd::prelude::*;

verus! {

/// How much a run reports of its progress.
#[derive(Debug, Clone, Copy, PartialEq, Eq, Structural)]
pub enum ProgressMode {
    Silent,
    Minimal,
    Verbose,
}

/// The options of a run, already resolved.
#[derive(Debug, Clone)]
pub struct RunOptions {
    pub kind_hint: Option<SourceKind>,
    pub language_hint: Option<String>,
    pub force_llm: bool,
    pub no_cache: bool,
    pub print_js: bool,
    pub provider_selection: ProviderSelection,
    pub model_override: Option<String>,
    pub progress_mode: ProgressMode,
}

/// The options of a run as plain text.
pub struct RunOptionsView {
    pub kind_hint: Option<SourceKindView>,
    pub language_hint: Option<Seq<char>>,
    pub force_llm: bool,
    pub no_cache: bool,
    pub print_js: bool,
    pub provider_selection: ProviderSelection,
    pub model_override: Option<Seq<char>>,
    pub progress_mode: ProgressMode,
}

impl DeepView for RunOptions {
    type V = RunOptionsView;

    open spec fn deep_view(&self) -> RunOptionsView {
        RunOptionsView {
            kind_hint: self.kind_hint.deep_view(),
            language_hint: self.language_hint.deep_view(),
            force_llm: self.force_llm,
            no_cache: self.no_cache,
            print_js: self.print_js,
            provider_selection: self.provider_selection,
            model_override: self.model_override.deep_view(),
            progress_mode: self.progress_mode,
        }
    }
}

/// A run that went through: what was compiled and what it evaluated to.
#[derive(Debug, Clone, PartialEq, Eq)]
pub struct RunOutcome {
    pub compile: CompileResult,
    pub eval: EvalOutput,
}

/// Why a run failed.
#[derive(Debug, Clone, PartialEq, Eq)]
pub enum RunError {
    Compile(CompileError),
    Engine(EngineError),
}

impl RunError {
    /// What this error says.
    pub open spec fn message_spec(self) -> Seq<char> {
        match self {
            RunError::Compile(e) => e.message_spec(),
            RunError::Engine(e) => e.message@,
        }
    }

    /// What this error says.
    pub fn message(&self) -> (r: String)
        ensures
            r@ == self.message_spec(),
    {
        match self {
            RunError::Compile(e) => e.message(),
            RunError::Engine(e) => e.message.clone(),
        }
    }
}

// ---------------------------------------------------------------------------
// From settings to options
// ---------------------------------------------------------------------------

/// The selection that a provider setting stands for.
pub open spec fn selection_of(provider: ProviderSetting) -> ProviderSelection {
    match provider {
        ProviderSetting::Auto => ProviderSelection::Auto,
        ProviderSetting::Ollama => ProviderSelection::Ollama,
        ProviderSetting::Openai => ProviderSelection::OpenAiCompatible,
    }
}

/// The selection that a provider setting stands for.
pub fn provider_to_selection(provider: ProviderSetting) -> (r: ProviderSelection)
    ensures
        r == selection_of(provider),
{
    match provider {
        ProviderSetting::Auto => ProviderSelection::Auto,
        ProviderSetting::Ollama => ProviderSelection::Ollama,
        ProviderSetting::Openai => ProviderSelection::OpenAiCompatible,
    }
}

/// The progress mode of a run: what was asked for, and where nothing was
/// asked for, `Verbose` for a verbose run and `Minimal` for any other.
pub open spec fn progress_mode_of(progress: ProgressSetting, verbose: bool) -> ProgressMode {
    match progress {
        ProgressSetting::Silent => ProgressMode::Silent,
        ProgressSetting::Verbose => ProgressMode::Verbose,
        ProgressSetting::Auto => if verbose {
            ProgressMode::Verbose
        } else {
            ProgressMode::Minimal
        },
    }
}

/// The progress mode of a run.
pub fn resolved_progress_mode(progress: ProgressSetting, verbose: bool) -> (r: ProgressMode)
    ensures
        r == progress_mode_of(progress, verbose),
{
    match progress {
        ProgressSetting::Silent => ProgressMode::Silent,
        ProgressSetting::Verbose => ProgressMode::Verbose,
        ProgressSetting::Auto => {
            if verbose {
                ProgressMode::Verbose
            } else {
                ProgressMode::Minimal
            }
        },
    }
}

/// The kind that the language setting names, where there is one.
pub open spec fn kind_of_lang(lang: Option<Seq<char>>) -> Option<SourceKindView> {
    match lang {
        Some(l) => Some(kind_from_hint(l)),
        None => None,
    }
}

/// The kind that the language setting names, where there is one.
pub fn parse_kind_hint(lang: Option<&str>) -> (r: Option<SourceKind>)
    ensures
        r.deep_view() == kind_of_lang(lang.deep_view()),
{
    match lang {
        Some(l) => Some(SourceKind::from_hint(l)),
        None => None,
    }
}

/// The options that resolved settings make.
pub open spec fn run_options_of(resolved: RunDefaultsView, model_override: Option<Seq<char>>) -> RunOptionsView {
    RunOptionsView {
        kind_hint: kind_of_lang(resolved.lang),
        language_hint: resolved.lang,
        force_llm: resolved.force_llm,
        no_cache: resolved.no_cache,
        print_js: resolved.print_js,
        provider_selection: selection_of(resolved.provider),
        model_override,
        progress_mode: progress_mode_of(resolved.progress, resolved.verbose),
    }
}

/// The options that resolved settings make, with the model that the
/// command line asked for.
pub fn build_run_options(resolved: &RunDefaults, model_override: Option<String>) -> (r: RunOptions)
    ensures
        r.deep_view() == run_options_of(resolved@, model_override.deep_view()),
{
    let kind_hint = match &resolved.lang {
        Some(l) => parse_kind_hint(Some(l.as_str())),
        None => parse_kind_hint(None),
    };
    RunOptions {
        kind_hint,
        language_hint: copy_optional(&resolved.lang),
        force_llm: resolved.force_llm,
        no_cache: resolved.no_cache,
        print_js: resolved.print_js,
        provider_selection: provider_to_selection(resolved.provider),
        model_override,
        progress_mode: resolved_progress_mode(resolved.progress, resolved.verbose),
    }
}

// ---------------------------------------------------------------------------
// Compiling and running a source
// ---------------------------------------------------------------------------

/// The compile request for a source under the options of a run.
pub open spec fn source_request(
    source: Seq<char>,
    source_id: Seq<char>,
    options: RunOptionsView,
) -> CompileRequestView {
    CompileRequestView {
        source_text: source,
        source_id,
        kind_hint: options.kind_hint,
        language_hint: options.language_hint,
        scope_context: None,
        force_llm: options.force_llm,
        provider_selection: options.provider_selection,
        model_override: options.model_override,
        no_cache: options.no_cache,
    }
}

/// Builds the compile request for a source under the options of a run.
pub fn source_compile_request(source: String, source_id: String, options: &RunOptions) -> (req:
    CompileRequest)
    ensures
        req.deep_view() == source_request(source@, source_id@, options.deep_view()),
{
    let kind_hint = match &options.kind_hint {
        Some(k) => Some(k.duplicate()),
        None => None,
    };
    CompileRequest {
        source_text: source,
        source_id,
        kind_hint,
        language_hint: copy_optional(&options.language_hint),
        scope_context: None,
        force_llm: options.force_llm,
        provider_selection: options.provider_selection,
        model_override: copy_optional(&options.model_override),
        no_cache: options.no_cache,
    }
}

/// Compiles the text of a file under the options of a run: the result is
/// what the compiler answers to the request that the source, its
/// identifier and the options make.
pub fn compile_source<C: Compiler>(
    compiler: &C,
    source: String,
    source_id: String,
    options: &RunOptions,
) -> (r: Result<CompileResult, CompileError>)
    ensures
        compiler.compiles(source_request(source@, source_id@, options.deep_view()), r),
{
    let request = source_compile_request(source, source_id, options);
    compiler.compile(&request)
}

/// What a run comes to, given what the engine answered when it was given
/// the compiled JavaScript: the compile result with what the JavaScript
/// evaluated to, or the engine's failure.
pub open spec fn run_outcome(
    compile: CompileResult,
    answer: Result<EvalOutput, EngineError>,
) -> Result<RunOutcome, RunError> {
    match answer {
        Ok(eval) => Ok(RunOutcome { compile, eval }),
        Err(e) => Err(RunError::Engine(e)),
    }
}

/// Runs what was compiled: the engine is given the JavaScript under the
/// name `source_id`, and the result is what `run_outcome` makes of its
/// answer.  A success holds the compile result as it was handed in.
pub fn execute_compiled<E: JsEngine + ?Sized>(
    engine: &mut E,
    compile: CompileResult,
    source_id: &str,
) -> (r: Result<RunOutcome, RunError>)
    ensures
        exists|answer: Result<EvalOutput, EngineError>|
            old(engine).evaluates(compile.javascript@, source_id@, answer) && r == #[trigger]
            run_outcome(compile, answer),
        r matches Ok(outcome) ==> outcome.compile == compile,
        r matches Err(e) ==> e is Engine,
{
    let answer = engine.eval_script(compile.javascript.as_str(), source_id);
    let ghost given = answer;
    let r = match answer {
        Ok(eval) => Ok(RunOutcome { compile, eval }),
        Err(e) => Err(RunError::Engine(e)),
    };
    assert(r == run_outcome(compile, given));
    r
}

/// Whether `r` is what comes of compiling a request with `compiler` and
/// running the result in `engine` under the name `source_id`: the
/// compiler's failure; or, for a compile result that the compiler
/// answered, what `run_outcome` makes of what the engine answered when it
/// was given the JavaScript of that result.
pub open spec fn compiled_and_run<E: JsEngine + ?Sized, C: Compiler>(
    engine: &E,
    compiler: &C,
    req: CompileRequestView,
    source_id: Seq<char>,
    r: Result<RunOutcome, RunError>,
) -> bool {
    ||| r matches Err(RunError::Compile(e)) && compiler.compiles(req, Err(e))
    ||| exists|compile: CompileResult, answer: Result<EvalOutput, EngineError>|
        compiler.compiles(req, Ok(compile)) && engine.evaluates(
            compile.javascript@,
            source_id,
            answer,
        ) && r == #[trigger] run_outcome(compile, answer)
}

/// Compiles a source and runs the result.  The source is compiled under
/// the options of the run, as `compile_source` does it; a failure of the
/// compiler is the failure of the run, and nothing is run after one;
/// else the engine is given the compiled JavaScript under the name
/// `source_id`, and the run comes to what the engine answers.
pub fn run_source<E: JsEngine + ?Sized, C: Compiler>(
    engine: &mut E,
    compiler: &C,
    source: String,
    source_id: &str,
    options: &RunOptions,
) -> (r: Result<RunOutcome, RunError>)
    ensures
        compiled_and_run(
            old(engine),
            compiler,
            source_request(source@, source_id@, options.deep_view()),
            source_id@,
            r,
        ),
{
    let compile = match compile_source(compiler, source, source_id.to_string(), options) {
        Ok(compile) => compile,
        Err(e) => { return Err(RunError::Compile(e)); },
    };
    execute_compiled(engine, compile, source_id)
}

/// Evaluates inline code under the name `<eval>`: the result is what the
/// engine answers to that.
pub fn eval_inline<E: JsEngine + ?Sized>(engine: &mut E, code: &str) -> (r: Result<
    EvalOutput,
    EngineError,
>)
    ensures
        old(engine).evaluates(code@, "<eval>"@, r),
{
    engine.eval_script(code, "<eval>")
}

// ---------------------------------------------------------------------------
// What is reported of a run
// ---------------------------------------------------------------------------

/// Whether the generated JavaScript is shown: when it was asked for, and
/// in a verbose run whenever a provider wrote it.
pub open spec fn shows_javascript(options: RunOptionsView, result: CompileResultView) -> bool {
    options.print_js || (options.progress_mode is Verbose && result.metadata.provider is Some)
}

/// Whether the generated JavaScript is shown.
pub fn javascript_is_shown(options: &RunOptions, result: &CompileResult) -> (r: bool)
    ensures
        r == shows_javascript(options.deep_view(), result.deep_view()),
{
    options.print_js || (match options.progress_mode {
        ProgressMode::Verbose => true,
        _ => false,
    } && result.metadata.provider.is_some())
}

/// A flag as it is printed.
pub open spec fn flag_text(flag: bool) -> Seq<char> {
    if flag {
        "true"@
    } else {
        "false"@
    }
}

fn flag_name(flag: bool) -> (r: &'static str)
    ensures
        r@ == flag_text(flag),
{
    if flag {
        "true"
    } else {
        "false"
    }
}

/// The line that is reported, where progress is minimal, of a result
/// that came from a provider: what was done, through which provider and
/// model, and whether the cache answered.  A result that did not come
/// from a provider is not reported.
pub open spec fn minimal_report(done: Seq<char>, result: CompileResultView) -> Option<Seq<char>> {
    match result.metadata.provider {
        Some(provider) => Some(
            done + " via "@ + lowered(provider_name(provider)) + ":"@ + (
            match result.metadata.model {
                Some(model) => model,
                None => Seq::empty(),
            }) + " (cache_hit="@ + flag_text(result.metadata.cache_hit) + ")"@,
        ),
        None => None,
    }
}

fn minimal_report_of(done: &str, result: &CompileResult) -> (r: Option<String>)
    ensures
        r.deep_view() == minimal_report(done@, result.deep_view()),
{
    match result.metadata.provider {
        Some(provider) => {
            let mut out: Vec<char> = Vec::new();
            push_str(&mut out, done);
            push_str(&mut out, " via ");
            push_all(&mut out, &to_ascii_lower(&chars_of(provider_name_of(provider))));
            push_str(&mut out, ":");
            match &result.metadata.model {
                Some(model) => {
                    push_str(&mut out, model.as_str());
                },
                None => {},
            }
            push_str(&mut out, " (cache_hit=");
            push_str(&mut out, flag_name(result.metadata.cache_hit));
            push_str(&mut out, ")");
            assert(out@ =~= minimal_report(done@, result.deep_view())->0);
            Some(string_of(&out))
        },
        None => None,
    }
}

/// What a run of minimal progress reports of a compile.
pub fn minimal_compile_report(result: &CompileResult) -> (r: Option<String>)
    ensures
        r.deep_view() == minimal_report("compiling"@, result.deep_view()),
{
    minimal_report_of("compiling", result)
}

/// What a bundling of minimal progress reports of a compile.
pub fn minimal_bundle_report(result: &CompileResult) -> (r: Option<String>)
    ensures
        r.deep_view() == minimal_report("bundled"@, result.deep_view()),
{
    minimal_report_of("bundled", result)
}

/// The line that a verbose run reports of every compile.
pub open spec fn verbose_report(result: CompileResultView) -> Seq<char> {
    "compile complete provider="@ + (match result.metadata.provider {
        Some(provider) => "Some("@ + provider_name(provider) + ")"@,
        None => "None"@,
    }) + " model="@ + (match result.metadata.model {
        Some(model) => "Some("@ + debug_quoted(model) + ")"@,
        None => "None"@,
    }) + " cache_hit="@ + flag_text(result.metadata.cache_hit)
}

/// What a verbose run reports of a compile.
pub fn verbose_compile_report(result: &CompileResult) -> (r: String)
    ensures
        r@ == verbose_report(result.deep_view()),
{
    let mut out: Vec<char> = Vec::new();
    push_str(&mut out, "compile complete provider=");
    match result.metadata.provider {
        Some(provider) => {
            push_str(&mut out, "Some(");
            push_str(&mut out, provider_name_of(provider));
            push_str(&mut out, ")");
        },
        None => {
            push_str(&mut out, "None");
        },
    }
    push_str(&mut out, " model=");
    match &result.metadata.model {
        Some(model) => {
            push_str(&mut out, "Some(");
            push_str(&mut out, quote_debug(model.as_str()).as_str());
            push_str(&mut out, ")");
        },
        None => {
            push_str(&mut out, "None");
        },
    }
    push_str(&mut out, " cache_hit=");
    push_str(&mut out, flag_name(result.metadata.cache_hit));
    assert(out@ =~= verbose_report(result.deep_view()));
    string_of(&out)
}

} // verus!
