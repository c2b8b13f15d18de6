//! Settings and their precedence: the command line before the
//! environment, the environment before the configuration file, the file
//! before the built-in defaults.

use crate::compiler::copy_optional;
use crate::text::{chars_of, is_str, lowered, to_ascii_lower, trim, trimmed};
use vstd::prelude::*;

verus! {

/// Which provider the user asks for.
#[derive(Debug, Clone, Copy, PartialEq, Eq, Structural)]
pub enum ProviderSetting {
    Auto,
    Ollama,
    Openai,
}

/// How much progress the user wants reported.
#[derive(Debug, Clone, Copy, PartialEq, Eq, Structural)]
pub enum ProgressSetting {
    Auto,
    Silent,
    Verbose,
}

/// What the configuration file sets.
#[derive(Debug, Clone, PartialEq, Eq)]
pub struct FileConfig {
    pub provider: Option<ProviderSetting>,
    pub ollama_url: Option<String>,
    pub ollama_model: Option<String>,
    pub openai_base_url: Option<String>,
    pub openai_model: Option<String>,
    pub openai_api_key: Option<String>,
    pub lang: Option<String>,
    pub force_llm: Option<bool>,
    pub print_js: Option<bool>,
    pub no_cache: Option<bool>,
    pub verbose: Option<bool>,
    pub progress: Option<ProgressSetting>,
    /// The project's scripts: name and command line.
    pub scripts: Option<Vec<(String, String)>>,
    /// The project's dependencies: name and version.
    pub dependencies: Option<Vec<(String, String)>>,
}

/// What the environment sets.
#[derive(Debug, Clone, PartialEq, Eq)]
pub struct EnvConfig {
    pub provider: Option<ProviderSetting>,
    pub ollama_url: Option<String>,
    pub ollama_model: Option<String>,
    pub openai_base_url: Option<String>,
    pub openai_model: Option<String>,
    pub openai_api_key: Option<String>,
    pub lang: Option<String>,
    pub force_llm: Option<bool>,
    pub print_js: Option<bool>,
    pub no_cache: Option<bool>,
    pub verbose: Option<bool>,
    pub progress: Option<ProgressSetting>,
}

/// What the command line sets.
#[derive(Debug, Clone, PartialEq, Eq)]
pub struct CliRunOverrides {
    pub provider: Option<ProviderSetting>,
    pub ollama_url: Option<String>,
    pub model: Option<String>,
    pub lang: Option<String>,
    pub force_llm: Option<bool>,
    pub print_js: Option<bool>,
    pub no_cache: Option<bool>,
    pub verbose: Option<bool>,
    pub no_progress: Option<bool>,
}

/// The settings of a run, with nothing left open.
#[derive(Debug, Clone, PartialEq, Eq)]
pub struct RunDefaults {
    pub provider: ProviderSetting,
    pub ollama_url: String,
    pub ollama_model: String,
    pub openai_base_url: String,
    pub openai_model: String,
    pub openai_api_key: Option<String>,
    pub lang: Option<String>,
    pub force_llm: bool,
    pub print_js: bool,
    pub no_cache: bool,
    pub verbose: bool,
    pub progress: ProgressSetting,
}

/// The settings of the file as plain text.
pub struct FileConfigView {
    pub provider: Option<ProviderSetting>,
    pub ollama_url: Option<Seq<char>>,
    pub ollama_model: Option<Seq<char>>,
    pub openai_base_url: Option<Seq<char>>,
    pub openai_model: Option<Seq<char>>,
    pub openai_api_key: Option<Seq<char>>,
    pub lang: Option<Seq<char>>,
    pub force_llm: Option<bool>,
    pub print_js: Option<bool>,
    pub no_cache: Option<bool>,
    pub verbose: Option<bool>,
    pub progress: Option<ProgressSetting>,
}

/// The settings of the environment as plain text.
pub struct EnvConfigView {
    pub provider: Option<ProviderSetting>,
    pub ollama_url: Option<Seq<char>>,
    pub ollama_model: Option<Seq<char>>,
    pub openai_base_url: Option<Seq<char>>,
    pub openai_model: Option<Seq<char>>,
    pub openai_api_key: Option<Seq<char>>,
    pub lang: Option<Seq<char>>,
    pub force_llm: Option<bool>,
    pub print_js: Option<bool>,
    pub no_cache: Option<bool>,
    pub verbose: Option<bool>,
    pub progress: Option<ProgressSetting>,
}

/// The settings of the command line as plain text.
pub struct CliRunOverridesView {
    pub provider: Option<ProviderSetting>,
    pub ollama_url: Option<Seq<char>>,
    pub model: Option<Seq<char>>,
    pub lang: Option<Seq<char>>,
    pub force_llm: Option<bool>,
    pub print_js: Option<bool>,
    pub no_cache: Option<bool>,
    pub verbose: Option<bool>,
    pub no_progress: Option<bool>,
}

/// The settings of a run as plain text.
pub struct RunDefaultsView {
    pub provider: ProviderSetting,
    pub ollama_url: Seq<char>,
    pub ollama_model: Seq<char>,
    pub openai_base_url: Seq<char>,
    pub openai_model: Seq<char>,
    pub openai_api_key: Option<Seq<char>>,
    pub lang: Option<Seq<char>>,
    pub force_llm: bool,
    pub print_js: bool,
    pub no_cache: bool,
    pub verbose: bool,
    pub progress: ProgressSetting,
}

impl View for FileConfig {
    type V = FileConfigView;

    open spec fn view(&self) -> FileConfigView {
        FileConfigView {
            provider: self.provider,
            ollama_url: self.ollama_url.deep_view(),
            ollama_model: self.ollama_model.deep_view(),
            openai_base_url: self.openai_base_url.deep_view(),
            openai_model: self.openai_model.deep_view(),
            openai_api_key: self.openai_api_key.deep_view(),
            lang: self.lang.deep_view(),
            force_llm: self.force_llm,
            print_js: self.print_js,
            no_cache: self.no_cache,
            verbose: self.verbose,
            progress: self.progress,
        }
    }
}

impl View for EnvConfig {
    type V = EnvConfigView;

    open spec fn view(&self) -> EnvConfigView {
        EnvConfigView {
            provider: self.provider,
            ollama_url: self.ollama_url.deep_view(),
            ollama_model: self.ollama_model.deep_view(),
            openai_base_url: self.openai_base_url.deep_view(),
            openai_model: self.openai_model.deep_view(),
            openai_api_key: self.openai_api_key.deep_view(),
            lang: self.lang.deep_view(),
            force_llm: self.force_llm,
            print_js: self.print_js,
            no_cache: self.no_cache,
            verbose: self.verbose,
            progress: self.progress,
        }
    }
}

impl View for CliRunOverrides {
    type V = CliRunOverridesView;

    open spec fn view(&self) -> CliRunOverridesView {
        CliRunOverridesView {
            provider: self.provider,
            ollama_url: self.ollama_url.deep_view(),
            model: self.model.deep_view(),
            lang: self.lang.deep_view(),
            force_llm: self.force_llm,
            print_js: self.print_js,
            no_cache: self.no_cache,
            verbose: self.verbose,
            no_progress: self.no_progress,
        }
    }
}

impl View for RunDefaults {
    type V = RunDefaultsView;

    open spec fn view(&self) -> RunDefaultsView {
        RunDefaultsView {
            provider: self.provider,
            ollama_url: self.ollama_url@,
            ollama_model: self.ollama_model@,
            openai_base_url: self.openai_base_url@,
            openai_model: self.openai_model@,
            openai_api_key: self.openai_api_key.deep_view(),
            lang: self.lang.deep_view(),
            force_llm: self.force_llm,
            print_js: self.print_js,
            no_cache: self.no_cache,
            verbose: self.verbose,
            progress: self.progress,
        }
    }
}

/// The settings of the file, where there is a file.
pub open spec fn file_view(file: Option<&FileConfig>) -> Option<FileConfigView> {
    match file {
        Some(f) => Some(f@),
        None => None,
    }
}

impl Default for FileConfig {
    fn default() -> (r: FileConfig)
        ensures
            r@ == (FileConfigView {
                provider: None,
                ollama_url: None,
                ollama_model: None,
                openai_base_url: None,
                openai_model: None,
                openai_api_key: None,
                lang: None,
                force_llm: None,
                print_js: None,
                no_cache: None,
                verbose: None,
                progress: None,
            }),
            r.scripts is None,
            r.dependencies is None,
    {
        FileConfig {
            provider: None,
            ollama_url: None,
            ollama_model: None,
            openai_base_url: None,
            openai_model: None,
            openai_api_key: None,
            lang: None,
            force_llm: None,
            print_js: None,
            no_cache: None,
            verbose: None,
            progress: None,
            scripts: None,
            dependencies: None,
        }
    }
}

impl Default for EnvConfig {
    fn default() -> (r: EnvConfig)
        ensures
            r@ == (EnvConfigView {
                provider: None,
                ollama_url: None,
                ollama_model: None,
                openai_base_url: None,
                openai_model: None,
                openai_api_key: None,
                lang: None,
                force_llm: None,
                print_js: None,
                no_cache: None,
                verbose: None,
                progress: None,
            }),
    {
        EnvConfig {
            provider: None,
            ollama_url: None,
            ollama_model: None,
            openai_base_url: None,
            openai_model: None,
            openai_api_key: None,
            lang: None,
            force_llm: None,
            print_js: None,
            no_cache: None,
            verbose: None,
            progress: None,
        }
    }
}

impl Default for CliRunOverrides {
    fn default() -> (r: CliRunOverrides)
        ensures
            r@ == (CliRunOverridesView {
                provider: None,
                ollama_url: None,
                model: None,
                lang: None,
                force_llm: None,
                print_js: None,
                no_cache: None,
                verbose: None,
                no_progress: None,
            }),
    {
        CliRunOverrides {
            provider: None,
            ollama_url: None,
            model: None,
            lang: None,
            force_llm: None,
            print_js: None,
            no_cache: None,
            verbose: None,
            no_progress: None,
        }
    }
}

/// The built-in defaults.
pub open spec fn built_in() -> RunDefaultsView {
    RunDefaultsView {
        provider: ProviderSetting::Auto,
        ollama_url: "http://127.0.0.1:11434"@,
        ollama_model: "qwen2.5-coder:7b"@,
        openai_base_url: "https://api.openai.com/v1"@,
        openai_model: "gpt-4.1-mini"@,
        openai_api_key: None,
        lang: None,
        force_llm: false,
        print_js: false,
        no_cache: false,
        verbose: false,
        progress: ProgressSetting::Auto,
    }
}

impl Default for RunDefaults {
    fn default() -> (r: RunDefaults)
        ensures
            r@ == built_in(),
    {
        RunDefaults {
            provider: ProviderSetting::Auto,
            ollama_url: "http://127.0.0.1:11434".to_string(),
            ollama_model: "qwen2.5-coder:7b".to_string(),
            openai_base_url: "https://api.openai.com/v1".to_string(),
            openai_model: "gpt-4.1-mini".to_string(),
            openai_api_key: None,
            lang: None,
            force_llm: false,
            print_js: false,
            no_cache: false,
            verbose: false,
            progress: ProgressSetting::Auto,
        }
    }
}

/// The first of the values that is set, from the strongest source to the
/// weakest.
pub open spec fn first_set<T>(strongest: Option<T>, middle: Option<T>, weakest: Option<T>) -> Option<
    T,
> {
    match strongest {
        Some(v) => Some(v),
        None => match middle {
            Some(v) => Some(v),
            None => weakest,
        },
    }
}

/// The value that is set, or else the default.
pub open spec fn or_default<T>(value: Option<T>, default: T) -> T {
    match value {
        Some(v) => v,
        None => default,
    }
}

/// A setting of the file, where there is a file.
pub open spec fn of_file<T>(file: Option<FileConfigView>, pick: spec_fn(FileConfigView) -> Option<T>) -> Option<T> {
    match file {
        Some(f) => pick(f),
        None => None,
    }
}

/// The settings of a run.  Each setting is taken from the command line,
/// else from the environment, else from the file, else from the built-in
/// defaults.  The model of the command line stands for the model of both
/// providers.  The base URL and the key of the hosted provider cannot be
/// set on the command line, nor can the progress setting: there the
/// command line can only ask for silence, which overrides everything.
pub open spec fn resolved(
    cli: CliRunOverridesView,
    env: EnvConfigView,
    file: Option<FileConfigView>,
) -> RunDefaultsView {
    let base = built_in();
    RunDefaultsView {
        provider: or_default(
            first_set(cli.provider, env.provider, of_file(file, |f: FileConfigView| f.provider)),
            base.provider,
        ),
        ollama_url: or_default(
            first_set(
                cli.ollama_url,
                env.ollama_url,
                of_file(file, |f: FileConfigView| f.ollama_url),
            ),
            base.ollama_url,
        ),
        ollama_model: or_default(
            first_set(
                cli.model,
                env.ollama_model,
                of_file(file, |f: FileConfigView| f.ollama_model),
            ),
            base.ollama_model,
        ),
        openai_base_url: or_default(
            first_set(
                None,
                env.openai_base_url,
                of_file(file, |f: FileConfigView| f.openai_base_url),
            ),
            base.openai_base_url,
        ),
        openai_model: or_default(
            first_set(
                cli.model,
                env.openai_model,
                of_file(file, |f: FileConfigView| f.openai_model),
            ),
            base.openai_model,
        ),
        openai_api_key: first_set(
            None,
            env.openai_api_key,
            of_file(file, |f: FileConfigView| f.openai_api_key),
        ),
        lang: first_set(cli.lang, env.lang, of_file(file, |f: FileConfigView| f.lang)),
        force_llm: or_default(
            first_set(cli.force_llm, env.force_llm, of_file(file, |f: FileConfigView| f.force_llm)),
            base.force_llm,
        ),
        print_js: or_default(
            first_set(cli.print_js, env.print_js, of_file(file, |f: FileConfigView| f.print_js)),
            base.print_js,
        ),
        no_cache: or_default(
            first_set(cli.no_cache, env.no_cache, of_file(file, |f: FileConfigView| f.no_cache)),
            base.no_cache,
        ),
        verbose: or_default(
            first_set(cli.verbose, env.verbose, of_file(file, |f: FileConfigView| f.verbose)),
            base.verbose,
        ),
        progress: if cli.no_progress == Some(true) {
            ProgressSetting::Silent
        } else {
            or_default(
                first_set(None, env.progress, of_file(file, |f: FileConfigView| f.progress)),
                base.progress,
            )
        },
    }
}

fn pick_text(
    strongest: &Option<String>,
    middle: &Option<String>,
    weakest: Option<&Option<String>>,
) -> (r: Option<String>)
    ensures
        r.deep_view() == first_set(
            strongest.deep_view(),
            middle.deep_view(),
            match weakest {
                Some(w) => w.deep_view(),
                None => None,
            },
        ),
{
    match strongest {
        Some(v) => Some(v.clone()),
        None => match middle {
            Some(v) => Some(v.clone()),
            None => match weakest {
                Some(w) => copy_optional(w),
                None => None,
            },
        },
    }
}

fn pick_flag(strongest: Option<bool>, middle: Option<bool>, weakest: Option<bool>) -> (r: Option<
    bool,
>)
    ensures
        r == first_set(strongest, middle, weakest),
{
    match strongest {
        Some(v) => Some(v),
        None => match middle {
            Some(v) => Some(v),
            None => weakest,
        },
    }
}

fn text_or(value: Option<String>, default: &str) -> (r: String)
    ensures
        r@ == or_default(value.deep_view(), default@),
{
    match value {
        Some(v) => v,
        None => default.to_string(),
    }
}

fn flag_or(value: Option<bool>, default: bool) -> (r: bool)
    ensures
        r == or_default(value, default),
{
    match value {
        Some(v) => v,
        None => default,
    }
}

/// Resolves the settings of a run from the command line, the
/// environment and the configuration file, in this order of precedence.
pub fn resolve_run_defaults(
    cli: &CliRunOverrides,
    env_cfg: &EnvConfig,
    file_cfg: Option<&FileConfig>,
) -> (r: RunDefaults)
    ensures
        r@ == resolved(cli@, env_cfg@, file_view(file_cfg)),
{
    let none: Option<String> = None;
    let provider = match cli.provider {
        Some(p) => p,
        None => match env_cfg.provider {
            Some(p) => p,
            None => match file_cfg {
                Some(f) => match f.provider {
                    Some(p) => p,
                    None => ProviderSetting::Auto,
                },
                None => ProviderSetting::Auto,
            },
        },
    };
    let file_progress = match file_cfg {
        Some(f) => f.progress,
        None => None,
    };
    let progress = match cli.no_progress {
        Some(true) => ProgressSetting::Silent,
        _ => match env_cfg.progress {
            Some(p) => p,
            None => match file_progress {
                Some(p) => p,
                None => ProgressSetting::Auto,
            },
        },
    };
    let (file_url, file_ollama_model, file_base_url, file_openai_model, file_key, file_lang) =
        match file_cfg {
        Some(f) => (
            Some(&f.ollama_url),
            Some(&f.ollama_model),
            Some(&f.openai_base_url),
            Some(&f.openai_model),
            Some(&f.openai_api_key),
            Some(&f.lang),
        ),
        None => (None, None, None, None, None, None),
    };
    let (file_force, file_print, file_no_cache, file_verbose) = match file_cfg {
        Some(f) => (f.force_llm, f.print_js, f.no_cache, f.verbose),
        None => (None, None, None, None),
    };
    RunDefaults {
        provider,
        ollama_url: text_or(
            pick_text(&cli.ollama_url, &env_cfg.ollama_url, file_url),
            "http://127.0.0.1:11434",
        ),
        ollama_model: text_or(
            pick_text(&cli.model, &env_cfg.ollama_model, file_ollama_model),
            "qwen2.5-coder:7b",
        ),
        openai_base_url: text_or(
            pick_text(&none, &env_cfg.openai_base_url, file_base_url),
            "https://api.openai.com/v1",
        ),
        openai_model: text_or(
            pick_text(&cli.model, &env_cfg.openai_model, file_openai_model),
            "gpt-4.1-mini",
        ),
        openai_api_key: pick_text(&none, &env_cfg.openai_api_key, file_key),
        lang: pick_text(&cli.lang, &env_cfg.lang, file_lang),
        force_llm: flag_or(pick_flag(cli.force_llm, env_cfg.force_llm, file_force), false),
        print_js: flag_or(pick_flag(cli.print_js, env_cfg.print_js, file_print), false),
        no_cache: flag_or(pick_flag(cli.no_cache, env_cfg.no_cache, file_no_cache), false),
        verbose: flag_or(pick_flag(cli.verbose, env_cfg.verbose, file_verbose), false),
        progress,
    }
}

// ---------------------------------------------------------------------------
// Reading settings of the environment
// ---------------------------------------------------------------------------

/// The token of a setting: the text without the whitespace around it,
/// in lower case.
pub open spec fn setting_token(input: Seq<char>) -> Seq<char> {
    lowered(trimmed(input))
}

/// The switch that a token stands for.
pub open spec fn flag_of_token(token: Seq<char>) -> Option<bool> {
    if token == "1"@ || token == "true"@ || token == "yes"@ || token == "on"@ {
        Some(true)
    } else if token == "0"@ || token == "false"@ || token == "no"@ || token == "off"@ {
        Some(false)
    } else {
        None
    }
}

/// The provider setting that a token stands for.
pub open spec fn provider_of_token(token: Seq<char>) -> Option<ProviderSetting> {
    if token == "auto"@ {
        Some(ProviderSetting::Auto)
    } else if token == "ollama"@ {
        Some(ProviderSetting::Ollama)
    } else if token == "openai"@ || token == "openai-compatible"@ {
        Some(ProviderSetting::Openai)
    } else {
        None
    }
}

/// The progress setting that a token stands for.
pub open spec fn progress_of_token(token: Seq<char>) -> Option<ProgressSetting> {
    if token == "auto"@ {
        Some(ProgressSetting::Auto)
    } else if token == "silent"@ {
        Some(ProgressSetting::Silent)
    } else if token == "verbose"@ {
        Some(ProgressSetting::Verbose)
    } else {
        None
    }
}

fn token_of(input: &str) -> (token: Vec<char>)
    ensures
        token@ == setting_token(input@),
{
    to_ascii_lower(&trim(&chars_of(input)))
}

/// Reads a switch: `1`, `true`, `yes` and `on` switch on; `0`, `false`,
/// `no` and `off` switch off; anything else sets nothing.
pub fn parse_bool(input: &str) -> (r: Option<bool>)
    ensures
        r == flag_of_token(setting_token(input@)),
{
    let token = token_of(input);
    if is_str(&token, "1") || is_str(&token, "true") || is_str(&token, "yes") || is_str(
        &token,
        "on",
    ) {
        Some(true)
    } else if is_str(&token, "0") || is_str(&token, "false") || is_str(&token, "no") || is_str(
        &token,
        "off",
    ) {
        Some(false)
    } else {
        None
    }
}

/// Reads a provider setting.
pub fn parse_provider_setting(input: &str) -> (r: Option<ProviderSetting>)
    ensures
        r == provider_of_token(setting_token(input@)),
{
    let token = token_of(input);
    if is_str(&token, "auto") {
        Some(ProviderSetting::Auto)
    } else if is_str(&token, "ollama") {
        Some(ProviderSetting::Ollama)
    } else if is_str(&token, "openai") || is_str(&token, "openai-compatible") {
        Some(ProviderSetting::Openai)
    } else {
        None
    }
}

/// Reads a progress setting.
pub fn parse_progress(input: &str) -> (r: Option<ProgressSetting>)
    ensures
        r == progress_of_token(setting_token(input@)),
{
    let token = token_of(input);
    if is_str(&token, "auto") {
        Some(ProgressSetting::Auto)
    } else if is_str(&token, "silent") {
        Some(ProgressSetting::Silent)
    } else if is_str(&token, "verbose") {
        Some(ProgressSetting::Verbose)
    } else {
        None
    }
}

} // verus!
