//! The boundary to the JavaScript engine that runs what was compiled.

use crate::text::{
    chars_of, is_str, lowered, push_all, push_str, string_of, to_ascii_lower, trim, trimmed,
};
use vstd::prelude::*;

verus! {

/// Something the engine reported beside the value.
#[derive(Debug, Clone, PartialEq, Eq)]
pub struct RuntimeDiagnostic {
    pub message: String,
}

/// What a script evaluated to.  A script whose value is `undefined` has
/// no value.
#[derive(Debug, Clone, PartialEq, Eq)]
pub struct EvalOutput {
    pub value: Option<String>,
    pub diagnostics: Vec<RuntimeDiagnostic>,
}

/// Why an engine could not be had or a script did not run.
#[derive(Debug, Clone, PartialEq, Eq)]
pub struct EngineError {
    pub message: String,
}

/// An engine that evaluates scripts, one after the other, in one global
/// scope.
pub trait JsEngine {
    /// Whether this engine, as it stands, may answer `result` when it is
    /// given `source` to evaluate under the name `source_name`.  Each
    /// engine says for itself what it may answer; nothing is asked of it.
    open spec fn evaluates(
        &self,
        source: Seq<char>,
        source_name: Seq<char>,
        result: Result<EvalOutput, EngineError>,
    ) -> bool {
        true
    }

    fn eval_script(&mut self, source: &str, source_name: &str) -> (r: Result<
        EvalOutput,
        EngineError,
    >)
        ensures
            old(self).evaluates(source@, source_name@, r),
    ;
}

/// The message of a script that failed: which script, and the engine's
/// own words.
pub open spec fn evaluation_failure_text(source_name: Seq<char>, detail: Seq<char>) -> Seq<char> {
    "failed evaluating "@ + source_name + ": "@ + detail
}

/// The error of a script that failed.
pub fn evaluation_failure(source_name: &str, detail: &str) -> (e: EngineError)
    ensures
        e.message@ == evaluation_failure_text(source_name@, detail@),
{
    let mut out: Vec<char> = Vec::new();
    push_str(&mut out, "failed evaluating ");
    push_str(&mut out, source_name);
    push_str(&mut out, ": ");
    push_str(&mut out, detail);
    EngineError { message: string_of(&out) }
}

/// What the V8 backend answers to everything.
pub open spec fn v8_unavailable() -> Seq<char> {
    "V8 backend is scaffolded but not implemented yet. Use KLUMO_ENGINE=boa for now."@
}

fn v8_unavailable_error() -> (e: EngineError)
    ensures
        e.message@ == v8_unavailable(),
{
    EngineError {
        message: "V8 backend is scaffolded but not implemented yet. Use KLUMO_ENGINE=boa for now.".to_string(),
    }
}

/// The place of the V8 backend, which is not there yet: it cannot be
/// made, and evaluates nothing.
#[derive(Debug)]
pub struct V8Engine;

impl V8Engine {
    /// Always fails: the backend is not there yet.
    pub fn new() -> (r: Result<V8Engine, EngineError>)
        ensures
            r matches Err(e) && e.message@ == v8_unavailable(),
    {
        Err(v8_unavailable_error())
    }
}

impl JsEngine for V8Engine {
    /// What this engine may answer: nothing but that it is not there.
    open spec fn evaluates(
        &self,
        source: Seq<char>,
        source_name: Seq<char>,
        result: Result<EvalOutput, EngineError>,
    ) -> bool {
        result matches Err(e) && e.message@ == v8_unavailable()
    }

    fn eval_script(&mut self, _source: &str, _source_name: &str) -> (r: Result<
        EvalOutput,
        EngineError,
    >)
        ensures
            r matches Err(e) && e.message@ == v8_unavailable(),
    {
        Err(v8_unavailable_error())
    }
}

/// The engines that can be asked for.
#[derive(Debug, Clone, Copy, PartialEq, Eq, Structural)]
pub enum EngineChoice {
    Boa,
    V8,
}

/// The engine that a setting names, told from its token: the setting
/// without the whitespace around it, in lower case.
pub open spec fn engine_of_token(token: Seq<char>) -> Option<EngineChoice> {
    if token == "boa"@ {
        Some(EngineChoice::Boa)
    } else if token == "v8"@ {
        Some(EngineChoice::V8)
    } else {
        None
    }
}

/// What is said of a setting that names no engine.
pub open spec fn unknown_engine_text(token: Seq<char>) -> Seq<char> {
    "unknown engine '"@ + token + "'. Supported: 'boa', 'v8'"@
}

/// Reads the setting that chooses the engine; without a setting the
/// choice is Boa.
pub fn parse_engine_choice(setting: Option<&str>) -> (r: Result<EngineChoice, EngineError>)
    ensures
        match setting {
            None => r == Ok::<EngineChoice, EngineError>(EngineChoice::Boa),
            Some(text) => match engine_of_token(lowered(trimmed(text@))) {
                Some(choice) => r == Ok::<EngineChoice, EngineError>(choice),
                None => r matches Err(e) && e.message@ == unknown_engine_text(
                    lowered(trimmed(text@)),
                ),
            },
        },
{
    let text = match setting {
        Some(text) => text,
        None => {
            return Ok(EngineChoice::Boa);
        },
    };
    let token = to_ascii_lower(&trim(&chars_of(text)));
    if is_str(&token, "boa") {
        Ok(EngineChoice::Boa)
    } else if is_str(&token, "v8") {
        Ok(EngineChoice::V8)
    } else {
        let mut out: Vec<char> = Vec::new();
        push_str(&mut out, "unknown engine '");
        push_all(&mut out, &token);
        push_str(&mut out, "'. Supported: 'boa', 'v8'");
        Err(EngineError { message: string_of(&out) })
    }
}

} // verus!
