//! Evaluation results and the per-context handler slot.

use vstd::prelude::*;
use vstd::string::StringExecFns;

verus! {

/// Why an evaluation produced no text.
#[derive(Debug, Clone, Copy, PartialEq, Eq, Structural)]
pub enum EvalError {
    /// The source could not be turned into a runnable script.
    CompileError,
    /// The script threw while running.
    RuntimeError,
    /// The completion value has no text form.
    ConversionError,
}

impl EvalError {
    /// The variant's name.
    pub open spec fn text(self) -> Seq<char> {
        match self {
            EvalError::CompileError => "CompileError"@,
            EvalError::RuntimeError => "RuntimeError"@,
            EvalError::ConversionError => "ConversionError"@,
        }
    }

    /// The variant's name, as the error is shown to a user.
    pub fn to_text(&self) -> (r: String)
        ensures
            r@ == self.text(),
    {
        match self {
            EvalError::CompileError => String::from_str("CompileError"),
            EvalError::RuntimeError => String::from_str("RuntimeError"),
            EvalError::ConversionError => String::from_str("ConversionError"),
        }
    }
}

/// The record attached to an execution context: at most one registered handler.
///
/// `H` is the embedder's persistent reference to a callable of the script.
pub struct JsState<H> {
    pub handler: Option<H>,
}

impl<H> JsState<H> {
    /// The record of a fresh context: no handler yet.
    pub fn new() -> (s: Self)
        ensures
            s.handler is None,
    {
        JsState { handler: None }
    }

    /// Whether `target` is what a dispatch in this state calls: the registered
    /// handler, or nothing where none is registered.
    pub open spec fn targets(self, target: Option<&H>) -> bool {
        match target {
            Some(handler) => self.handler == Some(*handler),
            None => self.handler is None,
        }
    }

    /// The handler that a dispatch calls, if one is registered.
    pub fn target(&self) -> (target: Option<&H>)
        ensures
            self.targets(target),
    {
        self.handler.as_ref()
    }
}

/// How far the engine carried a script that it was asked to evaluate.
#[derive(Debug)]
pub enum ScriptOutcome {
    /// The engine could not take the source text in.
    SourceRejected,
    /// The source did not compile: a syntax error, or a form that a plain script
    /// may not hold, such as a dynamic module import.
    CompileFailed,
    /// The script compiled and threw while running.
    Threw,
    /// The script completed with a value that has no text form.
    NotConvertible,
    /// The script completed; this is its completion value as text.
    Completed(String),
}

/// The typed result that an outcome maps to, over the text's view.
pub open spec fn eval_spec(outcome: ScriptOutcome) -> Result<Seq<char>, EvalError> {
    match outcome {
        ScriptOutcome::SourceRejected => Err(EvalError::CompileError),
        ScriptOutcome::CompileFailed => Err(EvalError::CompileError),
        ScriptOutcome::Threw => Err(EvalError::RuntimeError),
        ScriptOutcome::NotConvertible => Err(EvalError::ConversionError),
        ScriptOutcome::Completed(text) => Ok(text@),
    }
}

/// Whether `result` is `expected`, text compared by its view.
pub open spec fn eval_result_is(result: Result<String, EvalError>, expected: Result<Seq<char>, EvalError>) -> bool {
    match result {
        Ok(text) => expected == Ok::<Seq<char>, EvalError>(text@),
        Err(error) => expected == Err::<Seq<char>, EvalError>(error),
    }
}

/// Maps what the engine reported of a script to the result of its evaluation.
/// Nothing of a failed script's output is returned.
pub fn eval_result(outcome: ScriptOutcome) -> (r: Result<String, EvalError>)
    ensures
        eval_result_is(r, eval_spec(outcome)),
{
    match outcome {
        ScriptOutcome::SourceRejected => Err(EvalError::CompileError),
        ScriptOutcome::CompileFailed => Err(EvalError::CompileError),
        ScriptOutcome::Threw => Err(EvalError::RuntimeError),
        ScriptOutcome::NotConvertible => Err(EvalError::ConversionError),
        ScriptOutcome::Completed(text) => Ok(text),
    }
}

/// What the engine reported of one call of the registered handler.
#[derive(Debug)]
pub enum CallOutcome<V> {
    /// The handler returned this value.
    Returned(V),
    /// The handler threw.
    Threw,
}

/// The result of a dispatch, given what came of calling the handler; `call` is
/// `None` where there was no handler to call.
pub open spec fn dispatch_spec<V>(call: Option<CallOutcome<V>>) -> Result<Option<V>, EvalError> {
    match call {
        None => Ok(None),
        Some(CallOutcome::Returned(value)) => Ok(Some(value)),
        Some(CallOutcome::Threw) => Err(EvalError::RuntimeError),
    }
}

/// Concludes a dispatch. A missing handler is no error: it gives no result. An
/// exception in the handler comes back as a runtime error.
pub fn dispatch_result<V>(call: Option<CallOutcome<V>>) -> (r: Result<Option<V>, EvalError>)
    ensures
        r == dispatch_spec(call),
{
    match call {
        None => Ok(None),
        Some(CallOutcome::Returned(value)) => Ok(Some(value)),
        Some(CallOutcome::Threw) => Err(EvalError::RuntimeError),
    }
}

/// A built-in capability that installs itself into a context's global object.
#[derive(Debug, Clone, Copy, PartialEq, Eq, Structural)]
pub enum Extension {
    /// The structured logging bridge.
    Console,
    /// The binary-to-text codec bridge.
    Base64Utils,
    /// The registration of event listeners.
    EventListener,
}

/// The built-in extensions in the order in which a default context binds them.
pub open spec fn default_extensions() -> Seq<Extension> {
    seq![Extension::Console, Extension::Base64Utils, Extension::EventListener]
}

/// The host's record of a bare execution context.
pub struct JsContext<H> {
    pub state: JsState<H>,
}

impl<H> JsContext<H> {
    /// The name of the engine's own global that a new context deletes, so that
    /// the logging bridge can define it afresh.
    pub fn removed_global() -> (name: &'static str)
        ensures
            name@ == "console"@,
    {
        "console"
    }

    /// The record of a new context: nothing is registered in it.
    pub fn create() -> (context: Self)
        ensures
            context.state.handler is None,
    {
        JsContext { state: JsState::new() }
    }

    /// The record of a new context together with the extensions to bind into it,
    /// each once and in this order.
    pub fn create_init() -> (r: (Self, Vec<Extension>))
        ensures
            r.0.state.handler is None,
            r.1@ == default_extensions(),
    {
        let extensions = vec![Extension::Console, Extension::Base64Utils, Extension::EventListener];
        assert(extensions@ =~= default_extensions());
        (JsContext::create(), extensions)
    }

    /// The exception that the last operation left behind. None is recorded.
    pub fn last_exception(&self) -> (r: Option<String>)
        ensures
            r is None,
    {
        None
    }

    /// The result of evaluating a script in this context, from what the engine
    /// reported of it. The record is left as it was.
    pub fn eval(&self, outcome: ScriptOutcome) -> (r: Result<String, EvalError>)
        ensures
            eval_result_is(r, eval_spec(outcome)),
    {
        eval_result(outcome)
    }

    /// The handler to call for a fetch event, or `None` where the script has
    /// registered none.
    pub fn fetch(&self) -> (target: Option<&H>)
        ensures
            self.state.targets(target),
    {
        self.state.target()
    }
}

} // verus!
