//! The worker runtime: its start-up sequence, dispatch to the registered
//! handler, and the event-loop turn.

use vstd::prelude::*;
use vstd::string::StringExecFns;
use crate::base::{dispatch_spec, eval_result, eval_result_is, eval_spec};
use crate::base::{EvalError, JsState, ScriptOutcome};
use crate::message::{register_spec, Registration};

verus! {

/// A script of the bundled library that defines the worker's globals.
#[derive(Debug, Clone, Copy, PartialEq, Eq, Structural)]
pub enum BootScript {
    Init,
    Atob,
    Btoa,
    Console,
    Navigator,
    Events,
    Headers,
    Response,
    Request,
    FetchEvent,
    Message,
}

impl BootScript {
    /// Where the script lies in the bundled library.
    pub open spec fn path_text(self) -> Seq<char> {
        match self {
            BootScript::Init => "init.js"@,
            BootScript::Atob => "atob.js"@,
            BootScript::Btoa => "btoa.js"@,
            BootScript::Console => "console.js"@,
            BootScript::Navigator => "navigator.js"@,
            BootScript::Events => "events.js"@,
            BootScript::Headers => "fetch/headers.js"@,
            BootScript::Response => "fetch/response.js"@,
            BootScript::Request => "fetch/request.js"@,
            BootScript::FetchEvent => "fetch/fetch-event.js"@,
            BootScript::Message => "message.js"@,
        }
    }

    /// Where the script lies in the bundled library.
    pub fn path(&self) -> (r: &'static str)
        ensures
            r@ == self.path_text(),
    {
        match self {
            BootScript::Init => "init.js",
            BootScript::Atob => "atob.js",
            BootScript::Btoa => "btoa.js",
            BootScript::Console => "console.js",
            BootScript::Navigator => "navigator.js",
            BootScript::Events => "events.js",
            BootScript::Headers => "fetch/headers.js",
            BootScript::Response => "fetch/response.js",
            BootScript::Request => "fetch/request.js",
            BootScript::FetchEvent => "fetch/fetch-event.js",
            BootScript::Message => "message.js",
        }
    }
}

/// A function of the host that start-up installs into the global object.
#[derive(Debug, Clone, Copy, PartialEq, Eq, Structural)]
pub enum Bridge {
    /// The relay of messages from the script to the host.
    PostMessage,
    /// The registration of the script's handler.
    OnMessage,
}

impl Bridge {
    /// The global name under which the script finds the function.
    pub open spec fn name_text(self) -> Seq<char> {
        match self {
            Bridge::PostMessage => "postMessage"@,
            Bridge::OnMessage => "onMessage"@,
        }
    }

    /// The global name under which the script finds the function.
    pub fn name(&self) -> (r: &'static str)
        ensures
            r@ == self.name_text(),
    {
        match self {
            Bridge::PostMessage => "postMessage",
            Bridge::OnMessage => "onMessage",
        }
    }
}

/// One step of bringing a context up.
#[derive(Debug, Clone, Copy, PartialEq, Eq, Structural)]
pub enum StartupStep {
    /// Evaluate a bundled script; it must not fail.
    Evaluate(BootScript),
    /// Install a host function into the global object.
    Install(Bridge),
}

/// The start-up sequence. Later scripts use globals that earlier ones define,
/// and the message script finds both host functions installed.
pub open spec fn startup_plan() -> Seq<StartupStep> {
    seq![
        StartupStep::Evaluate(BootScript::Init),
        StartupStep::Evaluate(BootScript::Atob),
        StartupStep::Evaluate(BootScript::Btoa),
        StartupStep::Evaluate(BootScript::Console),
        StartupStep::Evaluate(BootScript::Navigator),
        StartupStep::Evaluate(BootScript::Events),
        StartupStep::Evaluate(BootScript::Headers),
        StartupStep::Evaluate(BootScript::Response),
        StartupStep::Evaluate(BootScript::Request),
        StartupStep::Evaluate(BootScript::FetchEvent),
        StartupStep::Install(Bridge::PostMessage),
        StartupStep::Install(Bridge::OnMessage),
        StartupStep::Evaluate(BootScript::Message),
    ]
}

/// What the event loop does next within one turn.
#[derive(Debug, Clone, Copy, PartialEq, Eq, Structural)]
pub enum LoopStep {
    /// Run one pass over the engine's pending microtasks.
    DrainMicrotasks,
    /// The turn is over.
    Return,
}

/// The step that follows `passes` completed passes: a turn is one pass.
pub open spec fn loop_step(passes: usize) -> LoopStep {
    if passes == 0 {
        LoopStep::DrainMicrotasks
    } else {
        LoopStep::Return
    }
}

/// The host's record of a worker runtime.
pub struct JsRuntime<H> {
    pub state: JsState<H>,
}

impl<H> JsRuntime<H> {
    /// The record of a new runtime, with no handler registered, together with the
    /// steps that bring its context up, to be performed in this order before any
    /// other script runs. A step that fails ends start-up for good.
    pub fn create_init() -> (r: (Self, Vec<StartupStep>))
        ensures
            r.0.state.handler is None,
            r.1@ == startup_plan(),
    {
        let plan = vec![
            StartupStep::Evaluate(BootScript::Init),
            StartupStep::Evaluate(BootScript::Atob),
            StartupStep::Evaluate(BootScript::Btoa),
            StartupStep::Evaluate(BootScript::Console),
            StartupStep::Evaluate(BootScript::Navigator),
            StartupStep::Evaluate(BootScript::Events),
            StartupStep::Evaluate(BootScript::Headers),
            StartupStep::Evaluate(BootScript::Response),
            StartupStep::Evaluate(BootScript::Request),
            StartupStep::Evaluate(BootScript::FetchEvent),
            StartupStep::Install(Bridge::PostMessage),
            StartupStep::Install(Bridge::OnMessage),
            StartupStep::Evaluate(BootScript::Message),
        ];
        assert(plan@ =~= startup_plan());
        (JsRuntime { state: JsState::new() }, plan)
    }

    /// The result of evaluating a script, from what the engine reported of it.
    /// The record is left as it was, whatever the script did.
    pub fn eval(&self, outcome: ScriptOutcome) -> (r: Result<String, EvalError>)
        ensures
            eval_result_is(r, eval_spec(outcome)),
    {
        eval_result(outcome)
    }

    /// The handler to call with an event, or `None` where the script has
    /// registered none: the dispatch then has no result, and nothing is raised.
    pub fn send_message(&self) -> (target: Option<&H>)
        ensures
            self.state.targets(target),
    {
        self.state.target()
    }

    /// The next step of one event-loop turn after `passes` passes over the
    /// microtask queue. The record is not touched.
    pub fn run_event_loop(&self, passes: usize) -> (step: LoopStep)
        ensures
            step == loop_step(passes),
    {
        if passes == 0 {
            LoopStep::DrainMicrotasks
        } else {
            LoopStep::Return
        }
    }
}

/// The report of a promise rejection: the event, the rejection's value if there
/// is one, and the promise, each already rendered.
pub open spec fn promise_reject_text(event: Seq<char>, value: Option<Seq<char>>, promise: Seq<char>) -> Seq<char> {
    "Promise rejected "@ + event + match value {
        None => " value=None"@,
        Some(text) => " value=Some("@ + text + ")"@,
    } + " "@ + promise
}

/// The line that the host logs when the engine reports a rejected promise
/// that nothing handles.
pub fn promise_reject_callback(event: &str, value: Option<&str>, promise: &str) -> (line: String)
    ensures
        line@ == promise_reject_text(
            event@,
            match value {
                Some(text) => Some(text@),
                None => None,
            },
            promise@,
        ),
{
    let mut line = String::from_str("Promise rejected ");
    line.append(event);
    match value {
        None => {
            line.append(" value=None");
        },
        Some(text) => {
            line.append(" value=Some(");
            line.append(text);
            line.append(")");
            assert(line@ =~= "Promise rejected "@ + event@ + (" value=Some("@ + text@ + ")"@));
        },
    }
    line.append(" ");
    line.append(promise);
    line
}

/// The report of an uncaught exception: the engine's message and the thrown
/// value, both already rendered.
pub open spec fn message_text(message: Seq<char>, value: Seq<char>) -> Seq<char> {
    "Message callback "@ + message + " "@ + value
}

/// The line that the host logs for an uncaught exception.
pub fn message_callback(message: &str, value: &str) -> (line: String)
    ensures
        line@ == message_text(message@, value@),
{
    let mut line = String::from_str("Message callback ");
    line.append(message);
    line.append(" ");
    line.append(value);
    line
}

/// Before any handler is registered a dispatch calls nothing, has no result and
/// raises nothing.
pub proof fn lemma_dispatch_without_handler<H, V>(state: JsState<H>, target: Option<&H>)
    requires
        state.handler is None,
        state.targets(target),
    ensures
        target is None,
        dispatch_spec::<V>(None) == Ok::<Option<V>, EvalError>(None),
{
}

/// After two registrations in a fresh context the second was refused with an
/// error for the script, and a dispatch calls the first callback.
pub proof fn lemma_dispatch_calls_first_handler<H>(
    state: JsState<H>,
    first: H,
    second: H,
    target: Option<&H>,
)
    requires
        state.handler is None,
        register_spec(register_spec(state, Some(first)).0, Some(second)).0.targets(target),
    ensures
        register_spec(register_spec(state, Some(first)).0, Some(second)).1
            == Registration::AlreadyRegistered,
        target matches Some(handler) && *handler == first,
{
}

/// A turn of the event loop is one pass: the step after none is a pass, and the
/// step after any pass ends the turn, at every call alike.
pub proof fn lemma_turn_is_one_pass(passes: usize)
    ensures
        loop_step(0) == LoopStep::DrainMicrotasks,
        passes > 0 ==> loop_step(passes) == LoopStep::Return,
{
}

} // verus!
