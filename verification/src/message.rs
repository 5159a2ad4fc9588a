//! The two bridge functions that a script calls: relaying a message to the host
//! and registering the one handler that the host may invoke later.

use vstd::prelude::*;
use vstd::string::StringExecFns;
use crate::base::JsState;
use crate::text::{append_spaced, spaced, texts};

verus! {

/// The class of an error raised back into the script.
#[derive(Debug, Clone, Copy, PartialEq, Eq, Structural)]
pub enum ExceptionKind {
    /// A `TypeError`.
    TypeError,
    /// A plain `Error`.
    Error,
}

/// An error that the host raises into the script, which the script may catch.
#[derive(Debug)]
pub struct ScriptException {
    pub kind: ExceptionKind,
    pub message: String,
}

impl ScriptException {
    /// Whether this is an error of class `kind` with the text `message`.
    pub open spec fn carries(self, kind: ExceptionKind, message: Seq<char>) -> bool {
        self.kind == kind && self.message@ == message
    }
}

/// The kinds of relayed message that the host understands.
#[derive(Debug, Clone, Copy, PartialEq, Eq, Structural)]
pub enum MessageKind {
    /// A console record.
    Console,
    /// Anything else.
    Unrecognized,
}

impl MessageKind {
    /// The kind that a `kind` field stands for.
    pub open spec fn of(kind: Seq<char>) -> MessageKind {
        if kind == "console"@ {
            MessageKind::Console
        } else {
            MessageKind::Unrecognized
        }
    }

    /// Reads the `kind` field of a relayed message.
    pub fn parse(kind: &str) -> (r: MessageKind)
        ensures
            r == MessageKind::of(kind@),
    {
        if String::from_str(kind) == String::from_str("console") {
            MessageKind::Console
        } else {
            MessageKind::Unrecognized
        }
    }
}

/// The payload of a console record, as the script sent it.
#[derive(Debug)]
pub struct ConsoleRecord {
    /// The console method that was called (`info`, `warn`, ...).
    pub level: String,
    /// Milliseconds since the Unix epoch; `None` where the field held no integer.
    pub date: Option<i64>,
    /// The text forms of the logged values, in order.
    pub args: Vec<String>,
}

/// A relayed message, read as far as the host understands it.
#[derive(Debug)]
pub enum WorkerMessage {
    /// `kind` was `"console"`.
    Console(ConsoleRecord),
    /// `kind` was something else; the field's text is kept for the diagnostic.
    Unrecognized(String),
}

/// What the host does with a relayed message.
#[derive(Debug)]
pub enum RelayAction {
    /// Raise this error into the script and do nothing else.
    Throw(ScriptException),
    /// Write this console line to the host's output.
    Log(String),
    /// Write this notice about a message of unknown kind; no error is raised.
    Diagnostic(String),
}

/// The calendar form of a timestamp in milliseconds since the Unix epoch, as
/// `chrono` renders it, or `None` where `chrono` cannot represent the instant.
pub uninterp spec fn calendar_text(millis: i64) -> Option<Seq<char>>;

/// Calls `chrono::NaiveDateTime::from_timestamp_millis` and renders the value with
/// its `Debug` form (`1970-01-01T00:00:00`).
///
/// Trusted: the result is a function of `millis` alone, named `calendar_text`, and
/// the epoch itself is representable.
#[verifier::external_body]
#[allow(deprecated)]
fn calendar_time(millis: i64) -> (r: Option<String>)
    ensures
        r is Some <==> calendar_text(millis) is Some,
        r matches Some(s) ==> calendar_text(millis) == Some(s@),
        millis == 0 ==> r is Some,
{
    match chrono::NaiveDateTime::from_timestamp_millis(millis) {
        Some(moment) => Some(format!("{:?}", moment)),
        None => None,
    }
}

/// The timestamp text of a console record: the calendar form of `date`, and that
/// of the epoch where `date` is missing or beyond what the calendar can hold.
pub open spec fn stamp_text(date: Option<i64>) -> Seq<char> {
    let millis = match date {
        Some(m) => m,
        None => 0,
    };
    match calendar_text(millis) {
        Some(t) => t,
        None => calendar_text(0).unwrap(),
    }
}

/// The line for a console record: `[stamp] console.level:` and then each
/// argument after one space.
pub open spec fn console_line(stamp: Seq<char>, level: Seq<char>, args: Seq<Seq<char>>) -> Seq<char> {
    "["@ + stamp + "] console."@ + level + ":"@ + spaced(args)
}

/// The notice for a message whose kind the host does not know.
pub open spec fn unknown_kind_line(kind: Seq<char>) -> Seq<char> {
    "Unknown message kind: "@ + kind
}

/// Renders the timestamp of a console record.
pub fn console_stamp(date: Option<i64>) -> (r: String)
    ensures
        r@ == stamp_text(date),
{
    let millis: i64 = match date {
        Some(m) => m,
        None => 0,
    };
    match calendar_time(millis) {
        Some(t) => t,
        None => calendar_time(0).unwrap(),
    }
}

/// Builds the line for a console record from its rendered timestamp.
pub fn format_console_line(stamp: &str, level: &str, args: &Vec<String>) -> (r: String)
    ensures
        r@ == console_line(stamp@, level@, texts(args@)),
{
    let mut line = String::from_str("[");
    line.append(stamp);
    line.append("] console.");
    line.append(level);
    line.append(":");
    append_spaced(&mut line, args);
    line
}

/// Builds the notice for a message of unknown kind.
pub fn format_unknown_kind(kind: &str) -> (r: String)
    ensures
        r@ == unknown_kind_line(kind@),
{
    let mut line = String::from_str("Unknown message kind: ");
    line.append(kind);
    line
}

/// Whether a relay call came with exactly one argument.
pub open spec fn relay_arity_ok(argc: i32) -> bool {
    argc == 1
}

/// Checks the argument count of a relay call, before anything is read from it:
/// the error to raise where the count is not one.
pub fn relay_arity_error(argc: i32) -> (r: Option<ScriptException>)
    ensures
        relay_arity_ok(argc) <==> r is None,
        r matches Some(e) ==> e.carries(
            ExceptionKind::TypeError,
            "postMessage expects 1 argument"@,
        ),
{
    if argc == 1 {
        None
    } else {
        Some(
            ScriptException {
                kind: ExceptionKind::TypeError,
                message: String::from_str("postMessage expects 1 argument"),
            },
        )
    }
}

/// Whether `action` is what the host owes a relay call made with `argc` arguments
/// whose single argument read as `message`.
pub open spec fn relays(argc: i32, message: WorkerMessage, action: RelayAction) -> bool {
    if !relay_arity_ok(argc) {
        action matches RelayAction::Throw(e) && e.carries(
            ExceptionKind::TypeError,
            "postMessage expects 1 argument"@,
        )
    } else {
        match message {
            WorkerMessage::Console(record) => action matches RelayAction::Log(line) && line@
                == console_line(stamp_text(record.date), record.level@, texts(record.args@)),
            WorkerMessage::Unrecognized(kind) => action matches RelayAction::Diagnostic(line)
                && line@ == unknown_kind_line(kind@),
        }
    }
}

/// The relay function that a script calls to ship a message to the host.
///
/// A call with any number of arguments but one raises a type error. A console
/// record becomes one line for the host's output; a message of any other kind
/// becomes a notice and raises nothing.
pub fn message_from_worker(argc: i32, message: &WorkerMessage) -> (r: RelayAction)
    ensures
        relays(argc, *message, r),
{
    match relay_arity_error(argc) {
        Some(error) => RelayAction::Throw(error),
        None => match message {
            WorkerMessage::Console(record) => {
                let stamp = console_stamp(record.date);
                RelayAction::Log(
                    format_console_line(stamp.as_str(), record.level.as_str(), &record.args),
                )
            },
            WorkerMessage::Unrecognized(kind) => RelayAction::Diagnostic(
                format_unknown_kind(kind.as_str()),
            ),
        },
    }
}

/// How a registration call ended.
#[derive(Debug, Clone, Copy, PartialEq, Eq, Structural)]
pub enum Registration {
    /// The callback is now the context's handler.
    Registered,
    /// The argument was not callable.
    NotCallable,
    /// The context already had a handler, which stays.
    AlreadyRegistered,
}

impl Registration {
    /// The error that the script sees, if any.
    pub fn exception(&self) -> (r: Option<ScriptException>)
        ensures
            *self == Registration::Registered <==> r is None,
            *self == Registration::NotCallable ==> (r matches Some(e) && e.carries(
                ExceptionKind::TypeError,
                "Arg 0 is not a function"@,
            )),
            *self == Registration::AlreadyRegistered ==> (r matches Some(e) && e.carries(
                ExceptionKind::Error,
                "Handler already registered"@,
            )),
    {
        match self {
            Registration::Registered => None,
            Registration::NotCallable => Some(
                ScriptException {
                    kind: ExceptionKind::TypeError,
                    message: String::from_str("Arg 0 is not a function"),
                },
            ),
            Registration::AlreadyRegistered => Some(
                ScriptException {
                    kind: ExceptionKind::Error,
                    message: String::from_str("Handler already registered"),
                },
            ),
        }
    }
}

/// The state and the outcome after a registration call with `callback`, which is
/// `None` where the script passed something that is not callable.
pub open spec fn register_spec<H>(state: JsState<H>, callback: Option<H>) -> (
    JsState<H>,
    Registration,
) {
    match callback {
        None => (state, Registration::NotCallable),
        Some(h) => if state.handler is Some {
            (state, Registration::AlreadyRegistered)
        } else {
            (JsState { handler: Some(h) }, Registration::Registered)
        },
    }
}

/// The registration function that a script calls to install its handler.
///
/// The first callable registered in a context becomes its handler. Every later
/// call fails and leaves that handler in place.
pub fn register_message_handler<H>(state: &mut JsState<H>, callback: Option<H>) -> (r:
    Registration)
    ensures
        (*final(state), r) == register_spec(*old(state), callback),
{
    match callback {
        None => Registration::NotCallable,
        Some(h) => {
            if state.handler.is_some() {
                Registration::AlreadyRegistered
            } else {
                state.handler = Some(h);
                Registration::Registered
            }
        },
    }
}

/// A context that has a handler keeps exactly that handler, whatever is
/// registered afterwards, and no such call succeeds.
pub proof fn lemma_handler_is_kept<H>(state: JsState<H>, callback: Option<H>)
    requires
        state.handler is Some,
    ensures
        register_spec(state, callback).0 == state,
        register_spec(state, callback).1 != Registration::Registered,
        callback is Some ==> register_spec(state, callback).1 == Registration::AlreadyRegistered,
{
}

/// Of two registrations in a fresh context the first succeeds, the second is
/// refused, and the first callback remains the handler.
pub proof fn lemma_registration_is_once<H>(state: JsState<H>, first: H, second: H)
    requires
        state.handler is None,
    ensures
        ({
            let (after_first, outcome_first) = register_spec(state, Some(first));
            let (after_second, outcome_second) = register_spec(after_first, Some(second));
            &&& outcome_first == Registration::Registered
            &&& outcome_second == Registration::AlreadyRegistered
            &&& after_second.handler == Some(first)
        }),
{
}

} // verus!
