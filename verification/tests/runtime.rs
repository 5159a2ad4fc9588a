use worker_runtime::base::{dispatch_result, CallOutcome, ScriptOutcome};
use worker_runtime::message::{register_message_handler, Registration};
use worker_runtime::runtime::{
    message_callback, promise_reject_callback, BootScript, Bridge, LoopStep, StartupStep,
};
use worker_runtime::{EvalError, JsRuntime};

#[test]
fn startup_runs_scripts_then_bridges_then_message_script() {
    let (rt, plan) = JsRuntime::<u64>::create_init();
    assert!(rt.state.handler.is_none());
    assert_eq!(
        plan,
        vec![
            StartupStep::Evaluate(BootScript::Init),
            StartupStep::Evaluate(BootScript::Atob),
            StartupStep::Evaluate(BootScript::Btoa),
            StartupStep::Evaluate(BootScript::Console),
            StartupStep::Evaluate(BootScript::Navigator),
            StartupStep::Evaluate(BootScript::Events),
            StartupStep::Evaluate(BootScript::Headers),
            StartupStep::Evaluate(BootScript::Response),
            StartupStep::Evaluate(BootScript::Request),
            StartupStep::Evaluate(BootScript::FetchEvent),
            StartupStep::Install(Bridge::PostMessage),
            StartupStep::Install(Bridge::OnMessage),
            StartupStep::Evaluate(BootScript::Message),
        ]
    );
}

#[test]
fn boot_scripts_lie_where_the_bundle_has_them() {
    assert_eq!(BootScript::Init.path(), "init.js");
    assert_eq!(BootScript::Atob.path(), "atob.js");
    assert_eq!(BootScript::Btoa.path(), "btoa.js");
    assert_eq!(BootScript::Console.path(), "console.js");
    assert_eq!(BootScript::Navigator.path(), "navigator.js");
    assert_eq!(BootScript::Events.path(), "events.js");
    assert_eq!(BootScript::Headers.path(), "fetch/headers.js");
    assert_eq!(BootScript::Response.path(), "fetch/response.js");
    assert_eq!(BootScript::Request.path(), "fetch/request.js");
    assert_eq!(BootScript::FetchEvent.path(), "fetch/fetch-event.js");
    assert_eq!(BootScript::Message.path(), "message.js");
}

#[test]
fn bridges_have_their_global_names() {
    assert_eq!(Bridge::PostMessage.name(), "postMessage");
    assert_eq!(Bridge::OnMessage.name(), "onMessage");
}

#[test]
fn runtime_eval_maps_outcomes() {
    let (rt, _) = JsRuntime::<u64>::create_init();
    assert_eq!(
        rt.eval(ScriptOutcome::Completed(String::from("2"))),
        Ok(String::from("2"))
    );
    assert_eq!(rt.eval(ScriptOutcome::Threw), Err(EvalError::RuntimeError));
    assert_eq!(
        rt.eval(ScriptOutcome::CompileFailed),
        Err(EvalError::CompileError)
    );
    assert_eq!(
        rt.eval(ScriptOutcome::SourceRejected),
        Err(EvalError::CompileError)
    );
    assert_eq!(
        rt.eval(ScriptOutcome::NotConvertible),
        Err(EvalError::ConversionError)
    );
    assert_eq!(
        rt.eval(ScriptOutcome::Completed(String::from("xxx"))),
        Ok(String::from("xxx"))
    );
}

#[test]
fn dispatch_before_registration_has_no_result() {
    let (rt, _) = JsRuntime::<u64>::create_init();
    let target = rt.send_message();
    assert_eq!(target, None);
    let result: Result<Option<String>, EvalError> = dispatch_result(None);
    assert_eq!(result, Ok(None));
}

#[test]
fn dispatch_calls_the_first_registered_handler() {
    let (mut rt, _) = JsRuntime::<u64>::create_init();
    assert_eq!(
        register_message_handler(&mut rt.state, Some(1)),
        Registration::Registered
    );
    assert_eq!(
        register_message_handler(&mut rt.state, Some(2)),
        Registration::AlreadyRegistered
    );
    assert_eq!(rt.send_message(), Some(&1));
    let call = rt.send_message().map(|h| CallOutcome::Returned(*h + 40));
    assert_eq!(dispatch_result(call), Ok(Some(41)));
}

#[test]
fn event_loop_turn_is_one_pass() {
    let (rt, _) = JsRuntime::<u64>::create_init();
    assert_eq!(rt.run_event_loop(0), LoopStep::DrainMicrotasks);
    assert_eq!(rt.run_event_loop(1), LoopStep::Return);
    assert_eq!(rt.run_event_loop(2), LoopStep::Return);
    assert_eq!(rt.run_event_loop(usize::MAX), LoopStep::Return);
}

#[test]
fn repeated_event_loop_turns_change_nothing() {
    let (mut rt, _) = JsRuntime::<u64>::create_init();
    rt.state.handler = Some(9);
    for _ in 0..3 {
        let mut passes = 0;
        while rt.run_event_loop(passes) == LoopStep::DrainMicrotasks {
            passes += 1;
        }
        assert_eq!(passes, 1);
        assert_eq!(rt.state.handler, Some(9));
    }
}

#[test]
fn promise_rejection_line_without_value() {
    assert_eq!(
        promise_reject_callback("PromiseRejectWithNoHandler", None, "Promise"),
        "Promise rejected PromiseRejectWithNoHandler value=None Promise"
    );
}

#[test]
fn promise_rejection_line_with_value() {
    assert_eq!(
        promise_reject_callback("PromiseRejectWithNoHandler", Some("Error: x"), "Promise"),
        "Promise rejected PromiseRejectWithNoHandler value=Some(Error: x) Promise"
    );
}

#[test]
fn uncaught_exception_line() {
    assert_eq!(
        message_callback("\"Uncaught Error: test\"", "Object"),
        "Message callback \"Uncaught Error: test\" Object"
    );
}
