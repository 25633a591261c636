use restate_mock::json::{Json, JsonValue};
use restate_mock::mock::context::Variable;
use restate_mock::mock::steps::{
    AnyStep, CallStep, EchoStep, GetStep, IncrementStep, RandomStep, ReturnStep, SetStep,
    SleepStep,
};
use restate_mock::mock::{
    HostReply, HostRequest, MockHandler, Pause, Progress, RequestTarget, ServiceType, Step,
    StepFailure,
};
use restate_mock::number::Number;
use restate_sdk::errors::TerminalError;

fn input() -> JsonValue {
    JsonValue(Json::Object(vec![("x".to_string(), Json::Number(Number::PosInt(1)))]))
}

fn handler(steps: Vec<AnyStep>) -> MockHandler {
    MockHandler { steps, ty: None }
}

fn integer(n: u64) -> JsonValue {
    JsonValue(Json::Object(vec![("Integer".to_string(), Json::Number(Number::PosInt(n)))]))
}

#[test]
fn sleep_then_echo_returns_the_input_after_the_pause() {
    let handler = handler(vec![
        AnyStep::Sleep(SleepStep { duration: Pause { secs: 2, nanos: 0 }, jitter: None }),
        AnyStep::Echo(EchoStep),
    ]);
    let invocation = match handler.run(&input(), "") {
        Progress::Suspended { invocation, request } => {
            assert_eq!(
                request,
                HostRequest::Sleep { duration: Pause { secs: 2, nanos: 0 }, jitter: None }
            );
            invocation
        }
        other => panic!("the handler came to {:?}", other),
    };
    match handler.resume(invocation, HostReply::Done, &input(), "") {
        Progress::Completed(value) => assert_eq!(value, input()),
        other => panic!("the handler came to {:?}", other),
    }
}

#[test]
fn set_of_a_variable_that_is_never_set_fails_the_invocation() {
    let step = SetStep { key: "k".to_string(), input: "missing".to_string() };
    assert!(step.validate(ServiceType::Service).is_err());
    assert!(step.validate(ServiceType::VirtualObject).is_ok());
    let handler = handler(vec![AnyStep::SetState(step)]);
    match handler.run(&input(), "key") {
        Progress::Failed(StepFailure::UnknownVariable(name)) => assert_eq!(name, "missing"),
        other => panic!("the handler came to {:?}", other),
    }
}

#[test]
fn a_handler_without_steps_returns_null() {
    match handler(vec![]).run(&input(), "") {
        Progress::Completed(value) => assert_eq!(value, JsonValue(Json::Null)),
        other => panic!("the handler came to {:?}", other),
    }
}

#[test]
fn a_handler_without_a_returning_step_returns_null() {
    let handler = handler(vec![AnyStep::Increment(IncrementStep { input: "n".to_string(), steps: 1 })]);
    match handler.run(&input(), "") {
        Progress::Completed(value) => assert_eq!(value, JsonValue(Json::Null)),
        other => panic!("the handler came to {:?}", other),
    }
}

#[test]
fn steps_run_in_order_on_one_scratch_space() {
    let handler = handler(vec![
        AnyStep::Increment(IncrementStep { input: "n".to_string(), steps: 5 }),
        AnyStep::Increment(IncrementStep { input: "n".to_string(), steps: -2 }),
        AnyStep::Return(ReturnStep { output: "n".to_string() }),
    ]);
    match handler.run(&input(), "") {
        Progress::Completed(value) => assert_eq!(value, integer(3)),
        other => panic!("the handler came to {:?}", other),
    }
}

#[test]
fn each_invocation_starts_on_a_fresh_scratch_space() {
    let handler = handler(vec![
        AnyStep::Increment(IncrementStep { input: "n".to_string(), steps: 1 }),
        AnyStep::Return(ReturnStep { output: "n".to_string() }),
    ]);
    for _ in 0..3 {
        match handler.run(&input(), "") {
            Progress::Completed(value) => assert_eq!(value, integer(1)),
            other => panic!("the handler came to {:?}", other),
        }
    }
}

#[test]
fn the_first_failure_stops_the_handler() {
    let handler = handler(vec![
        AnyStep::Return(ReturnStep { output: "nothing".to_string() }),
        AnyStep::Sleep(SleepStep { duration: Pause { secs: 1, nanos: 0 }, jitter: None }),
        AnyStep::Echo(EchoStep),
    ]);
    match handler.run(&input(), "") {
        Progress::Failed(StepFailure::UnknownVariable(name)) => assert_eq!(name, "nothing"),
        other => panic!("the handler came to {:?}", other),
    }
}

#[test]
fn a_second_returning_step_fails_the_handler() {
    let handler = handler(vec![AnyStep::Echo(EchoStep), AnyStep::Echo(EchoStep)]);
    assert!(matches!(handler.run(&input(), ""), Progress::Failed(StepFailure::ReturnAlreadySet)));
}

#[test]
fn get_then_increment_then_set_goes_through_the_host_twice() {
    let handler = handler(vec![
        AnyStep::GetState(GetStep { key: "count".to_string(), output: "n".to_string() }),
        AnyStep::Increment(IncrementStep { input: "n".to_string(), steps: 1 }),
        AnyStep::SetState(SetStep { key: "count".to_string(), input: "n".to_string() }),
        AnyStep::Return(ReturnStep { output: "n".to_string() }),
    ]);
    let invocation = match handler.run(&input(), "k") {
        Progress::Suspended { invocation, request } => {
            assert_eq!(request, HostRequest::GetState { key: "count".to_string() });
            invocation
        }
        other => panic!("the handler came to {:?}", other),
    };
    let reply = HostReply::State(Some(Variable::Integer(41)));
    let invocation = match handler.resume(invocation, reply, &input(), "k") {
        Progress::Suspended { invocation, request } => {
            assert_eq!(
                request,
                HostRequest::SetState { key: "count".to_string(), value: Variable::Integer(42) }
            );
            invocation
        }
        other => panic!("the handler came to {:?}", other),
    };
    match handler.resume(invocation, HostReply::Done, &input(), "k") {
        Progress::Completed(value) => assert_eq!(value, integer(42)),
        other => panic!("the handler came to {:?}", other),
    }
}

#[test]
fn a_failure_of_the_host_ends_the_invocation_and_later_steps_do_not_run() {
    let handler = handler(vec![
        AnyStep::Call(CallStep {
            target_type: ServiceType::Service,
            service: "other".to_string(),
            handler: "work".to_string(),
            key: None,
            input: None,
            output: Some("r".to_string()),
        }),
        AnyStep::Echo(EchoStep),
    ]);
    let invocation = match handler.run(&input(), "") {
        Progress::Suspended { invocation, request } => {
            assert_eq!(
                request,
                HostRequest::Call {
                    target: RequestTarget::Service {
                        name: "other".to_string(),
                        handler: "work".to_string(),
                    },
                    input: Variable::Null,
                }
            );
            invocation
        }
        other => panic!("the handler came to {:?}", other),
    };
    let reply = HostReply::Failed(TerminalError::new_with_code(404, "no such handler"));
    match handler.resume(invocation, reply, &input(), "") {
        Progress::Failed(StepFailure::Host(error)) => {
            assert_eq!(error.code(), 404);
            assert_eq!(error.message(), "no such handler");
        }
        other => panic!("the handler came to {:?}", other),
    }
}

#[test]
fn a_reply_of_the_wrong_kind_fails_the_invocation() {
    let handler = handler(vec![AnyStep::Sleep(SleepStep {
        duration: Pause { secs: 1, nanos: 0 },
        jitter: None,
    })]);
    let invocation = match handler.run(&input(), "") {
        Progress::Suspended { invocation, .. } => invocation,
        other => panic!("the handler came to {:?}", other),
    };
    assert!(matches!(
        handler.resume(invocation, HostReply::State(None), &input(), ""),
        Progress::Failed(StepFailure::UnexpectedReply)
    ));
}

#[test]
fn an_invocation_resumed_on_a_shorter_handler_fails() {
    let long = handler(vec![
        AnyStep::Echo(EchoStep),
        AnyStep::Sleep(SleepStep { duration: Pause { secs: 1, nanos: 0 }, jitter: None }),
    ]);
    let short = handler(vec![AnyStep::Echo(EchoStep)]);
    let invocation = match long.run(&input(), "") {
        Progress::Suspended { invocation, .. } => invocation,
        other => panic!("the handler came to {:?}", other),
    };
    assert!(matches!(
        short.resume(invocation, HostReply::Done, &input(), ""),
        Progress::Failed(StepFailure::UnexpectedReply)
    ));
}

#[test]
fn random_then_return_returns_as_many_bytes_as_asked() {
    let handler = handler(vec![
        AnyStep::Random(RandomStep { size: 16, output: "blob".to_string() }),
        AnyStep::Return(ReturnStep { output: "blob".to_string() }),
    ]);
    match handler.run(&input(), "") {
        Progress::Completed(JsonValue(Json::Object(members))) => {
            assert_eq!(members.len(), 1);
            assert_eq!(members[0].0, "Bytes");
            match &members[0].1 {
                Json::Array(items) => assert_eq!(items.len(), 16),
                other => panic!("the bytes were returned as {:?}", other),
            }
        }
        other => panic!("the handler came to {:?}", other),
    }
}
