use bytes::Bytes;
use restate_mock::json::{Json, JsonValue};
use restate_mock::mock::context::{ExecutionContext, Variable};
use restate_mock::mock::steps::{
    AnyStep, BusyStep, CallStep, EchoStep, GetStep, IncrementStep, RandomStep, ReturnStep,
    SendStep, SetStep, SleepStep,
};
use restate_mock::mock::{
    HostReply, HostRequest, Pause, RequestTarget, ServiceType, Step, StepError, StepFailure,
    StepOutcome,
};
use restate_mock::number::{Float, Number};
use restate_sdk::errors::TerminalError;

fn input() -> JsonValue {
    JsonValue(Json::Object(vec![("x".to_string(), Json::Number(Number::PosInt(1)))]))
}

fn call_to(target_type: ServiceType, key: Option<&str>) -> CallStep {
    CallStep {
        target_type,
        service: "counter".to_string(),
        handler: "add".to_string(),
        key: key.map(|k| k.to_string()),
        input: Some("payload".to_string()),
        output: Some("answer".to_string()),
    }
}

#[test]
fn set_and_get_fail_validation_under_a_stateless_service() {
    let set = SetStep { key: "k".to_string(), input: "v".to_string() };
    let get = GetStep { key: "k".to_string(), output: "v".to_string() };
    assert_eq!(
        set.validate(ServiceType::Service),
        Err(StepError::InvalidServiceType(ServiceType::Service))
    );
    assert_eq!(
        get.validate(ServiceType::Service),
        Err(StepError::InvalidServiceType(ServiceType::Service))
    );
    assert_eq!(
        AnyStep::SetState(set).validate(ServiceType::Service),
        Err(StepError::InvalidServiceType(ServiceType::Service))
    );
}

#[test]
fn set_and_get_pass_validation_under_objects_and_workflows() {
    let set = SetStep { key: "k".to_string(), input: "v".to_string() };
    let get = GetStep { key: "k".to_string(), output: "v".to_string() };
    assert_eq!(set.validate(ServiceType::VirtualObject), Ok(()));
    assert_eq!(set.validate(ServiceType::Workflow), Ok(()));
    assert_eq!(get.validate(ServiceType::VirtualObject), Ok(()));
    assert_eq!(get.validate(ServiceType::Workflow), Ok(()));
}

#[test]
fn the_other_steps_pass_validation_under_every_service() {
    let steps = vec![
        AnyStep::Echo(EchoStep),
        AnyStep::Sleep(SleepStep { duration: Pause { secs: 1, nanos: 0 }, jitter: None }),
        AnyStep::Busy(BusyStep { duration: Pause { secs: 1, nanos: 0 }, jitter: None }),
        AnyStep::Random(RandomStep { size: 1, output: "o".to_string() }),
        AnyStep::Return(ReturnStep { output: "o".to_string() }),
        AnyStep::Increment(IncrementStep { input: "n".to_string(), steps: 1 }),
        AnyStep::Call(call_to(ServiceType::Service, None)),
        AnyStep::Send(SendStep {
            target_type: ServiceType::Service,
            service: "s".to_string(),
            handler: "h".to_string(),
            key: None,
            input: None,
        }),
    ];
    for step in &steps {
        for ty in [ServiceType::Service, ServiceType::VirtualObject, ServiceType::Workflow] {
            assert_eq!(step.validate(ty), Ok(()));
        }
    }
}

#[test]
fn service_type_is_keyed_unless_it_is_a_plain_service() {
    assert!(!ServiceType::Service.is_keyed());
    assert!(ServiceType::VirtualObject.is_keyed());
    assert!(ServiceType::Workflow.is_keyed());
}

#[test]
fn echo_copies_the_input_to_the_return_value() {
    let mut context = ExecutionContext::new();
    let outcome = EchoStep.run(&mut context, &input(), "");
    assert!(matches!(outcome, StepOutcome::Done));
    assert_eq!(context.ret(), Some(input()));
}

#[test]
fn echo_after_a_return_value_fails_and_keeps_the_first() {
    let mut context = ExecutionContext::new();
    context.return_value(JsonValue(Json::Bool(true)));
    let outcome = EchoStep.run(&mut context, &input(), "");
    assert!(matches!(outcome, StepOutcome::Failed(StepFailure::ReturnAlreadySet)));
    assert_eq!(context.ret(), Some(JsonValue(Json::Bool(true))));
}

#[test]
fn increment_without_a_variable_and_default_steps_leaves_one() {
    let mut context = ExecutionContext::new();
    let step = IncrementStep { input: "n".to_string(), steps: 1 };
    assert!(matches!(step.run(&mut context, &input(), ""), StepOutcome::Done));
    assert_eq!(context.get::<isize>("n"), Some(Ok(1)));
}

#[test]
fn increment_from_five_by_minus_two_leaves_three() {
    let mut context = ExecutionContext::new();
    context.set("n", Variable::Integer(5));
    let step = IncrementStep { input: "n".to_string(), steps: -2 };
    assert!(matches!(step.run(&mut context, &input(), ""), StepOutcome::Done));
    assert_eq!(context.get::<isize>("n"), Some(Ok(3)));
}

#[test]
fn increment_starts_from_zero_on_another_type_or_null() {
    let mut context = ExecutionContext::new();
    context.set("a", Variable::String("7".to_string()));
    context.set("b", Variable::Null);
    context.set("c", Variable::Number(Float::from_bits(7.0f64.to_bits())));
    for name in ["a", "b", "c"] {
        let step = IncrementStep { input: name.to_string(), steps: 4 };
        assert!(matches!(step.run(&mut context, &input(), ""), StepOutcome::Done));
        assert_eq!(context.get::<isize>(name), Some(Ok(4)));
    }
}

#[test]
fn increment_beyond_the_integer_range_fails_and_changes_nothing() {
    let mut context = ExecutionContext::new();
    context.set("n", Variable::Integer(isize::MAX));
    let up = IncrementStep { input: "n".to_string(), steps: 1 };
    assert!(matches!(up.run(&mut context, &input(), ""), StepOutcome::Failed(StepFailure::Overflow)));
    assert_eq!(context.get::<isize>("n"), Some(Ok(isize::MAX)));
    context.set("m", Variable::Integer(isize::MIN));
    let down = IncrementStep { input: "m".to_string(), steps: -1 };
    assert!(matches!(down.run(&mut context, &input(), ""), StepOutcome::Failed(StepFailure::Overflow)));
    assert_eq!(context.get::<isize>("m"), Some(Ok(isize::MIN)));
}

#[test]
fn random_with_size_sixteen_stores_sixteen_bytes_under_the_output_name() {
    let mut context = ExecutionContext::new();
    let step = RandomStep { size: 16, output: "blob".to_string() };
    assert!(matches!(step.run(&mut context, &input(), ""), StepOutcome::Done));
    match context.get::<Bytes>("blob") {
        Some(Ok(bytes)) => assert_eq!(bytes.len(), 16),
        other => panic!("the variable holds {:?}", other),
    }
}

#[test]
fn random_draws_as_many_bytes_as_asked() {
    for size in [0u16, 1, 255, 4096] {
        let step = RandomStep { size, output: "o".to_string() };
        assert_eq!(step.draw().len(), size as usize);
    }
}

#[test]
fn random_store_puts_the_given_bytes_under_the_output_name() {
    let mut context = ExecutionContext::new();
    let step = RandomStep { size: 3, output: "blob".to_string() };
    step.store(&mut context, vec![9, 8, 7]);
    assert_eq!(context.get_variable("blob"), Some(&Variable::Bytes(Bytes::from_static(&[9, 8, 7]))));
}

#[test]
fn return_sets_the_written_variable_as_the_return_value() {
    let mut context = ExecutionContext::new();
    context.set("out", Variable::Integer(3));
    let step = ReturnStep { output: "out".to_string() };
    assert!(matches!(step.run(&mut context, &input(), ""), StepOutcome::Done));
    assert_eq!(
        context.ret(),
        Some(JsonValue(Json::Object(vec![("Integer".to_string(), Json::Number(Number::PosInt(3)))])))
    );
}

#[test]
fn return_of_a_stored_null_returns_the_written_null() {
    let mut context = ExecutionContext::new();
    context.set("out", Variable::Null);
    let step = ReturnStep { output: "out".to_string() };
    assert!(matches!(step.run(&mut context, &input(), ""), StepOutcome::Done));
    assert_eq!(context.ret(), Some(JsonValue(Json::String("Null".to_string()))));
}

#[test]
fn return_of_an_unknown_variable_fails() {
    let mut context = ExecutionContext::new();
    let step = ReturnStep { output: "out".to_string() };
    match step.run(&mut context, &input(), "") {
        StepOutcome::Failed(StepFailure::UnknownVariable(name)) => assert_eq!(name, "out"),
        other => panic!("the step ended in {:?}", other),
    }
    assert!(!context.has_returned());
}

#[test]
fn return_after_a_return_value_fails() {
    let mut context = ExecutionContext::new();
    context.set("out", Variable::Integer(3));
    context.return_value(input());
    let step = ReturnStep { output: "out".to_string() };
    assert!(matches!(
        step.run(&mut context, &input(), ""),
        StepOutcome::Failed(StepFailure::ReturnAlreadySet)
    ));
    assert_eq!(context.ret(), Some(input()));
}

#[test]
fn set_asks_the_host_to_write_the_variable() {
    let mut context = ExecutionContext::new();
    context.set("v", Variable::Boolean(true));
    let step = SetStep { key: "k".to_string(), input: "v".to_string() };
    match step.run(&mut context, &input(), "") {
        StepOutcome::Suspend(request) => assert_eq!(
            request,
            HostRequest::SetState { key: "k".to_string(), value: Variable::Boolean(true) }
        ),
        other => panic!("the step ended in {:?}", other),
    }
    assert!(matches!(step.resume(&mut context, HostReply::Done), Ok(())));
}

#[test]
fn set_of_an_unknown_variable_fails() {
    let mut context = ExecutionContext::new();
    let step = SetStep { key: "k".to_string(), input: "missing".to_string() };
    match step.run(&mut context, &input(), "") {
        StepOutcome::Failed(StepFailure::UnknownVariable(name)) => assert_eq!(name, "missing"),
        other => panic!("the step ended in {:?}", other),
    }
}

#[test]
fn get_stores_what_the_state_holds() {
    let mut context = ExecutionContext::new();
    let step = GetStep { key: "k".to_string(), output: "v".to_string() };
    match step.run(&mut context, &input(), "") {
        StepOutcome::Suspend(request) => {
            assert_eq!(request, HostRequest::GetState { key: "k".to_string() })
        }
        other => panic!("the step ended in {:?}", other),
    }
    assert!(matches!(
        step.resume(&mut context, HostReply::State(Some(Variable::Integer(9)))),
        Ok(())
    ));
    assert_eq!(context.get_variable("v"), Some(&Variable::Integer(9)));
}

#[test]
fn get_stores_null_where_the_state_holds_nothing() {
    let mut context = ExecutionContext::new();
    context.set("v", Variable::Integer(1));
    let step = GetStep { key: "k".to_string(), output: "v".to_string() };
    assert!(matches!(step.resume(&mut context, HostReply::State(None)), Ok(())));
    assert_eq!(context.get_variable("v"), Some(&Variable::Null));
    assert_eq!(context.get::<isize>("v"), None);
}

#[test]
fn a_failure_of_the_host_is_the_failure_of_the_step() {
    let mut context = ExecutionContext::new();
    let step = GetStep { key: "k".to_string(), output: "v".to_string() };
    match step.resume(&mut context, HostReply::Failed(TerminalError::new("storage is down"))) {
        Err(StepFailure::Host(error)) => assert_eq!(error.message(), "storage is down"),
        other => panic!("the step ended in {:?}", other),
    }
    assert_eq!(context.get_variable("v"), None);
    let sleep = SleepStep { duration: Pause { secs: 1, nanos: 0 }, jitter: None };
    assert!(matches!(
        sleep.resume(&mut context, HostReply::Failed(TerminalError::new("cancelled"))),
        Err(StepFailure::Host(_))
    ));
}

#[test]
fn a_reply_that_the_step_does_not_wait_for_is_refused() {
    let mut context = ExecutionContext::new();
    assert!(matches!(
        EchoStep.resume(&mut context, HostReply::Done),
        Err(StepFailure::UnexpectedReply)
    ));
    let get = GetStep { key: "k".to_string(), output: "v".to_string() };
    assert!(matches!(get.resume(&mut context, HostReply::Done), Err(StepFailure::UnexpectedReply)));
    let sleep = SleepStep { duration: Pause { secs: 1, nanos: 0 }, jitter: None };
    assert!(matches!(
        sleep.resume(&mut context, HostReply::Returned(Variable::Null)),
        Err(StepFailure::UnexpectedReply)
    ));
    let call = call_to(ServiceType::Service, None);
    assert!(matches!(call.resume(&mut context, HostReply::Done), Err(StepFailure::UnexpectedReply)));
    assert_eq!(context.get_variable("answer"), None);
}

#[test]
fn sleep_and_busy_ask_for_their_pause() {
    let mut context = ExecutionContext::new();
    let jitter = Some(Number::Float(Float::from_bits(0.5f64.to_bits())));
    let sleep = SleepStep { duration: Pause { secs: 2, nanos: 5 }, jitter };
    match sleep.run(&mut context, &input(), "") {
        StepOutcome::Suspend(request) => assert_eq!(
            request,
            HostRequest::Sleep { duration: Pause { secs: 2, nanos: 5 }, jitter }
        ),
        other => panic!("the step ended in {:?}", other),
    }
    let busy = BusyStep { duration: Pause { secs: 0, nanos: 100 }, jitter: None };
    match busy.run(&mut context, &input(), "") {
        StepOutcome::Suspend(request) => assert_eq!(
            request,
            HostRequest::Busy { duration: Pause { secs: 0, nanos: 100 }, jitter: None }
        ),
        other => panic!("the step ended in {:?}", other),
    }
    assert!(matches!(sleep.resume(&mut context, HostReply::Done), Ok(())));
    assert!(matches!(busy.resume(&mut context, HostReply::Done), Ok(())));
}

#[test]
fn a_call_to_an_object_without_a_key_goes_to_the_callers_own_key() {
    let mut context = ExecutionContext::new();
    context.set("payload", Variable::Integer(1));
    let step = call_to(ServiceType::VirtualObject, None);
    match step.run(&mut context, &input(), "my-key") {
        StepOutcome::Suspend(HostRequest::Call { target, input }) => {
            assert_eq!(
                target,
                RequestTarget::Object {
                    name: "counter".to_string(),
                    key: "my-key".to_string(),
                    handler: "add".to_string(),
                }
            );
            assert_eq!(input, Variable::Integer(1));
        }
        other => panic!("the step ended in {:?}", other),
    }
}

#[test]
fn a_call_to_a_workflow_without_a_key_goes_to_the_callers_own_key() {
    let mut context = ExecutionContext::new();
    let step = call_to(ServiceType::Workflow, None);
    match step.run(&mut context, &input(), "run-7") {
        StepOutcome::Suspend(HostRequest::Call { target, .. }) => assert_eq!(
            target,
            RequestTarget::Workflow {
                name: "counter".to_string(),
                key: "run-7".to_string(),
                handler: "add".to_string(),
            }
        ),
        other => panic!("the step ended in {:?}", other),
    }
}

#[test]
fn a_call_with_a_key_goes_to_that_key() {
    let mut context = ExecutionContext::new();
    let step = call_to(ServiceType::VirtualObject, Some("other"));
    match step.run(&mut context, &input(), "my-key") {
        StepOutcome::Suspend(HostRequest::Call { target, .. }) => assert_eq!(
            target,
            RequestTarget::Object {
                name: "counter".to_string(),
                key: "other".to_string(),
                handler: "add".to_string(),
            }
        ),
        other => panic!("the step ended in {:?}", other),
    }
}

#[test]
fn a_call_to_a_service_has_no_key() {
    let mut context = ExecutionContext::new();
    let step = call_to(ServiceType::Service, Some("ignored"));
    match step.run(&mut context, &input(), "my-key") {
        StepOutcome::Suspend(HostRequest::Call { target, .. }) => assert_eq!(
            target,
            RequestTarget::Service { name: "counter".to_string(), handler: "add".to_string() }
        ),
        other => panic!("the step ended in {:?}", other),
    }
}

#[test]
fn a_call_sends_null_where_its_input_is_not_stored() {
    let mut context = ExecutionContext::new();
    let step = call_to(ServiceType::Service, None);
    match step.run(&mut context, &input(), "") {
        StepOutcome::Suspend(HostRequest::Call { input, .. }) => assert_eq!(input, Variable::Null),
        other => panic!("the step ended in {:?}", other),
    }
    let bare = CallStep { input: None, ..call_to(ServiceType::Service, None) };
    match bare.run(&mut context, &input(), "") {
        StepOutcome::Suspend(HostRequest::Call { input, .. }) => assert_eq!(input, Variable::Null),
        other => panic!("the step ended in {:?}", other),
    }
}

#[test]
fn a_call_stores_what_the_handler_returned() {
    let mut context = ExecutionContext::new();
    let step = call_to(ServiceType::Service, None);
    assert!(matches!(
        step.resume(&mut context, HostReply::Returned(Variable::String("done".to_string()))),
        Ok(())
    ));
    assert_eq!(context.get::<String>("answer"), Some(Ok("done".to_string())));
    let mut other = ExecutionContext::new();
    let silent = CallStep { output: None, ..call_to(ServiceType::Service, None) };
    assert!(matches!(silent.resume(&mut other, HostReply::Returned(Variable::Integer(1))), Ok(())));
    assert_eq!(other.get_variable("answer"), None);
}

#[test]
fn send_addresses_like_call_and_does_not_store() {
    let mut context = ExecutionContext::new();
    context.set("payload", Variable::Boolean(true));
    let step = SendStep {
        target_type: ServiceType::VirtualObject,
        service: "mailbox".to_string(),
        handler: "put".to_string(),
        key: None,
        input: Some("payload".to_string()),
    };
    match step.run(&mut context, &input(), "me") {
        StepOutcome::Suspend(request) => assert_eq!(
            request,
            HostRequest::Send {
                target: RequestTarget::Object {
                    name: "mailbox".to_string(),
                    key: "me".to_string(),
                    handler: "put".to_string(),
                },
                input: Variable::Boolean(true),
            }
        ),
        other => panic!("the step ended in {:?}", other),
    }
    assert!(matches!(step.resume(&mut context, HostReply::Done), Ok(())));
    let missing = SendStep { input: Some("nothing".to_string()), ..step };
    match missing.run(&mut context, &input(), "me") {
        StepOutcome::Suspend(HostRequest::Send { input, .. }) => assert_eq!(input, Variable::Null),
        other => panic!("the step ended in {:?}", other),
    }
}

#[test]
fn a_step_of_any_kind_does_what_its_kind_does() {
    let mut context = ExecutionContext::new();
    let step = AnyStep::from(IncrementStep { input: "n".to_string(), steps: 2 });
    assert!(matches!(step.run(&mut context, &input(), ""), StepOutcome::Done));
    assert!(matches!(step.run(&mut context, &input(), ""), StepOutcome::Done));
    assert_eq!(context.get::<isize>("n"), Some(Ok(4)));
    let echo = AnyStep::from(EchoStep);
    assert!(matches!(echo.run(&mut context, &input(), ""), StepOutcome::Done));
    assert_eq!(context.ret(), Some(input()));
}
