//! The kinds of step that a handler can be made of.

use crate::json::{JsonValue, JsonView};
use crate::mock::codec::encode;
use crate::mock::context::{ExecView, ExecutionContext, Variable, VariableView};
use crate::mock::{
    resume_view, HostReply, HostReplyView, HostRequest, HostRequestView, Pause, RequestTarget,
    RequestTargetView, ServiceType, Step, StepError, StepFailure, StepFailureView, StepOutcome,
    StepOutcomeView,
};
use crate::number::Number;
use rand::rngs::ThreadRng;
use rand::Rng;
use vstd::prelude::*;
use vstd::std_specs::convert::FromSpecImpl;

verus! {

#[verifier::external_type_specification]
#[verifier::external_body]
pub struct ExThreadRng(ThreadRng);

/// `rand::rng`: a handle to the generator of the current thread.
#[verifier::external_body]
fn thread_rng() -> ThreadRng {
    rand::rng()
}

/// `Rng::random` for a byte: the next byte that the generator draws.
/// Nothing is known of it.
#[verifier::external_body]
fn random_byte(rng: &mut ThreadRng) -> u8 {
    rng.random()
}

/// What a step that never waits for the host does with a reply: it refuses
/// it and leaves everything as it was.
pub open spec fn refuses(
    before: ExecView,
    after: ExecView,
    result: Result<(), StepFailureView>,
) -> bool {
    after == before && result == Err::<(), StepFailureView>(StepFailureView::UnexpectedReply)
}

/// How a step that waits for the host to be done takes the reply.
pub open spec fn done_or_failed(reply: HostReplyView) -> Result<(), StepFailureView> {
    match reply {
        HostReplyView::Done => Ok(()),
        HostReplyView::Failed(error) => Err(StepFailureView::Host(error)),
        _ => Err(StepFailureView::UnexpectedReply),
    }
}

fn take_done(reply: HostReply) -> (result: Result<(), StepFailure>)
    ensures
        resume_view(result) == done_or_failed(reply@),
{
    match reply {
        HostReply::Done => Ok(()),
        HostReply::Failed(error) => Err(StepFailure::Host(error)),
        _ => Err(StepFailure::UnexpectedReply),
    }
}

/// The handler that a call or a message goes to. Where the target has a key
/// and the step names none, the key is the caller's own.
pub open spec fn target_for(
    target_type: ServiceType,
    service: Seq<char>,
    handler: Seq<char>,
    key: Option<Seq<char>>,
    own_key: Seq<char>,
) -> RequestTargetView {
    let key = match key {
        Some(k) => k,
        None => own_key,
    };
    match target_type {
        ServiceType::Service => RequestTargetView::Service { name: service, handler },
        ServiceType::VirtualObject => RequestTargetView::Object { name: service, key, handler },
        ServiceType::Workflow => RequestTargetView::Workflow { name: service, key, handler },
    }
}

/// A call or a message to a service whose instances have a key, from a step
/// that names no key, goes to the caller's own key.
pub proof fn lemma_own_key(
    target_type: ServiceType,
    service: Seq<char>,
    handler: Seq<char>,
    own_key: Seq<char>,
)
    ensures
        target_type == ServiceType::VirtualObject ==> target_for(
            target_type,
            service,
            handler,
            None,
            own_key,
        ) == (RequestTargetView::Object { name: service, key: own_key, handler }),
        target_type == ServiceType::Workflow ==> target_for(
            target_type,
            service,
            handler,
            None,
            own_key,
        ) == (RequestTargetView::Workflow { name: service, key: own_key, handler }),
{
}

/// The view of a name that may be absent.
pub open spec fn name_view(name: Option<String>) -> Option<Seq<char>> {
    match name {
        Some(n) => Some(n@),
        None => None,
    }
}

/// What a call or a message carries: the variable that the step names, as it
/// is stored; `Null` where the step names none or nothing is stored under
/// the name.
pub open spec fn payload(exec: ExecView, input: Option<Seq<char>>) -> VariableView {
    match input {
        Some(name) => match exec.variable(name) {
            Some(value) => value,
            None => VariableView::Null,
        },
        None => VariableView::Null,
    }
}

fn make_target(
    target_type: ServiceType,
    service: &String,
    handler: &String,
    key: &Option<String>,
    own_key: &str,
) -> (target: RequestTarget)
    ensures
        target@ == target_for(target_type, service@, handler@, name_view(*key), own_key@),
{
    match target_type {
        ServiceType::Service => RequestTarget::Service {
            name: service.clone(),
            handler: handler.clone(),
        },
        ServiceType::VirtualObject => RequestTarget::Object {
            name: service.clone(),
            key: match key {
                Some(k) => k.clone(),
                None => own_key.to_owned(),
            },
            handler: handler.clone(),
        },
        ServiceType::Workflow => RequestTarget::Workflow {
            name: service.clone(),
            key: match key {
                Some(k) => k.clone(),
                None => own_key.to_owned(),
            },
            handler: handler.clone(),
        },
    }
}

fn make_payload(exec: &ExecutionContext, input: &Option<String>) -> (value: Variable)
    requires
        exec.wf(),
    ensures
        value@ == payload(exec@, name_view(*input)),
{
    match input {
        Some(name) => match exec.get_variable(name.as_str()) {
            Some(stored) => stored.clone(),
            None => Variable::Null,
        },
        None => Variable::Null,
    }
}

/// Copies the handler's input to the return value.
#[derive(Debug, Clone, PartialEq, Eq)]
pub struct EchoStep;

impl Step for EchoStep {
    open spec fn allowed(&self, service_type: ServiceType) -> bool {
        true
    }

    open spec fn starts(
        &self,
        before: ExecView,
        input: JsonView,
        key: Seq<char>,
        after: ExecView,
        outcome: StepOutcomeView,
    ) -> bool {
        if before.ret is Some {
            after == before && outcome == StepOutcomeView::Failed(
                StepFailureView::ReturnAlreadySet,
            )
        } else {
            after == before.with_return(input) && outcome == StepOutcomeView::Done
        }
    }

    open spec fn resumes(
        &self,
        before: ExecView,
        reply: HostReplyView,
        after: ExecView,
        result: Result<(), StepFailureView>,
    ) -> bool {
        refuses(before, after, result)
    }

    fn validate(&self, service_type: ServiceType) -> (r: Result<(), StepError>) {
        Ok(())
    }

    fn run(&self, exec: &mut ExecutionContext, input: &JsonValue, key: &str) -> (outcome:
        StepOutcome) {
        if exec.has_returned() {
            StepOutcome::Failed(StepFailure::ReturnAlreadySet)
        } else {
            exec.return_value(input.clone());
            StepOutcome::Done
        }
    }

    fn resume(&self, exec: &mut ExecutionContext, reply: HostReply) -> (result: Result<
        (),
        StepFailure,
    >) {
        Err(StepFailure::UnexpectedReply)
    }
}

/// Pauses durably: the host keeps the timer, and the pause outlives the
/// process.
#[derive(Debug, Clone, PartialEq, Eq)]
pub struct SleepStep {
    /// The length of the pause.
    pub duration: Pause,
    /// The share of the length that a random delay adds at most.
    pub jitter: Option<Number>,
}

impl Step for SleepStep {
    open spec fn allowed(&self, service_type: ServiceType) -> bool {
        true
    }

    open spec fn starts(
        &self,
        before: ExecView,
        input: JsonView,
        key: Seq<char>,
        after: ExecView,
        outcome: StepOutcomeView,
    ) -> bool {
        after == before && outcome == StepOutcomeView::Suspend(
            HostRequestView::Sleep { duration: self.duration, jitter: self.jitter },
        )
    }

    open spec fn resumes(
        &self,
        before: ExecView,
        reply: HostReplyView,
        after: ExecView,
        result: Result<(), StepFailureView>,
    ) -> bool {
        after == before && result == done_or_failed(reply)
    }

    fn validate(&self, service_type: ServiceType) -> (r: Result<(), StepError>) {
        Ok(())
    }

    fn run(&self, exec: &mut ExecutionContext, input: &JsonValue, key: &str) -> (outcome:
        StepOutcome) {
        StepOutcome::Suspend(HostRequest::Sleep { duration: self.duration, jitter: self.jitter })
    }

    fn resume(&self, exec: &mut ExecutionContext, reply: HostReply) -> (result: Result<
        (),
        StepFailure,
    >) {
        take_done(reply)
    }
}

/// Pauses inside the process, as a handler that is busy would.
#[derive(Debug, Clone, PartialEq, Eq)]
pub struct BusyStep {
    /// The length of the pause.
    pub duration: Pause,
    /// The share of the length that a random delay adds at most.
    pub jitter: Option<Number>,
}

impl Step for BusyStep {
    open spec fn allowed(&self, service_type: ServiceType) -> bool {
        true
    }

    open spec fn starts(
        &self,
        before: ExecView,
        input: JsonView,
        key: Seq<char>,
        after: ExecView,
        outcome: StepOutcomeView,
    ) -> bool {
        after == before && outcome == StepOutcomeView::Suspend(
            HostRequestView::Busy { duration: self.duration, jitter: self.jitter },
        )
    }

    open spec fn resumes(
        &self,
        before: ExecView,
        reply: HostReplyView,
        after: ExecView,
        result: Result<(), StepFailureView>,
    ) -> bool {
        after == before && result == done_or_failed(reply)
    }

    fn validate(&self, service_type: ServiceType) -> (r: Result<(), StepError>) {
        Ok(())
    }

    fn run(&self, exec: &mut ExecutionContext, input: &JsonValue, key: &str) -> (outcome:
        StepOutcome) {
        StepOutcome::Suspend(HostRequest::Busy { duration: self.duration, jitter: self.jitter })
    }

    fn resume(&self, exec: &mut ExecutionContext, reply: HostReply) -> (result: Result<
        (),
        StepFailure,
    >) {
        take_done(reply)
    }
}

/// Writes a variable to the state of the instance.
#[derive(Debug, Clone, PartialEq, Eq)]
pub struct SetStep {
    /// The key of the state to write.
    pub key: String,
    /// The name of the variable whose value is written.
    pub input: String,
}

impl Step for SetStep {
    open spec fn allowed(&self, service_type: ServiceType) -> bool {
        service_type.keyed()
    }

    open spec fn starts(
        &self,
        before: ExecView,
        input: JsonView,
        key: Seq<char>,
        after: ExecView,
        outcome: StepOutcomeView,
    ) -> bool {
        after == before && outcome == match before.variable(self.input@) {
            Some(value) => StepOutcomeView::Suspend(
                HostRequestView::SetState { key: self.key@, value },
            ),
            None => StepOutcomeView::Failed(StepFailureView::UnknownVariable(self.input@)),
        }
    }

    open spec fn resumes(
        &self,
        before: ExecView,
        reply: HostReplyView,
        after: ExecView,
        result: Result<(), StepFailureView>,
    ) -> bool {
        after == before && result == done_or_failed(reply)
    }

    fn validate(&self, service_type: ServiceType) -> (r: Result<(), StepError>) {
        if service_type.is_keyed() {
            Ok(())
        } else {
            Err(StepError::InvalidServiceType(service_type))
        }
    }

    fn run(&self, exec: &mut ExecutionContext, input: &JsonValue, key: &str) -> (outcome:
        StepOutcome) {
        match exec.get_variable(self.input.as_str()) {
            Some(stored) => StepOutcome::Suspend(
                HostRequest::SetState { key: self.key.clone(), value: stored.clone() },
            ),
            None => StepOutcome::Failed(StepFailure::UnknownVariable(self.input.clone())),
        }
    }

    fn resume(&self, exec: &mut ExecutionContext, reply: HostReply) -> (result: Result<
        (),
        StepFailure,
    >) {
        take_done(reply)
    }
}

/// Reads the state of the instance into a variable.
#[derive(Debug, Clone, PartialEq, Eq)]
pub struct GetStep {
    /// The key of the state to read.
    pub key: String,
    /// The name of the variable that takes the value: `Null` where the
    /// state holds nothing under the key.
    pub output: String,
}

impl Step for GetStep {
    open spec fn allowed(&self, service_type: ServiceType) -> bool {
        service_type.keyed()
    }

    open spec fn starts(
        &self,
        before: ExecView,
        input: JsonView,
        key: Seq<char>,
        after: ExecView,
        outcome: StepOutcomeView,
    ) -> bool {
        after == before && outcome == StepOutcomeView::Suspend(
            HostRequestView::GetState { key: self.key@ },
        )
    }

    open spec fn resumes(
        &self,
        before: ExecView,
        reply: HostReplyView,
        after: ExecView,
        result: Result<(), StepFailureView>,
    ) -> bool {
        match reply {
            HostReplyView::State(Some(value)) => after == before.with_variable(
                self.output@,
                value,
            ) && result == Ok::<(), StepFailureView>(()),
            HostReplyView::State(None) => after == before.with_variable(
                self.output@,
                VariableView::Null,
            ) && result == Ok::<(), StepFailureView>(()),
            HostReplyView::Failed(error) => after == before && result == Err::<
                (),
                StepFailureView,
            >(StepFailureView::Host(error)),
            _ => refuses(before, after, result),
        }
    }

    fn validate(&self, service_type: ServiceType) -> (r: Result<(), StepError>) {
        if service_type.is_keyed() {
            Ok(())
        } else {
            Err(StepError::InvalidServiceType(service_type))
        }
    }

    fn run(&self, exec: &mut ExecutionContext, input: &JsonValue, key: &str) -> (outcome:
        StepOutcome) {
        StepOutcome::Suspend(HostRequest::GetState { key: self.key.clone() })
    }

    fn resume(&self, exec: &mut ExecutionContext, reply: HostReply) -> (result: Result<
        (),
        StepFailure,
    >) {
        match reply {
            HostReply::State(Some(value)) => {
                exec.set(self.output.as_str(), value);
                Ok(())
            },
            HostReply::State(None) => {
                exec.set(self.output.as_str(), Variable::Null);
                Ok(())
            },
            HostReply::Failed(error) => Err(StepFailure::Host(error)),
            _ => Err(StepFailure::UnexpectedReply),
        }
    }
}

/// Stores random bytes in a variable.
#[derive(Debug, Clone, PartialEq, Eq)]
pub struct RandomStep {
    /// How many bytes to draw.
    pub size: u16,
    /// The name of the variable that takes the bytes.
    pub output: String,
}

impl RandomStep {
    /// Draws as many bytes as the step asks for.
    pub fn draw(&self) -> (bytes: Vec<u8>)
        ensures
            bytes@.len() == self.size,
    {
        let mut rng = thread_rng();
        let mut bytes: Vec<u8> = Vec::new();
        let mut i: u16 = 0;
        while i < self.size
            invariant
                i <= self.size,
                bytes@.len() == i,
            decreases self.size - i,
        {
            bytes.push(random_byte(&mut rng));
            i += 1;
        }
        bytes
    }

    /// Stores `bytes` under the name that the step gives.
    pub fn store(&self, exec: &mut ExecutionContext, bytes: Vec<u8>)
        requires
            old(exec).wf(),
        ensures
            final(exec).wf(),
            final(exec)@ == old(exec)@.with_variable(self.output@, VariableView::Bytes(bytes@)),
    {
        exec.set(self.output.as_str(), Variable::from(bytes));
    }
}

impl Step for RandomStep {
    open spec fn allowed(&self, service_type: ServiceType) -> bool {
        true
    }

    open spec fn starts(
        &self,
        before: ExecView,
        input: JsonView,
        key: Seq<char>,
        after: ExecView,
        outcome: StepOutcomeView,
    ) -> bool {
        outcome == StepOutcomeView::Done && exists|bytes: Seq<u8>|
            bytes.len() == self.size && after == #[trigger] before.with_variable(
                self.output@,
                VariableView::Bytes(bytes),
            )
    }

    open spec fn resumes(
        &self,
        before: ExecView,
        reply: HostReplyView,
        after: ExecView,
        result: Result<(), StepFailureView>,
    ) -> bool {
        refuses(before, after, result)
    }

    fn validate(&self, service_type: ServiceType) -> (r: Result<(), StepError>) {
        Ok(())
    }

    fn run(&self, exec: &mut ExecutionContext, input: &JsonValue, key: &str) -> (outcome:
        StepOutcome) {
        let bytes = self.draw();
        self.store(exec, bytes);
        StepOutcome::Done
    }

    fn resume(&self, exec: &mut ExecutionContext, reply: HostReply) -> (result: Result<
        (),
        StepFailure,
    >) {
        Err(StepFailure::UnexpectedReply)
    }
}

/// Sets the return value from a variable.
#[derive(Debug, Clone, PartialEq, Eq)]
pub struct ReturnStep {
    /// The name of the variable whose value is returned.
    pub output: String,
}

impl Step for ReturnStep {
    open spec fn allowed(&self, service_type: ServiceType) -> bool {
        true
    }

    open spec fn starts(
        &self,
        before: ExecView,
        input: JsonView,
        key: Seq<char>,
        after: ExecView,
        outcome: StepOutcomeView,
    ) -> bool {
        match before.variable(self.output@) {
            None => after == before && outcome == StepOutcomeView::Failed(
                StepFailureView::UnknownVariable(self.output@),
            ),
            Some(value) => if before.ret is Some {
                after == before && outcome == StepOutcomeView::Failed(
                    StepFailureView::ReturnAlreadySet,
                )
            } else {
                after == before.with_return(encode(value)) && outcome == StepOutcomeView::Done
            },
        }
    }

    open spec fn resumes(
        &self,
        before: ExecView,
        reply: HostReplyView,
        after: ExecView,
        result: Result<(), StepFailureView>,
    ) -> bool {
        refuses(before, after, result)
    }

    fn validate(&self, service_type: ServiceType) -> (r: Result<(), StepError>) {
        Ok(())
    }

    fn run(&self, exec: &mut ExecutionContext, input: &JsonValue, key: &str) -> (outcome:
        StepOutcome) {
        let document = match exec.get_variable(self.output.as_str()) {
            Some(stored) => stored.to_json(),
            None => {
                return StepOutcome::Failed(StepFailure::UnknownVariable(self.output.clone()));
            },
        };
        if exec.has_returned() {
            StepOutcome::Failed(StepFailure::ReturnAlreadySet)
        } else {
            exec.return_value(document);
            StepOutcome::Done
        }
    }

    fn resume(&self, exec: &mut ExecutionContext, reply: HostReply) -> (result: Result<
        (),
        StepFailure,
    >) {
        Err(StepFailure::UnexpectedReply)
    }
}

/// Adds to an integer variable.
#[derive(Debug, Clone, PartialEq, Eq)]
pub struct IncrementStep {
    /// The name of the variable. The sum is stored under the same name.
    pub input: String,
    /// What is added.
    pub steps: isize,
}

/// The integer that an increment starts from: what the variable holds, or
/// zero where it holds no integer.
pub open spec fn counter(exec: ExecView, name: Seq<char>) -> int {
    match exec.variable(name) {
        Some(VariableView::Integer(i)) => i as int,
        _ => 0,
    }
}

impl Step for IncrementStep {
    open spec fn allowed(&self, service_type: ServiceType) -> bool {
        true
    }

    open spec fn starts(
        &self,
        before: ExecView,
        input: JsonView,
        key: Seq<char>,
        after: ExecView,
        outcome: StepOutcomeView,
    ) -> bool {
        let sum = counter(before, self.input@) + self.steps;
        if isize::MIN <= sum <= isize::MAX {
            after == before.with_variable(self.input@, VariableView::Integer(sum as isize))
                && outcome == StepOutcomeView::Done
        } else {
            after == before && outcome == StepOutcomeView::Failed(StepFailureView::Overflow)
        }
    }

    open spec fn resumes(
        &self,
        before: ExecView,
        reply: HostReplyView,
        after: ExecView,
        result: Result<(), StepFailureView>,
    ) -> bool {
        refuses(before, after, result)
    }

    fn validate(&self, service_type: ServiceType) -> (r: Result<(), StepError>) {
        Ok(())
    }

    fn run(&self, exec: &mut ExecutionContext, input: &JsonValue, key: &str) -> (outcome:
        StepOutcome) {
        let current: isize = match exec.get::<isize>(self.input.as_str()) {
            Some(Ok(i)) => i,
            _ => 0,
        };
        match current.checked_add(self.steps) {
            Some(sum) => {
                exec.set(self.input.as_str(), Variable::Integer(sum));
                StepOutcome::Done
            },
            None => StepOutcome::Failed(StepFailure::Overflow),
        }
    }

    fn resume(&self, exec: &mut ExecutionContext, reply: HostReply) -> (result: Result<
        (),
        StepFailure,
    >) {
        Err(StepFailure::UnexpectedReply)
    }
}

/// Invokes a handler and waits for what it returns.
#[derive(Debug, Clone, PartialEq, Eq)]
pub struct CallStep {
    /// How the target service is addressed.
    pub target_type: ServiceType,
    /// The name of the target service.
    pub service: String,
    /// The name of the target handler.
    pub handler: String,
    /// The key of the target instance. Where it is absent and the target has
    /// a key, the key is the caller's own.
    pub key: Option<String>,
    /// The name of the variable that is sent.
    pub input: Option<String>,
    /// The name of the variable that takes what the handler returns.
    pub output: Option<String>,
}

impl Step for CallStep {
    open spec fn allowed(&self, service_type: ServiceType) -> bool {
        true
    }

    open spec fn starts(
        &self,
        before: ExecView,
        input: JsonView,
        key: Seq<char>,
        after: ExecView,
        outcome: StepOutcomeView,
    ) -> bool {
        after == before && outcome == StepOutcomeView::Suspend(
            HostRequestView::Call {
                target: target_for(
                    self.target_type,
                    self.service@,
                    self.handler@,
                    name_view(self.key),
                    key,
                ),
                input: payload(before, name_view(self.input)),
            },
        )
    }

    open spec fn resumes(
        &self,
        before: ExecView,
        reply: HostReplyView,
        after: ExecView,
        result: Result<(), StepFailureView>,
    ) -> bool {
        match reply {
            HostReplyView::Returned(value) => result == Ok::<(), StepFailureView>(()) && after
                == match self.output {
                Some(name) => before.with_variable(name@, value),
                None => before,
            },
            HostReplyView::Failed(error) => after == before && result == Err::<
                (),
                StepFailureView,
            >(StepFailureView::Host(error)),
            _ => refuses(before, after, result),
        }
    }

    fn validate(&self, service_type: ServiceType) -> (r: Result<(), StepError>) {
        Ok(())
    }

    fn run(&self, exec: &mut ExecutionContext, input: &JsonValue, key: &str) -> (outcome:
        StepOutcome) {
        let target = make_target(self.target_type, &self.service, &self.handler, &self.key, key);
        let value = make_payload(exec, &self.input);
        StepOutcome::Suspend(HostRequest::Call { target, input: value })
    }

    fn resume(&self, exec: &mut ExecutionContext, reply: HostReply) -> (result: Result<
        (),
        StepFailure,
    >) {
        match reply {
            HostReply::Returned(value) => {
                match &self.output {
                    Some(name) => {
                        exec.set(name.as_str(), value);
                    },
                    None => {},
                }
                Ok(())
            },
            HostReply::Failed(error) => Err(StepFailure::Host(error)),
            _ => Err(StepFailure::UnexpectedReply),
        }
    }
}

/// Invokes a handler and does not wait for it.
#[derive(Debug, Clone, PartialEq, Eq)]
pub struct SendStep {
    /// How the target service is addressed.
    pub target_type: ServiceType,
    /// The name of the target service.
    pub service: String,
    /// The name of the target handler.
    pub handler: String,
    /// The key of the target instance. Where it is absent and the target has
    /// a key, the key is the caller's own.
    pub key: Option<String>,
    /// The name of the variable that is sent.
    pub input: Option<String>,
}

impl Step for SendStep {
    open spec fn allowed(&self, service_type: ServiceType) -> bool {
        true
    }

    open spec fn starts(
        &self,
        before: ExecView,
        input: JsonView,
        key: Seq<char>,
        after: ExecView,
        outcome: StepOutcomeView,
    ) -> bool {
        after == before && outcome == StepOutcomeView::Suspend(
            HostRequestView::Send {
                target: target_for(
                    self.target_type,
                    self.service@,
                    self.handler@,
                    name_view(self.key),
                    key,
                ),
                input: payload(before, name_view(self.input)),
            },
        )
    }

    open spec fn resumes(
        &self,
        before: ExecView,
        reply: HostReplyView,
        after: ExecView,
        result: Result<(), StepFailureView>,
    ) -> bool {
        after == before && result == done_or_failed(reply)
    }

    fn validate(&self, service_type: ServiceType) -> (r: Result<(), StepError>) {
        Ok(())
    }

    fn run(&self, exec: &mut ExecutionContext, input: &JsonValue, key: &str) -> (outcome:
        StepOutcome) {
        let target = make_target(self.target_type, &self.service, &self.handler, &self.key, key);
        let value = make_payload(exec, &self.input);
        StepOutcome::Suspend(HostRequest::Send { target, input: value })
    }

    fn resume(&self, exec: &mut ExecutionContext, reply: HostReply) -> (result: Result<
        (),
        StepFailure,
    >) {
        take_done(reply)
    }
}

/// A step of any of the kinds.
#[derive(Debug, Clone, PartialEq, Eq)]
pub enum AnyStep {
    Echo(EchoStep),
    Sleep(SleepStep),
    Busy(BusyStep),
    SetState(SetStep),
    GetState(GetStep),
    Random(RandomStep),
    Return(ReturnStep),
    Increment(IncrementStep),
    Call(CallStep),
    Send(SendStep),
}

impl Step for AnyStep {
    open spec fn allowed(&self, service_type: ServiceType) -> bool {
        match self {
            AnyStep::Echo(step) => step.allowed(service_type),
            AnyStep::Sleep(step) => step.allowed(service_type),
            AnyStep::Busy(step) => step.allowed(service_type),
            AnyStep::SetState(step) => step.allowed(service_type),
            AnyStep::GetState(step) => step.allowed(service_type),
            AnyStep::Random(step) => step.allowed(service_type),
            AnyStep::Return(step) => step.allowed(service_type),
            AnyStep::Increment(step) => step.allowed(service_type),
            AnyStep::Call(step) => step.allowed(service_type),
            AnyStep::Send(step) => step.allowed(service_type),
        }
    }

    open spec fn starts(
        &self,
        before: ExecView,
        input: JsonView,
        key: Seq<char>,
        after: ExecView,
        outcome: StepOutcomeView,
    ) -> bool {
        match self {
            AnyStep::Echo(step) => step.starts(before, input, key, after, outcome),
            AnyStep::Sleep(step) => step.starts(before, input, key, after, outcome),
            AnyStep::Busy(step) => step.starts(before, input, key, after, outcome),
            AnyStep::SetState(step) => step.starts(before, input, key, after, outcome),
            AnyStep::GetState(step) => step.starts(before, input, key, after, outcome),
            AnyStep::Random(step) => step.starts(before, input, key, after, outcome),
            AnyStep::Return(step) => step.starts(before, input, key, after, outcome),
            AnyStep::Increment(step) => step.starts(before, input, key, after, outcome),
            AnyStep::Call(step) => step.starts(before, input, key, after, outcome),
            AnyStep::Send(step) => step.starts(before, input, key, after, outcome),
        }
    }

    open spec fn resumes(
        &self,
        before: ExecView,
        reply: HostReplyView,
        after: ExecView,
        result: Result<(), StepFailureView>,
    ) -> bool {
        match self {
            AnyStep::Echo(step) => step.resumes(before, reply, after, result),
            AnyStep::Sleep(step) => step.resumes(before, reply, after, result),
            AnyStep::Busy(step) => step.resumes(before, reply, after, result),
            AnyStep::SetState(step) => step.resumes(before, reply, after, result),
            AnyStep::GetState(step) => step.resumes(before, reply, after, result),
            AnyStep::Random(step) => step.resumes(before, reply, after, result),
            AnyStep::Return(step) => step.resumes(before, reply, after, result),
            AnyStep::Increment(step) => step.resumes(before, reply, after, result),
            AnyStep::Call(step) => step.resumes(before, reply, after, result),
            AnyStep::Send(step) => step.resumes(before, reply, after, result),
        }
    }

    fn validate(&self, service_type: ServiceType) -> (r: Result<(), StepError>) {
        match self {
            AnyStep::Echo(step) => step.validate(service_type),
            AnyStep::Sleep(step) => step.validate(service_type),
            AnyStep::Busy(step) => step.validate(service_type),
            AnyStep::SetState(step) => step.validate(service_type),
            AnyStep::GetState(step) => step.validate(service_type),
            AnyStep::Random(step) => step.validate(service_type),
            AnyStep::Return(step) => step.validate(service_type),
            AnyStep::Increment(step) => step.validate(service_type),
            AnyStep::Call(step) => step.validate(service_type),
            AnyStep::Send(step) => step.validate(service_type),
        }
    }

    fn run(&self, exec: &mut ExecutionContext, input: &JsonValue, key: &str) -> (outcome:
        StepOutcome) {
        match self {
            AnyStep::Echo(step) => step.run(exec, input, key),
            AnyStep::Sleep(step) => step.run(exec, input, key),
            AnyStep::Busy(step) => step.run(exec, input, key),
            AnyStep::SetState(step) => step.run(exec, input, key),
            AnyStep::GetState(step) => step.run(exec, input, key),
            AnyStep::Random(step) => step.run(exec, input, key),
            AnyStep::Return(step) => step.run(exec, input, key),
            AnyStep::Increment(step) => step.run(exec, input, key),
            AnyStep::Call(step) => step.run(exec, input, key),
            AnyStep::Send(step) => step.run(exec, input, key),
        }
    }

    fn resume(&self, exec: &mut ExecutionContext, reply: HostReply) -> (result: Result<
        (),
        StepFailure,
    >) {
        match self {
            AnyStep::Echo(step) => step.resume(exec, reply),
            AnyStep::Sleep(step) => step.resume(exec, reply),
            AnyStep::Busy(step) => step.resume(exec, reply),
            AnyStep::SetState(step) => step.resume(exec, reply),
            AnyStep::GetState(step) => step.resume(exec, reply),
            AnyStep::Random(step) => step.resume(exec, reply),
            AnyStep::Return(step) => step.resume(exec, reply),
            AnyStep::Increment(step) => step.resume(exec, reply),
            AnyStep::Call(step) => step.resume(exec, reply),
            AnyStep::Send(step) => step.resume(exec, reply),
        }
    }
}

impl From<EchoStep> for AnyStep {
    fn from(step: EchoStep) -> (r: Self) {
        AnyStep::Echo(step)
    }
}

impl FromSpecImpl<EchoStep> for AnyStep {
    open spec fn obeys_from_spec() -> bool {
        true
    }

    open spec fn from_spec(step: EchoStep) -> Self {
        AnyStep::Echo(step)
    }
}

impl From<SleepStep> for AnyStep {
    fn from(step: SleepStep) -> (r: Self) {
        AnyStep::Sleep(step)
    }
}

impl FromSpecImpl<SleepStep> for AnyStep {
    open spec fn obeys_from_spec() -> bool {
        true
    }

    open spec fn from_spec(step: SleepStep) -> Self {
        AnyStep::Sleep(step)
    }
}

impl From<BusyStep> for AnyStep {
    fn from(step: BusyStep) -> (r: Self) {
        AnyStep::Busy(step)
    }
}

impl FromSpecImpl<BusyStep> for AnyStep {
    open spec fn obeys_from_spec() -> bool {
        true
    }

    open spec fn from_spec(step: BusyStep) -> Self {
        AnyStep::Busy(step)
    }
}

impl From<SetStep> for AnyStep {
    fn from(step: SetStep) -> (r: Self) {
        AnyStep::SetState(step)
    }
}

impl FromSpecImpl<SetStep> for AnyStep {
    open spec fn obeys_from_spec() -> bool {
        true
    }

    open spec fn from_spec(step: SetStep) -> Self {
        AnyStep::SetState(step)
    }
}

impl From<GetStep> for AnyStep {
    fn from(step: GetStep) -> (r: Self) {
        AnyStep::GetState(step)
    }
}

impl FromSpecImpl<GetStep> for AnyStep {
    open spec fn obeys_from_spec() -> bool {
        true
    }

    open spec fn from_spec(step: GetStep) -> Self {
        AnyStep::GetState(step)
    }
}

impl From<RandomStep> for AnyStep {
    fn from(step: RandomStep) -> (r: Self) {
        AnyStep::Random(step)
    }
}

impl FromSpecImpl<RandomStep> for AnyStep {
    open spec fn obeys_from_spec() -> bool {
        true
    }

    open spec fn from_spec(step: RandomStep) -> Self {
        AnyStep::Random(step)
    }
}

impl From<ReturnStep> for AnyStep {
    fn from(step: ReturnStep) -> (r: Self) {
        AnyStep::Return(step)
    }
}

impl FromSpecImpl<ReturnStep> for AnyStep {
    open spec fn obeys_from_spec() -> bool {
        true
    }

    open spec fn from_spec(step: ReturnStep) -> Self {
        AnyStep::Return(step)
    }
}

impl From<IncrementStep> for AnyStep {
    fn from(step: IncrementStep) -> (r: Self) {
        AnyStep::Increment(step)
    }
}

impl FromSpecImpl<IncrementStep> for AnyStep {
    open spec fn obeys_from_spec() -> bool {
        true
    }

    open spec fn from_spec(step: IncrementStep) -> Self {
        AnyStep::Increment(step)
    }
}

impl From<CallStep> for AnyStep {
    fn from(step: CallStep) -> (r: Self) {
        AnyStep::Call(step)
    }
}

impl FromSpecImpl<CallStep> for AnyStep {
    open spec fn obeys_from_spec() -> bool {
        true
    }

    open spec fn from_spec(step: CallStep) -> Self {
        AnyStep::Call(step)
    }
}

impl From<SendStep> for AnyStep {
    fn from(step: SendStep) -> (r: Self) {
        AnyStep::Send(step)
    }
}

impl FromSpecImpl<SendStep> for AnyStep {
    open spec fn obeys_from_spec() -> bool {
        true
    }

    open spec fn from_spec(step: SendStep) -> Self {
        AnyStep::Send(step)
    }
}

/// The mathematical value of a step: its kind and its parameters.
#[allow(inconsistent_fields)]
pub enum StepView {
    Echo,
    Sleep { duration: Pause, jitter: Option<Number> },
    Busy { duration: Pause, jitter: Option<Number> },
    SetState { key: Seq<char>, input: Seq<char> },
    GetState { key: Seq<char>, output: Seq<char> },
    Random { size: u16, output: Seq<char> },
    Return { output: Seq<char> },
    Increment { input: Seq<char>, steps: isize },
    Call {
        target_type: ServiceType,
        service: Seq<char>,
        handler: Seq<char>,
        key: Option<Seq<char>>,
        input: Option<Seq<char>>,
        output: Option<Seq<char>>,
    },
    Send {
        target_type: ServiceType,
        service: Seq<char>,
        handler: Seq<char>,
        key: Option<Seq<char>>,
        input: Option<Seq<char>>,
    },
}

impl StepView {
    /// Whether a step of this kind may stand in a handler of a service of
    /// this type: the steps that read or write the state of the instance
    /// need a service whose instances have a key.
    pub open spec fn allowed(self, service_type: ServiceType) -> bool {
        match self {
            StepView::SetState { .. } => service_type.keyed(),
            StepView::GetState { .. } => service_type.keyed(),
            _ => true,
        }
    }
}

impl View for AnyStep {
    type V = StepView;

    open spec fn view(&self) -> StepView {
        match self {
            AnyStep::Echo(_) => StepView::Echo,
            AnyStep::Sleep(step) => StepView::Sleep {
                duration: step.duration,
                jitter: step.jitter,
            },
            AnyStep::Busy(step) => StepView::Busy { duration: step.duration, jitter: step.jitter },
            AnyStep::SetState(step) => StepView::SetState { key: step.key@, input: step.input@ },
            AnyStep::GetState(step) => StepView::GetState {
                key: step.key@,
                output: step.output@,
            },
            AnyStep::Random(step) => StepView::Random { size: step.size, output: step.output@ },
            AnyStep::Return(step) => StepView::Return { output: step.output@ },
            AnyStep::Increment(step) => StepView::Increment {
                input: step.input@,
                steps: step.steps,
            },
            AnyStep::Call(step) => StepView::Call {
                target_type: step.target_type,
                service: step.service@,
                handler: step.handler@,
                key: name_view(step.key),
                input: name_view(step.input),
                output: name_view(step.output),
            },
            AnyStep::Send(step) => StepView::Send {
                target_type: step.target_type,
                service: step.service@,
                handler: step.handler@,
                key: name_view(step.key),
                input: name_view(step.input),
            },
        }
    }
}

/// The steps that read or write the state of the instance pass validation
/// under the services whose instances have a key, and under no other. Every
/// other step passes under every service.
pub proof fn lemma_state_needs_key(step: AnyStep, service_type: ServiceType)
    ensures
        step.allowed(service_type) == step@.allowed(service_type),
        (step is SetState || step is GetState) ==> (step.allowed(service_type) <==> service_type
            != ServiceType::Service),
        !(step is SetState || step is GetState) ==> step.allowed(service_type),
{
}

} // verus!
