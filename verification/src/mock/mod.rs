//! Mock services: handlers made of steps, and the services that hold them.

pub mod codec;
pub mod context;
pub mod factory;
pub mod pause;
pub mod steps;

use crate::json::{Json, JsonValue, JsonView};
use crate::mock::context::{ExecView, ExecutionContext, Variable, VariableView};
use crate::mock::steps::AnyStep;
use crate::number::Number;
use crate::table::Table;
use restate_sdk::errors::TerminalError;
use std::sync::Arc;
use vstd::prelude::*;

verus! {

#[verifier::external_type_specification]
#[verifier::external_body]
pub struct ExTerminalError(TerminalError);

/// How the instances of a service are addressed.
#[derive(Clone, Copy, Debug, PartialEq, Eq, Structural)]
pub enum ServiceType {
    /// Stateless: no key, no state.
    Service,
    /// One instance per key, with state of its own.
    VirtualObject,
    /// One run per key, with state of its own.
    Workflow,
}

impl ServiceType {
    /// Whether an instance has a key, and with it state.
    pub open spec fn keyed(self) -> bool {
        self != ServiceType::Service
    }

    /// Whether an instance has a key, and with it state.
    pub fn is_keyed(self) -> (r: bool)
        ensures
            r == self.keyed(),
    {
        match self {
            ServiceType::Service => false,
            ServiceType::VirtualObject => true,
            ServiceType::Workflow => true,
        }
    }
}

/// How the host schedules a handler.
#[derive(Clone, Copy, Debug, PartialEq, Eq, Structural)]
pub enum HandlerType {
    Workflow,
    Exclusive,
    Shared,
}

/// A length of time: whole seconds and the nanoseconds beyond them.
#[derive(Clone, Copy, Debug, PartialEq, Eq, Structural)]
pub struct Pause {
    pub secs: u64,
    pub nanos: u32,
}

impl Pause {
    /// The nanoseconds stay below one second.
    pub open spec fn wf(self) -> bool {
        self.nanos < 1_000_000_000
    }
}

/// The handler that a call or a message goes to.
#[derive(Debug, Clone, PartialEq, Eq)]
pub enum RequestTarget {
    Service { name: String, handler: String },
    Object { name: String, key: String, handler: String },
    Workflow { name: String, key: String, handler: String },
}

/// The mathematical value of a [`RequestTarget`].
pub enum RequestTargetView {
    Service { name: Seq<char>, handler: Seq<char> },
    Object { name: Seq<char>, key: Seq<char>, handler: Seq<char> },
    Workflow { name: Seq<char>, key: Seq<char>, handler: Seq<char> },
}

impl View for RequestTarget {
    type V = RequestTargetView;

    open spec fn view(&self) -> RequestTargetView {
        match self {
            RequestTarget::Service { name, handler } => RequestTargetView::Service {
                name: name@,
                handler: handler@,
            },
            RequestTarget::Object { name, key, handler } => RequestTargetView::Object {
                name: name@,
                key: key@,
                handler: handler@,
            },
            RequestTarget::Workflow { name, key, handler } => RequestTargetView::Workflow {
                name: name@,
                key: key@,
                handler: handler@,
            },
        }
    }
}

/// What a step asks of the host. The caller of the library performs it and
/// comes back with a [`HostReply`].
#[derive(Debug, PartialEq, Eq)]
pub enum HostRequest {
    /// Pause durably for `duration`, and for a random share of it between
    /// nothing and `jitter` times its length.
    Sleep { duration: Pause, jitter: Option<Number> },
    /// Pause inside the process, with the same lengths.
    Busy { duration: Pause, jitter: Option<Number> },
    /// Write `value` to the instance's state under `key`.
    SetState { key: String, value: Variable },
    /// Read the instance's state under `key`.
    GetState { key: String },
    /// Invoke `target` with `input` and wait for what it returns.
    Call { target: RequestTarget, input: Variable },
    /// Invoke `target` with `input` and do not wait.
    Send { target: RequestTarget, input: Variable },
}

/// The mathematical value of a [`HostRequest`].
pub enum HostRequestView {
    Sleep { duration: Pause, jitter: Option<Number> },
    Busy { duration: Pause, jitter: Option<Number> },
    SetState { key: Seq<char>, value: VariableView },
    GetState { key: Seq<char> },
    Call { target: RequestTargetView, input: VariableView },
    Send { target: RequestTargetView, input: VariableView },
}

impl View for HostRequest {
    type V = HostRequestView;

    open spec fn view(&self) -> HostRequestView {
        match self {
            HostRequest::Sleep { duration, jitter } => HostRequestView::Sleep {
                duration: *duration,
                jitter: *jitter,
            },
            HostRequest::Busy { duration, jitter } => HostRequestView::Busy {
                duration: *duration,
                jitter: *jitter,
            },
            HostRequest::SetState { key, value } => HostRequestView::SetState {
                key: key@,
                value: value@,
            },
            HostRequest::GetState { key } => HostRequestView::GetState { key: key@ },
            HostRequest::Call { target, input } => HostRequestView::Call {
                target: target@,
                input: input@,
            },
            HostRequest::Send { target, input } => HostRequestView::Send {
                target: target@,
                input: input@,
            },
        }
    }
}

/// What the host answers to a [`HostRequest`].
#[derive(Debug)]
pub enum HostReply {
    /// The pause is over, the state is written, the message is sent.
    Done,
    /// What the state held under the key.
    State(Option<Variable>),
    /// What the called handler returned.
    Returned(Variable),
    /// The host could not do it.
    Failed(TerminalError),
}

/// The mathematical value of a [`HostReply`].
pub enum HostReplyView {
    Done,
    State(Option<VariableView>),
    Returned(VariableView),
    Failed(TerminalError),
}

impl View for HostReply {
    type V = HostReplyView;

    open spec fn view(&self) -> HostReplyView {
        match self {
            HostReply::Done => HostReplyView::Done,
            HostReply::State(Some(value)) => HostReplyView::State(Some(value@)),
            HostReply::State(None) => HostReplyView::State(None),
            HostReply::Returned(value) => HostReplyView::Returned(value@),
            HostReply::Failed(error) => HostReplyView::Failed(*error),
        }
    }
}

/// Why a step failed. The failure ends the invocation.
#[derive(Debug)]
pub enum StepFailure {
    /// The step reads a variable that no earlier step has stored.
    UnknownVariable(String),
    /// The step sets the return value, and an earlier step has set it.
    /// This is a fault of the step list, not of the request.
    ReturnAlreadySet,
    /// The sum does not fit the integer type.
    Overflow,
    /// The reply is none that the step waits for.
    UnexpectedReply,
    /// The host failed.
    Host(TerminalError),
}

/// The mathematical value of a [`StepFailure`].
pub enum StepFailureView {
    UnknownVariable(Seq<char>),
    ReturnAlreadySet,
    Overflow,
    UnexpectedReply,
    Host(TerminalError),
}

impl View for StepFailure {
    type V = StepFailureView;

    open spec fn view(&self) -> StepFailureView {
        match self {
            StepFailure::UnknownVariable(name) => StepFailureView::UnknownVariable(name@),
            StepFailure::ReturnAlreadySet => StepFailureView::ReturnAlreadySet,
            StepFailure::Overflow => StepFailureView::Overflow,
            StepFailure::UnexpectedReply => StepFailureView::UnexpectedReply,
            StepFailure::Host(error) => StepFailureView::Host(*error),
        }
    }
}

/// How the first part of a step ended.
#[derive(Debug)]
pub enum StepOutcome {
    /// The step is over.
    Done,
    /// The step waits for the host.
    Suspend(HostRequest),
    /// The step failed.
    Failed(StepFailure),
}

/// The mathematical value of a [`StepOutcome`].
pub enum StepOutcomeView {
    Done,
    Suspend(HostRequestView),
    Failed(StepFailureView),
}

impl View for StepOutcome {
    type V = StepOutcomeView;

    open spec fn view(&self) -> StepOutcomeView {
        match self {
            StepOutcome::Done => StepOutcomeView::Done,
            StepOutcome::Suspend(request) => StepOutcomeView::Suspend(request@),
            StepOutcome::Failed(failure) => StepOutcomeView::Failed(failure@),
        }
    }
}

/// The view of the result of the second part of a step.
pub open spec fn resume_view(result: Result<(), StepFailure>) -> Result<(), StepFailureView> {
    match result {
        Ok(()) => Ok(()),
        Err(failure) => Err(failure@),
    }
}

/// What is wrong with the parameters of a step.
#[derive(Clone, Copy, Debug, PartialEq, Eq, Structural)]
pub enum ParamError {
    /// The parameters are neither a mapping nor null.
    NotAMapping,
    /// A key of the mapping is not a string.
    KeyNotAString,
    /// The field occurs more than once.
    DuplicateField(Field),
    /// The field is required and does not occur.
    MissingField(Field),
    /// The field's value is not of the field's type.
    InvalidType(Field),
    /// The field's value is outside the field's range.
    OutOfRange(Field),
    /// The field's text is no duration.
    InvalidDuration(Field),
}

/// The fields that the parameters of the steps have.
#[derive(Clone, Copy, Debug, PartialEq, Eq, Structural)]
pub enum Field {
    Duration,
    Jitter,
    Key,
    Input,
    Output,
    Size,
    Steps,
    TargetType,
    Service,
    Handler,
}

/// Why a step cannot be built, or cannot stand where it was put.
#[derive(Debug, Clone, PartialEq, Eq)]
pub enum StepError {
    /// The step cannot run under a service of this type.
    InvalidServiceType(ServiceType),
    /// The parameters do not have the shape that the kind of step asks for.
    InvalidStepParameters(ParamError),
    /// No kind of step has this name.
    UnknownStepType(String),
}

/// The mathematical value of a [`StepError`].
pub enum StepErrorView {
    InvalidServiceType(ServiceType),
    InvalidStepParameters(ParamError),
    UnknownStepType(Seq<char>),
}

impl View for StepError {
    type V = StepErrorView;

    open spec fn view(&self) -> StepErrorView {
        match self {
            StepError::InvalidServiceType(ty) => StepErrorView::InvalidServiceType(*ty),
            StepError::InvalidStepParameters(e) => StepErrorView::InvalidStepParameters(*e),
            StepError::UnknownStepType(kind) => StepErrorView::UnknownStepType(kind@),
        }
    }
}

/// One unit of a handler's behaviour.
///
/// A step runs in two parts. [`Step::run`] does what the step can do on the
/// scratch space alone; where the step needs the host, it hands out a
/// request, and [`Step::resume`] takes the host's reply.
pub trait Step {
    /// Whether the step may stand in a handler of a service of this type.
    spec fn allowed(&self, service_type: ServiceType) -> bool;

    /// Whether the first part, begun on `before` with the handler's `input`
    /// under the instance's `key`, may leave `after` and end in `outcome`.
    spec fn starts(
        &self,
        before: ExecView,
        input: JsonView,
        key: Seq<char>,
        after: ExecView,
        outcome: StepOutcomeView,
    ) -> bool;

    /// Whether the second part, begun on `before` with the host's `reply`,
    /// may leave `after` and end in `result`.
    spec fn resumes(
        &self,
        before: ExecView,
        reply: HostReplyView,
        after: ExecView,
        result: Result<(), StepFailureView>,
    ) -> bool;

    /// Checks the step against the type of the service that holds it.
    fn validate(&self, service_type: ServiceType) -> (r: Result<(), StepError>)
        ensures
            r is Ok <==> self.allowed(service_type),
            r matches Err(e) ==> e@ == StepErrorView::InvalidServiceType(service_type),
    ;

    /// The first part of the step.
    fn run(&self, exec: &mut ExecutionContext, input: &JsonValue, key: &str) -> (outcome:
        StepOutcome)
        requires
            old(exec).wf(),
        ensures
            final(exec).wf(),
            self.starts(old(exec)@, input@, key@, final(exec)@, outcome@),
    ;

    /// The second part of the step, for the reply to the request that the
    /// first part handed out.
    fn resume(&self, exec: &mut ExecutionContext, reply: HostReply) -> (result: Result<
        (),
        StepFailure,
    >)
        requires
            old(exec).wf(),
        ensures
            final(exec).wf(),
            self.resumes(old(exec)@, reply@, final(exec)@, resume_view(result)),
    ;
}

/// A letter of the English alphabet, in either case.
pub open spec fn is_letter(c: char) -> bool {
    ('a' <= c && c <= 'z') || ('A' <= c && c <= 'Z')
}

/// One of the ten digits.
pub open spec fn is_digit(c: char) -> bool {
    '0' <= c && c <= '9'
}

/// How a name begins: with a letter, or with an underscore and then a
/// letter or a digit.
pub open spec fn name_head(s: Seq<char>) -> bool {
    s.len() >= 1 && (is_letter(s[0]) || (s[0] == '_' && s.len() >= 2 && (is_letter(s[1])
        || is_digit(s[1]))))
}

/// A name of a service: it begins as a name does, and goes on with letters,
/// digits, dots, underscores and hyphens.
pub open spec fn is_service_name(s: Seq<char>) -> bool {
    name_head(s) && forall|i: int|
        0 <= i < s.len() ==> {
            let c = #[trigger] s[i];
            is_letter(c) || is_digit(c) || c == '.' || c == '_' || c == '-'
        }
}

/// A name of a handler: it begins as a name does, and goes on with letters,
/// digits and underscores.
pub open spec fn is_handler_name(s: Seq<char>) -> bool {
    name_head(s) && forall|i: int|
        0 <= i < s.len() ==> {
            let c = #[trigger] s[i];
            is_letter(c) || is_digit(c) || c == '_'
        }
}

/// `ServiceName::from_str` of the host's discovery types, asked whether it
/// accepts `text`. It accepts the texts that match the pattern which the
/// host's manifest gives for the name of a service,
/// `^([a-zA-Z]|_[a-zA-Z0-9])[a-zA-Z0-9._-]*$`.
#[verifier::external_body]
fn host_accepts_service_name(text: &str) -> (r: bool)
    ensures
        r == is_service_name(text@),
{
    text.parse::<restate_sdk::discovery::ServiceName>().is_ok()
}

/// `HandlerName::from_str` of the host's discovery types, asked whether it
/// accepts `text`. It accepts the texts that match the pattern which the
/// host's manifest gives for the name of a handler,
/// `^([a-zA-Z]|_[a-zA-Z0-9])[a-zA-Z0-9_]*$`.
#[verifier::external_body]
fn host_accepts_handler_name(text: &str) -> (r: bool)
    ensures
        r == is_handler_name(text@),
{
    text.parse::<restate_sdk::discovery::HandlerName>().is_ok()
}

/// The name of a service: a text that the host accepts as one.
#[derive(Debug, PartialEq, Eq)]
pub struct ServiceName {
    text: String,
}

impl View for ServiceName {
    type V = Seq<char>;

    closed spec fn view(&self) -> Seq<char> {
        self.text@
    }
}

impl Clone for ServiceName {
    fn clone(&self) -> (copy: Self)
        ensures
            copy@ == self@,
    {
        proof {
            use_type_invariant(self);
        }
        ServiceName { text: self.text.clone() }
    }
}

impl ServiceName {
    #[verifier::type_invariant]
    pub closed spec fn valid(self) -> bool {
        is_service_name(self.text@)
    }

    /// The name that `text` is, if it is one.
    pub fn parse(text: &str) -> (r: Option<ServiceName>)
        ensures
            r is Some <==> is_service_name(text@),
            r matches Some(name) ==> name@ == text@,
    {
        if host_accepts_service_name(text) {
            Some(ServiceName { text: text.to_owned() })
        } else {
            None
        }
    }

    /// The name as a text.
    pub fn as_str(&self) -> (text: &str)
        ensures
            text@ == self@,
            is_service_name(text@),
    {
        proof {
            use_type_invariant(self);
        }
        self.text.as_str()
    }
}

/// The name of a handler: a text that the host accepts as one.
#[derive(Debug, PartialEq, Eq)]
pub struct HandlerName {
    text: String,
}

impl View for HandlerName {
    type V = Seq<char>;

    closed spec fn view(&self) -> Seq<char> {
        self.text@
    }
}

impl Clone for HandlerName {
    fn clone(&self) -> (copy: Self)
        ensures
            copy@ == self@,
    {
        proof {
            use_type_invariant(self);
        }
        HandlerName { text: self.text.clone() }
    }
}

impl HandlerName {
    #[verifier::type_invariant]
    pub closed spec fn valid(self) -> bool {
        is_handler_name(self.text@)
    }

    /// The name that `text` is, if it is one.
    pub fn parse(text: &str) -> (r: Option<HandlerName>)
        ensures
            r is Some <==> is_handler_name(text@),
            r matches Some(name) ==> name@ == text@,
    {
        if host_accepts_handler_name(text) {
            Some(HandlerName { text: text.to_owned() })
        } else {
            None
        }
    }

    /// The name as a text.
    pub fn as_str(&self) -> (text: &str)
        ensures
            text@ == self@,
            is_handler_name(text@),
    {
        proof {
            use_type_invariant(self);
        }
        self.text.as_str()
    }
}

/// A handler: steps that run in order, one invocation at a time.
#[derive(Debug, Clone, PartialEq, Eq)]
pub struct MockHandler {
    /// The steps, in the order in which they run.
    pub steps: Vec<AnyStep>,
    /// How the host schedules the handler. `None` leaves it to the host.
    pub ty: Option<HandlerType>,
}

/// An invocation that waits for the host: its scratch space, and the place
/// of the step that waits.
#[derive(Debug)]
pub struct Invocation {
    context: ExecutionContext,
    at: usize,
}

/// The mathematical value of an [`Invocation`].
pub struct InvocationView {
    pub context: ExecView,
    pub at: nat,
}

impl View for Invocation {
    type V = InvocationView;

    closed spec fn view(&self) -> InvocationView {
        InvocationView { context: self.context@, at: self.at as nat }
    }
}

impl Invocation {
    /// The invariant of the representation. Every invocation that this
    /// module hands out meets it.
    pub closed spec fn wf(&self) -> bool {
        self.context.wf()
    }
}

/// How far an invocation has come.
#[derive(Debug)]
pub enum Progress {
    /// A step waits for the host. The caller performs `request` and resumes
    /// `invocation` with the reply.
    Suspended { invocation: Invocation, request: HostRequest },
    /// All steps are over: the handler returns this document.
    Completed(JsonValue),
    /// A step failed, and no later step has run.
    Failed(StepFailure),
}

/// The mathematical value of a [`Progress`].
pub enum ProgressView {
    Suspended { invocation: InvocationView, request: HostRequestView },
    Completed(JsonView),
    Failed(StepFailureView),
}

impl View for Progress {
    type V = ProgressView;

    open spec fn view(&self) -> ProgressView {
        match self {
            Progress::Suspended { invocation, request } => ProgressView::Suspended {
                invocation: invocation@,
                request: request@,
            },
            Progress::Completed(value) => ProgressView::Completed(value@),
            Progress::Failed(failure) => ProgressView::Failed(failure@),
        }
    }
}

impl Progress {
    /// The invocation that waits, if one does, is well formed.
    pub open spec fn wf(&self) -> bool {
        self matches Progress::Suspended { invocation, .. } ==> invocation.wf()
    }
}

/// What a handler returns at its end: the return value, or `null` where
/// no step has set one.
pub open spec fn result_of(exec: ExecView) -> JsonView {
    match exec.ret {
        Some(value) => value,
        None => JsonView::Null,
    }
}

/// Whether running `steps` from place `at` on, on the scratch space
/// `before`, may come to `progress`. The steps run in order. The first that
/// waits for the host or fails ends the run, and what earlier steps have done
/// stays done.
pub open spec fn runs(
    steps: Seq<AnyStep>,
    at: int,
    before: ExecView,
    input: JsonView,
    key: Seq<char>,
    progress: ProgressView,
) -> bool
    decreases steps.len() - at,
{
    if at < 0 {
        false
    } else if at >= steps.len() {
        progress == ProgressView::Completed(result_of(before))
    } else {
        exists|after: ExecView, outcome: StepOutcomeView| #[trigger]
            steps[at].starts(before, input, key, after, outcome) && match outcome {
                StepOutcomeView::Done => runs(steps, at + 1, after, input, key, progress),
                StepOutcomeView::Suspend(request) => progress == ProgressView::Suspended {
                    invocation: InvocationView { context: after, at: at as nat },
                    request,
                },
                StepOutcomeView::Failed(failure) => progress == ProgressView::Failed(failure),
            }
    }
}

/// Whether resuming `invocation` with `reply` may come to `progress`. The
/// step that waits takes the reply; if that goes well, the steps behind it
/// run.
pub open spec fn continues(
    steps: Seq<AnyStep>,
    invocation: InvocationView,
    reply: HostReplyView,
    input: JsonView,
    key: Seq<char>,
    progress: ProgressView,
) -> bool {
    if invocation.at >= steps.len() {
        progress == ProgressView::Failed(StepFailureView::UnexpectedReply)
    } else {
        exists|after: ExecView, result: Result<(), StepFailureView>| #[trigger]
            steps[invocation.at as int].resumes(invocation.context, reply, after, result)
                && match result {
                Ok(()) => runs(steps, invocation.at as int + 1, after, input, key, progress),
                Err(failure) => progress == ProgressView::Failed(failure),
            }
    }
}

impl MockHandler {
    /// Runs the steps from place `from` on.
    fn advance(
        &self,
        initial: ExecutionContext,
        from: usize,
        input: &JsonValue,
        key: &str,
    ) -> (progress: Progress)
        requires
            initial.wf(),
            from <= self.steps@.len(),
        ensures
            progress.wf(),
            runs(self.steps@, from as int, initial@, input@, key@, progress@),
    {
        let mut context = initial;
        let mut at: usize = from;
        while at < self.steps.len()
            invariant
                context.wf(),
                from <= at <= self.steps@.len(),
                forall|p: ProgressView| #[trigger]
                    runs(self.steps@, at as int, context@, input@, key@, p) ==> runs(
                        self.steps@,
                        from as int,
                        initial@,
                        input@,
                        key@,
                        p,
                    ),
            decreases self.steps@.len() - at,
        {
            let ghost before = context@;
            let outcome = self.steps[at].run(&mut context, input, key);
            match outcome {
                StepOutcome::Done => {
                    proof {
                        assert forall|p: ProgressView| #[trigger]
                            runs(
                                self.steps@,
                                at as int + 1,
                                context@,
                                input@,
                                key@,
                                p,
                            ) implies runs(self.steps@, from as int, initial@, input@, key@, p) by {
                            assert(runs(self.steps@, at as int, before, input@, key@, p));
                        }
                    }
                    at += 1;
                },
                StepOutcome::Suspend(request) => {
                    let progress = Progress::Suspended {
                        invocation: Invocation { context, at },
                        request,
                    };
                    assert(runs(self.steps@, at as int, before, input@, key@, progress@));
                    return progress;
                },
                StepOutcome::Failed(failure) => {
                    let progress = Progress::Failed(failure);
                    assert(runs(self.steps@, at as int, before, input@, key@, progress@));
                    return progress;
                },
            }
        }
        let ghost end = context@;
        let value = match context.ret() {
            Some(value) => value,
            None => JsonValue(Json::Null),
        };
        let progress = Progress::Completed(value);
        assert(runs(self.steps@, at as int, end, input@, key@, progress@));
        progress
    }

    /// Runs the handler for one invocation, on a scratch space of its own,
    /// with the handler's `input` and under the instance's `key`.
    pub fn run(&self, input: &JsonValue, key: &str) -> (progress: Progress)
        ensures
            progress.wf(),
            runs(self.steps@, 0, ExecView::empty(), input@, key@, progress@),
    {
        self.advance(ExecutionContext::new(), 0, input, key)
    }

    /// Goes on with an invocation that waits, with the host's reply to the
    /// request that it handed out. `input` and `key` are those of the
    /// invocation.
    pub fn resume(&self, invocation: Invocation, reply: HostReply, input: &JsonValue, key: &str) -> (progress:
        Progress)
        requires
            invocation.wf(),
        ensures
            progress.wf(),
            continues(self.steps@, invocation@, reply@, input@, key@, progress@),
    {
        let Invocation { context, at } = invocation;
        if at >= self.steps.len() {
            return Progress::Failed(StepFailure::UnexpectedReply);
        }
        let mut context = context;
        match self.steps[at].resume(&mut context, reply) {
            Ok(()) => self.advance(context, at + 1, input, key),
            Err(failure) => Progress::Failed(failure),
        }
    }
}

/// What discovery tells of a handler: its name and how it is scheduled.
/// Steps have no schema, so none is given for what goes in or comes out.
#[derive(Debug, Clone, PartialEq, Eq)]
pub struct DiscoveredHandler {
    pub name: String,
    pub ty: Option<HandlerType>,
}

/// What discovery tells of a service: its name, its type, its handlers.
#[derive(Debug, Clone, PartialEq, Eq)]
pub struct Discovery {
    pub name: String,
    pub ty: ServiceType,
    pub handlers: Vec<DiscoveredHandler>,
}

/// No handler of the service has the name that was asked for.
#[derive(Debug, Clone, PartialEq, Eq)]
pub struct UnknownHandler {
    pub service: String,
    pub handler: String,
}

/// A service: a name, a type, and handlers by name.
#[derive(Debug)]
pub struct MockService {
    name: ServiceName,
    ty: ServiceType,
    handlers: Table<MockHandler>,
}

impl MockService {
    /// The invariant of the representation: the names of the service and of
    /// its handlers are names that the host accepts. Every service that
    /// this module hands out meets it.
    pub closed spec fn wf(&self) -> bool {
        &&& self.handlers.wf()
        &&& is_service_name(self.name@)
        &&& forall|i: int|
            0 <= i < self.handlers.names().len() ==> is_handler_name(
                #[trigger] self.handlers.names()[i],
            )
    }

    /// The name of the service.
    pub closed spec fn name(&self) -> Seq<char> {
        self.name@
    }

    /// The type of the service.
    pub closed spec fn service_type(&self) -> ServiceType {
        self.ty
    }

    /// The names of the handlers, in the order in which they were first
    /// added.
    pub closed spec fn handler_names(&self) -> Seq<Seq<char>> {
        self.handlers.names()
    }

    /// The handlers, each at the place of its name.
    pub closed spec fn handlers(&self) -> Seq<MockHandler> {
        self.handlers.values()
    }

    /// The handler of a name, if the service has one.
    pub closed spec fn handler_of(&self, name: Seq<char>) -> Option<MockHandler> {
        self.handlers.lookup(name)
    }

    /// A service finds a handler under each of its names, and under no
    /// other; its names are names that the host accepts.
    pub proof fn lemma_handlers(self)
        requires
            self.wf(),
        ensures
            is_service_name(self.name()),
            self.handler_names().no_duplicates(),
            self.handler_names().len() == self.handlers().len(),
            forall|i: int|
                0 <= i < self.handler_names().len() ==> is_handler_name(
                    #[trigger] self.handler_names()[i],
                ),
            forall|i: int|
                0 <= i < self.handler_names().len() ==> self.handler_of(
                    #[trigger] self.handler_names()[i],
                ) == Some(self.handlers()[i]),
            forall|name: Seq<char>|
                !self.handler_names().contains(name) ==> self.handler_of(name) is None,
    {
        self.handlers.lemma_distinct();
        assert forall|i: int| 0 <= i < self.handler_names().len() implies self.handler_of(
            #[trigger] self.handler_names()[i],
        ) == Some(self.handlers()[i]) by {
            self.handlers.lemma_position(i);
        }
    }

    /// A service with no handler.
    pub fn new(name: ServiceName, ty: ServiceType) -> (service: Self)
        ensures
            service.wf(),
            service.name() == name@,
            service.service_type() == ty,
            service.handler_names() == Seq::<Seq<char>>::empty(),
            service.handlers() == Seq::<MockHandler>::empty(),
    {
        proof {
            use_type_invariant(&name);
        }
        MockService { name, ty, handlers: Table::new() }
    }

    /// Adds a handler under `name`. A handler that was there under the same
    /// name is replaced, at its place.
    pub fn add_handler(&mut self, name: HandlerName, handler: MockHandler)
        requires
            old(self).wf(),
        ensures
            final(self).wf(),
            final(self).name() == old(self).name(),
            final(self).service_type() == old(self).service_type(),
            final(self).handler_of(name@) == Some(handler),
            forall|other: Seq<char>|
                other != name@ ==> final(self).handler_of(other) == old(self).handler_of(other),
            old(self).handler_names().contains(name@) ==> {
                &&& final(self).handler_names() == old(self).handler_names()
                &&& final(self).handlers() == old(self).handlers().update(
                    old(self).handler_names().index_of(name@),
                    handler,
                )
            },
            !old(self).handler_names().contains(name@) ==> {
                &&& final(self).handler_names() == old(self).handler_names().push(name@)
                &&& final(self).handlers() == old(self).handlers().push(handler)
            },
    {
        let text = name.as_str().to_owned();
        self.handlers.insert(text, handler);
    }

    /// What discovery tells of the service: its name, its type, and the
    /// name and scheduling of each handler, in the order of the handlers.
    pub fn service_discovery(&self) -> (discovery: Discovery)
        requires
            self.wf(),
        ensures
            discovery.name@ == self.name(),
            is_service_name(discovery.name@),
            discovery.ty == self.service_type(),
            discovery.handlers@.len() == self.handler_names().len(),
            forall|i: int|
                0 <= i < discovery.handlers@.len() ==> {
                    &&& (#[trigger] discovery.handlers@[i]).name@ == self.handler_names()[i]
                    &&& is_handler_name(discovery.handlers@[i].name@)
                    &&& discovery.handlers@[i].ty == self.handlers()[i].ty
                },
    {
        proof {
            self.handlers.lemma_distinct();
        }
        let mut handlers: Vec<DiscoveredHandler> = Vec::new();
        let mut i: usize = 0;
        while i < self.handlers.len()
            invariant
                self.wf(),
                i <= self.handlers.names().len(),
                self.handlers.names().len() == self.handlers.values().len(),
                handlers@.len() == i,
                forall|k: int|
                    0 <= k < i ==> {
                        &&& (#[trigger] handlers@[k]).name@ == self.handlers.names()[k]
                        &&& is_handler_name(handlers@[k].name@)
                        &&& handlers@[k].ty == self.handlers.values()[k].ty
                    },
            decreases self.handlers.names().len() - i,
        {
            handlers.push(
                DiscoveredHandler {
                    name: self.handlers.name_at(i).clone(),
                    ty: self.handlers.value_at(i).ty,
                },
            );
            i += 1;
        }
        Discovery { name: self.name.as_str().to_owned(), ty: self.ty, handlers }
    }

    /// The handler that an invocation of `name` goes to.
    pub fn handler(&self, name: &str) -> (r: Result<&MockHandler, UnknownHandler>)
        requires
            self.wf(),
        ensures
            match r {
                Ok(handler) => self.handler_of(name@) == Some(*handler),
                Err(unknown) => {
                    &&& self.handler_of(name@) is None
                    &&& unknown.service@ == self.name()
                    &&& unknown.handler@ == name@
                },
            },
    {
        match self.handlers.get(name) {
            Some(handler) => Ok(handler),
            None => Err(
                UnknownHandler {
                    service: self.name.as_str().to_owned(),
                    handler: name.to_owned(),
                },
            ),
        }
    }

    /// Makes the service ready for the host: what discovery tells of it, and
    /// the service itself behind a handle that invocations share.
    pub fn bind(self) -> (bound: BoundService)
        requires
            self.wf(),
        ensures
            bound.wf(),
            *bound.service == self,
    {
        let discovery = self.service_discovery();
        BoundService { discovery, service: Arc::new(self) }
    }
}

/// A service that is ready for the host. Nothing changes it any more.
#[derive(Debug)]
pub struct BoundService {
    /// What the host is told of the service.
    pub discovery: Discovery,
    /// The service, shared by the invocations that run at the same time.
    pub service: Arc<MockService>,
}

impl BoundService {
    /// The service is well formed, and discovery tells its name, its type
    /// and its handlers.
    pub open spec fn wf(&self) -> bool {
        &&& self.service.wf()
        &&& self.discovery.name@ == self.service.name()
        &&& is_service_name(self.discovery.name@)
        &&& self.discovery.ty == self.service.service_type()
        &&& self.discovery.handlers@.len() == self.service.handler_names().len()
        &&& forall|i: int|
            0 <= i < self.discovery.handlers@.len() ==> {
                &&& (#[trigger] self.discovery.handlers@[i]).name@
                    == self.service.handler_names()[i]
                &&& is_handler_name(self.discovery.handlers@[i].name@)
                &&& self.discovery.handlers@[i].ty == self.service.handlers()[i].ty
            }
    }

    /// The handler that an invocation of `name` goes to.
    pub fn handler(&self, name: &str) -> (r: Result<&MockHandler, UnknownHandler>)
        requires
            self.wf(),
        ensures
            match r {
                Ok(handler) => self.service.handler_of(name@) == Some(*handler),
                Err(unknown) => {
                    &&& self.service.handler_of(name@) is None
                    &&& unknown.service@ == self.service.name()
                    &&& unknown.handler@ == name@
                },
            },
    {
        self.service.handler(name)
    }
}

} // verus!
