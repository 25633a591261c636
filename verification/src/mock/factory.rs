//! Making steps from their parameters, and finding the maker of a kind of
//! step by the kind's name.

use crate::config::{
    as_integer, as_service_type, entries_view, fields, optional, optional_number, optional_text,
    read_fields, read_isize, read_optional, read_optional_number, read_optional_text, read_required,
    read_required_text, read_service_type, read_u16, required, required_text, Value, ValueView,
};
use crate::mock::pause::duration_of;
use crate::mock::steps::{
    AnyStep, BusyStep, CallStep, EchoStep, GetStep, IncrementStep, RandomStep, ReturnStep,
    SendStep, SetStep, SleepStep, StepView,
};
use crate::mock::{Field, ParamError, Pause, ServiceType, StepError, StepErrorView};
use crate::number::Number;
use crate::table::Table;
use vstd::prelude::*;

verus! {

/// What is added where the parameters of an increment give no `steps`.
pub open spec fn default_steps() -> isize {
    1
}

/// The length and the jitter of a pause, given what the text of the field
/// `duration` was read as: the text must be a length of time, and the field
/// `jitter` a number where it is there.
pub open spec fn timed(entries: Seq<(ValueView, ValueView)>, parsed: Option<Pause>) -> Result<
    (Pause, Option<Number>),
    ParamError,
> {
    match parsed {
        None => Err(ParamError::InvalidDuration(Field::Duration)),
        Some(duration) => match optional_number(entries, Field::Jitter) {
            Err(e) => Err(e),
            Ok(jitter) => Ok((duration, jitter)),
        },
    }
}

/// The length and the jitter of a pause.
pub open spec fn pause_params(params: ValueView) -> Result<(Pause, Option<Number>), ParamError> {
    match fields(params) {
        Err(e) => Err(e),
        Ok(entries) => match required_text(entries, Field::Duration) {
            Err(e) => Err(e),
            Ok(text) => timed(entries, duration_of(text)),
        },
    }
}

/// Two texts that must be there.
pub open spec fn two_texts(params: ValueView, first: Field, second: Field) -> Result<
    (Seq<char>, Seq<char>),
    ParamError,
> {
    match fields(params) {
        Err(e) => Err(e),
        Ok(entries) => match required_text(entries, first) {
            Err(e) => Err(e),
            Ok(a) => match required_text(entries, second) {
                Err(e) => Err(e),
                Ok(b) => Ok((a, b)),
            },
        },
    }
}

/// The parameters of a step that stores random bytes.
pub open spec fn random_params(params: ValueView) -> Result<StepView, ParamError> {
    match fields(params) {
        Err(e) => Err(e),
        Ok(entries) => match required(entries, Field::Size) {
            Err(e) => Err(e),
            Ok(value) => match as_integer(value, Field::Size, 0, 65535) {
                Err(e) => Err(e),
                Ok(size) => match required_text(entries, Field::Output) {
                    Err(e) => Err(e),
                    Ok(output) => Ok(StepView::Random { size: size as u16, output }),
                },
            },
        },
    }
}

/// The parameters of a step that returns a variable.
pub open spec fn return_params(params: ValueView) -> Result<StepView, ParamError> {
    match fields(params) {
        Err(e) => Err(e),
        Ok(entries) => match required_text(entries, Field::Output) {
            Err(e) => Err(e),
            Ok(output) => Ok(StepView::Return { output }),
        },
    }
}

/// What an increment adds: the integer of the field `steps`, or one where
/// the field is left out.
pub open spec fn steps_field(entries: Seq<(ValueView, ValueView)>) -> Result<isize, ParamError> {
    match optional(entries, Field::Steps) {
        Err(e) => Err(e),
        Ok(None) => Ok(default_steps()),
        Ok(Some(value)) => match as_integer(
            value,
            Field::Steps,
            isize::MIN as int,
            isize::MAX as int,
        ) {
            Err(e) => Err(e),
            Ok(steps) => Ok(steps as isize),
        },
    }
}

/// The parameters of an increment.
pub open spec fn increment_params(params: ValueView) -> Result<StepView, ParamError> {
    match fields(params) {
        Err(e) => Err(e),
        Ok(entries) => match required_text(entries, Field::Input) {
            Err(e) => Err(e),
            Ok(input) => match steps_field(entries) {
                Err(e) => Err(e),
                Ok(steps) => Ok(StepView::Increment { input, steps }),
            },
        },
    }
}

/// Where a call or a message goes, and what it carries.
pub struct Addressing {
    pub target_type: ServiceType,
    pub service: Seq<char>,
    pub handler: Seq<char>,
    pub key: Option<Seq<char>>,
    pub input: Option<Seq<char>>,
}

/// The fields that a call and a message share.
pub open spec fn addressing(entries: Seq<(ValueView, ValueView)>) -> Result<Addressing, ParamError> {
    match required(entries, Field::TargetType) {
        Err(e) => Err(e),
        Ok(value) => match as_service_type(value, Field::TargetType) {
            Err(e) => Err(e),
            Ok(target_type) => match required_text(entries, Field::Service) {
                Err(e) => Err(e),
                Ok(service) => match required_text(entries, Field::Handler) {
                    Err(e) => Err(e),
                    Ok(handler) => match optional_text(entries, Field::Key) {
                        Err(e) => Err(e),
                        Ok(key) => match optional_text(entries, Field::Input) {
                            Err(e) => Err(e),
                            Ok(input) => Ok(
                                Addressing { target_type, service, handler, key, input },
                            ),
                        },
                    },
                },
            },
        },
    }
}

/// The parameters of a call.
pub open spec fn call_params(params: ValueView) -> Result<StepView, ParamError> {
    match fields(params) {
        Err(e) => Err(e),
        Ok(entries) => match addressing(entries) {
            Err(e) => Err(e),
            Ok(a) => match optional_text(entries, Field::Output) {
                Err(e) => Err(e),
                Ok(output) => Ok(
                    StepView::Call {
                        target_type: a.target_type,
                        service: a.service,
                        handler: a.handler,
                        key: a.key,
                        input: a.input,
                        output,
                    },
                ),
            },
        },
    }
}

/// The parameters of a message.
pub open spec fn send_params(params: ValueView) -> Result<StepView, ParamError> {
    match fields(params) {
        Err(e) => Err(e),
        Ok(entries) => match addressing(entries) {
            Err(e) => Err(e),
            Ok(a) => Ok(
                StepView::Send {
                    target_type: a.target_type,
                    service: a.service,
                    handler: a.handler,
                    key: a.key,
                    input: a.input,
                },
            ),
        },
    }
}

/// A maker of steps of one kind.
pub trait StepFactory {
    /// The step that the parameters describe, or what is wrong with them.
    spec fn makes(&self, params: ValueView) -> Result<StepView, ParamError>;

    /// Makes a step from its parameters.
    fn create(&self, params: Value) -> (r: Result<AnyStep, StepError>)
        ensures
            match r {
                Ok(step) => self.makes(params@) == Ok::<StepView, ParamError>(step@),
                Err(e) => self.makes(params@) matches Err(wrong) && e@
                    == StepErrorView::InvalidStepParameters(wrong),
            },
    ;
}

/// The makers of the kinds of step that the library has.
#[derive(Clone, Copy, Debug, PartialEq, Eq, Structural)]
pub enum Factory {
    Echo,
    Sleep,
    Busy,
    SetState,
    GetState,
    Random,
    Increment,
    Call,
    Send,
    Return,
}

/// The length and the jitter of a pause, from what the text of the field
/// `duration` was read as and the other entries.
pub fn pause_with(entries: &[(Value, Value)], parsed: Option<Pause>) -> (r: Result<
    (Pause, Option<Number>),
    ParamError,
>)
    ensures
        r == timed(entries_view(entries@), parsed),
{
    let duration = match parsed {
        Some(pause) => pause,
        None => {
            return Err(ParamError::InvalidDuration(Field::Duration));
        },
    };
    let jitter = read_optional_number(entries, Field::Jitter)?;
    Ok((duration, jitter))
}

fn read_pause(params: &Value) -> (r: Result<(Pause, Option<Number>), ParamError>)
    ensures
        r == pause_params(params@),
{
    let entries = read_fields(params)?;
    let text = read_required_text(entries, Field::Duration)?;
    pause_with(entries, Pause::parse(text.as_str()))
}

fn read_two_texts(params: &Value, first: Field, second: Field) -> (r: Result<
    (String, String),
    ParamError,
>)
    ensures
        match r {
            Ok((a, b)) => two_texts(params@, first, second) == Ok::<
                (Seq<char>, Seq<char>),
                ParamError,
            >((a@, b@)),
            Err(e) => two_texts(params@, first, second) == Err::<
                (Seq<char>, Seq<char>),
                ParamError,
            >(e),
        },
{
    let entries = read_fields(params)?;
    let a = read_required_text(entries, first)?;
    let b = read_required_text(entries, second)?;
    Ok((a, b))
}

fn read_random(params: &Value) -> (r: Result<RandomStep, ParamError>)
    ensures
        match r {
            Ok(step) => random_params(params@) == Ok::<StepView, ParamError>(
                AnyStep::Random(step)@,
            ),
            Err(e) => random_params(params@) == Err::<StepView, ParamError>(e),
        },
{
    let entries = read_fields(params)?;
    let value = read_required(entries, Field::Size)?;
    let size = read_u16(value, Field::Size)?;
    let output = read_required_text(entries, Field::Output)?;
    Ok(RandomStep { size, output })
}

fn read_return(params: &Value) -> (r: Result<ReturnStep, ParamError>)
    ensures
        match r {
            Ok(step) => return_params(params@) == Ok::<StepView, ParamError>(
                AnyStep::Return(step)@,
            ),
            Err(e) => return_params(params@) == Err::<StepView, ParamError>(e),
        },
{
    let entries = read_fields(params)?;
    let output = read_required_text(entries, Field::Output)?;
    Ok(ReturnStep { output })
}

fn read_increment(params: &Value) -> (r: Result<IncrementStep, ParamError>)
    ensures
        match r {
            Ok(step) => increment_params(params@) == Ok::<StepView, ParamError>(
                AnyStep::Increment(step)@,
            ),
            Err(e) => increment_params(params@) == Err::<StepView, ParamError>(e),
        },
{
    let entries = read_fields(params)?;
    let input = read_required_text(entries, Field::Input)?;
    let steps: isize = match read_optional(entries, Field::Steps)? {
        None => 1,
        Some(value) => read_isize(value, Field::Steps)?,
    };
    Ok(IncrementStep { input, steps })
}

fn read_call(params: &Value) -> (r: Result<CallStep, ParamError>)
    ensures
        match r {
            Ok(step) => call_params(params@) == Ok::<StepView, ParamError>(AnyStep::Call(step)@),
            Err(e) => call_params(params@) == Err::<StepView, ParamError>(e),
        },
{
    let entries = read_fields(params)?;
    let value = read_required(entries, Field::TargetType)?;
    let target_type = read_service_type(value, Field::TargetType)?;
    let service = read_required_text(entries, Field::Service)?;
    let handler = read_required_text(entries, Field::Handler)?;
    let key = read_optional_text(entries, Field::Key)?;
    let input = read_optional_text(entries, Field::Input)?;
    let output = read_optional_text(entries, Field::Output)?;
    Ok(CallStep { target_type, service, handler, key, input, output })
}

fn read_send(params: &Value) -> (r: Result<SendStep, ParamError>)
    ensures
        match r {
            Ok(step) => send_params(params@) == Ok::<StepView, ParamError>(AnyStep::Send(step)@),
            Err(e) => send_params(params@) == Err::<StepView, ParamError>(e),
        },
{
    let entries = read_fields(params)?;
    let value = read_required(entries, Field::TargetType)?;
    let target_type = read_service_type(value, Field::TargetType)?;
    let service = read_required_text(entries, Field::Service)?;
    let handler = read_required_text(entries, Field::Handler)?;
    let key = read_optional_text(entries, Field::Key)?;
    let input = read_optional_text(entries, Field::Input)?;
    Ok(SendStep { target_type, service, handler, key, input })
}

impl Factory {
    /// The step that the parameters describe.
    pub fn build(&self, params: &Value) -> (r: Result<AnyStep, ParamError>)
        ensures
            match r {
                Ok(step) => self.makes(params@) == Ok::<StepView, ParamError>(step@),
                Err(e) => self.makes(params@) == Err::<StepView, ParamError>(e),
            },
    {
        match self {
            Factory::Echo => Ok(AnyStep::Echo(EchoStep)),
            Factory::Sleep => {
                let (duration, jitter) = read_pause(params)?;
                Ok(AnyStep::Sleep(SleepStep { duration, jitter }))
            },
            Factory::Busy => {
                let (duration, jitter) = read_pause(params)?;
                Ok(AnyStep::Busy(BusyStep { duration, jitter }))
            },
            Factory::SetState => {
                let (key, input) = read_two_texts(params, Field::Key, Field::Input)?;
                Ok(AnyStep::SetState(SetStep { key, input }))
            },
            Factory::GetState => {
                let (key, output) = read_two_texts(params, Field::Key, Field::Output)?;
                Ok(AnyStep::GetState(GetStep { key, output }))
            },
            Factory::Random => Ok(AnyStep::Random(read_random(params)?)),
            Factory::Increment => Ok(AnyStep::Increment(read_increment(params)?)),
            Factory::Call => Ok(AnyStep::Call(read_call(params)?)),
            Factory::Send => Ok(AnyStep::Send(read_send(params)?)),
            Factory::Return => Ok(AnyStep::Return(read_return(params)?)),
        }
    }
}

impl StepFactory for Factory {
    open spec fn makes(&self, params: ValueView) -> Result<StepView, ParamError> {
        match self {
            Factory::Echo => Ok(StepView::Echo),
            Factory::Sleep => match pause_params(params) {
                Ok((duration, jitter)) => Ok(StepView::Sleep { duration, jitter }),
                Err(e) => Err(e),
            },
            Factory::Busy => match pause_params(params) {
                Ok((duration, jitter)) => Ok(StepView::Busy { duration, jitter }),
                Err(e) => Err(e),
            },
            Factory::SetState => match two_texts(params, Field::Key, Field::Input) {
                Ok((key, input)) => Ok(StepView::SetState { key, input }),
                Err(e) => Err(e),
            },
            Factory::GetState => match two_texts(params, Field::Key, Field::Output) {
                Ok((key, output)) => Ok(StepView::GetState { key, output }),
                Err(e) => Err(e),
            },
            Factory::Random => random_params(params),
            Factory::Increment => increment_params(params),
            Factory::Call => call_params(params),
            Factory::Send => send_params(params),
            Factory::Return => return_params(params),
        }
    }

    fn create(&self, params: Value) -> (r: Result<AnyStep, StepError>) {
        match self.build(&params) {
            Ok(step) => Ok(step),
            Err(e) => Err(StepError::InvalidStepParameters(e)),
        }
    }
}

/// The maker that the library has for a kind of step, by the kind's name.
pub open spec fn builtin_factory(kind: Seq<char>) -> Option<Factory> {
    if kind == "echo"@ {
        Some(Factory::Echo)
    } else if kind == "sleep"@ {
        Some(Factory::Sleep)
    } else if kind == "busy"@ {
        Some(Factory::Busy)
    } else if kind == "set"@ {
        Some(Factory::SetState)
    } else if kind == "get"@ {
        Some(Factory::GetState)
    } else if kind == "random"@ {
        Some(Factory::Random)
    } else if kind == "increment"@ {
        Some(Factory::Increment)
    } else if kind == "call"@ {
        Some(Factory::Call)
    } else if kind == "send"@ {
        Some(Factory::Send)
    } else if kind == "return"@ {
        Some(Factory::Return)
    } else {
        None
    }
}

/// The names of the kinds of step are ten different texts.
pub proof fn lemma_kinds_differ()
    ensures
        builtin_factory("echo"@) == Some(Factory::Echo),
        builtin_factory("sleep"@) == Some(Factory::Sleep),
        builtin_factory("busy"@) == Some(Factory::Busy),
        builtin_factory("set"@) == Some(Factory::SetState),
        builtin_factory("get"@) == Some(Factory::GetState),
        builtin_factory("random"@) == Some(Factory::Random),
        builtin_factory("increment"@) == Some(Factory::Increment),
        builtin_factory("call"@) == Some(Factory::Call),
        builtin_factory("send"@) == Some(Factory::Send),
        builtin_factory("return"@) == Some(Factory::Return),
{
    reveal_strlit("echo");
    reveal_strlit("sleep");
    reveal_strlit("busy");
    reveal_strlit("set");
    reveal_strlit("get");
    reveal_strlit("random");
    reveal_strlit("increment");
    reveal_strlit("call");
    reveal_strlit("send");
    reveal_strlit("return");
    assert("echo"@.len() == 4 && "echo"@[0] == 'e');
    assert("sleep"@.len() == 5);
    assert("busy"@.len() == 4 && "busy"@[0] == 'b');
    assert("set"@.len() == 3 && "set"@[0] == 's');
    assert("get"@.len() == 3 && "get"@[0] == 'g');
    assert("random"@.len() == 6 && "random"@[1] == 'a');
    assert("increment"@.len() == 9);
    assert("call"@.len() == 4 && "call"@[0] == 'c');
    assert("send"@.len() == 4 && "send"@[0] == 's');
    assert("return"@.len() == 6 && "return"@[1] == 'e');
}

/// The makers of steps, by the name of the kind of step. A registry is put
/// together once, before any service is assembled, and only read after.
#[derive(Debug, Clone)]
pub struct StepRegistry {
    factories: Table<Factory>,
}

impl StepRegistry {
    /// The invariant of the representation. Every registry that this module
    /// hands out meets it.
    pub closed spec fn wf(&self) -> bool {
        self.factories.wf()
    }

    /// The maker that is registered for a kind of step.
    pub closed spec fn factory_of(&self, kind: Seq<char>) -> Option<Factory> {
        self.factories.lookup(kind)
    }

    /// A registry that knows no kind of step.
    pub fn new() -> (registry: Self)
        ensures
            registry.wf(),
            forall|kind: Seq<char>| registry.factory_of(kind) is None,
    {
        StepRegistry { factories: Table::new() }
    }

    /// Registers `factory` for the kind called `kind`, in place of the maker
    /// that was registered for it.
    pub fn register(&mut self, kind: &str, factory: Factory)
        requires
            old(self).wf(),
        ensures
            final(self).wf(),
            final(self).factory_of(kind@) == Some(factory),
            forall|other: Seq<char>|
                other != kind@ ==> final(self).factory_of(other) == old(self).factory_of(other),
    {
        self.factories.insert(kind.to_owned(), factory);
    }

    /// The registry of the kinds of step that the library has: `echo`,
    /// `sleep`, `busy`, `set`, `get`, `random`, `increment`, `call`, `send`
    /// and `return`.
    pub fn builtin() -> (registry: Self)
        ensures
            registry.wf(),
            forall|kind: Seq<char>| registry.factory_of(kind) == builtin_factory(kind),
    {
        proof {
            lemma_kinds_differ();
        }
        let mut registry = StepRegistry::new();
        registry.register("echo", Factory::Echo);
        registry.register("sleep", Factory::Sleep);
        registry.register("busy", Factory::Busy);
        registry.register("set", Factory::SetState);
        registry.register("get", Factory::GetState);
        registry.register("random", Factory::Random);
        registry.register("increment", Factory::Increment);
        registry.register("call", Factory::Call);
        registry.register("send", Factory::Send);
        registry.register("return", Factory::Return);
        registry
    }

    /// The maker that is registered for the kind called `kind`.
    pub fn get(&self, kind: &str) -> (r: Option<Factory>)
        requires
            self.wf(),
        ensures
            r == self.factory_of(kind@),
    {
        match self.factories.get(kind) {
            Some(factory) => Some(*factory),
            None => None,
        }
    }
}

} // verus!
