//! Configuration as parsed, untyped data, and what a handler's step list
//! reads from it.

use crate::mock::{Field, HandlerType, ParamError, ServiceType};
use crate::number::Number;
use crate::table::Table;
use crate::text::same_text;
use vstd::prelude::*;

verus! {

/// A value of a configuration document, as its parser hands it over.
#[derive(Debug, PartialEq, Eq)]
pub enum Value {
    Null,
    Bool(bool),
    Number(Number),
    String(String),
    Sequence(Vec<Value>),
    /// The entries of a mapping, in the order of the document.
    Mapping(Vec<(Value, Value)>),
    /// A value with a tag in front of it.
    Tagged(String, Box<Value>),
}

/// The mathematical value of a [`Value`].
pub enum ValueView {
    Null,
    Bool(bool),
    Number(Number),
    String(Seq<char>),
    Sequence(Seq<ValueView>),
    Mapping(Seq<(ValueView, ValueView)>),
    Tagged(Seq<char>, Box<ValueView>),
}

/// The views of a sequence of values, each at its place.
pub open spec fn values_view(items: Seq<Value>) -> Seq<ValueView>
    decreases items,
{
    if items.len() == 0 {
        Seq::empty()
    } else {
        values_view(items.drop_last()).push(value_view(items.last()))
    }
}

/// The views of a sequence of entries, each at its place.
pub open spec fn entries_view(entries: Seq<(Value, Value)>) -> Seq<(ValueView, ValueView)>
    decreases entries,
{
    if entries.len() == 0 {
        Seq::empty()
    } else {
        entries_view(entries.drop_last()).push(
            (value_view(entries.last().0), value_view(entries.last().1)),
        )
    }
}

/// The view of a value.
pub open spec fn value_view(v: Value) -> ValueView
    decreases v,
{
    match v {
        Value::Null => ValueView::Null,
        Value::Bool(b) => ValueView::Bool(b),
        Value::Number(n) => ValueView::Number(n),
        Value::String(s) => ValueView::String(s@),
        Value::Sequence(items) => ValueView::Sequence(values_view(items@)),
        Value::Mapping(entries) => ValueView::Mapping(entries_view(entries@)),
        Value::Tagged(tag, inner) => ValueView::Tagged(tag@, Box::new(value_view(*inner))),
    }
}

impl View for Value {
    type V = ValueView;

    open spec fn view(&self) -> ValueView {
        value_view(*self)
    }
}

/// The view of a sequence of values holds the view of each, in order.
pub proof fn lemma_values_view(items: Seq<Value>)
    ensures
        values_view(items).len() == items.len(),
        forall|i: int|
            #![trigger values_view(items)[i]]
            #![trigger items[i]]
            0 <= i < items.len() ==> values_view(items)[i] == items[i]@,
    decreases items.len(),
{
    if items.len() > 0 {
        let front = items.drop_last();
        lemma_values_view(front);
        assert forall|i: int| 0 <= i < items.len() implies values_view(items)[i]
            == items[i]@ by {
            if i < front.len() {
                assert(front[i] == items[i]);
            }
        }
    }
}

/// The view of a sequence of entries holds the view of each, in order.
pub proof fn lemma_entries_view(entries: Seq<(Value, Value)>)
    ensures
        entries_view(entries).len() == entries.len(),
        forall|i: int|
            #![trigger entries_view(entries)[i]]
            #![trigger entries[i]]
            0 <= i < entries.len() ==> entries_view(entries)[i] == (
                entries[i].0@,
                entries[i].1@,
            ),
    decreases entries.len(),
{
    if entries.len() > 0 {
        let front = entries.drop_last();
        lemma_entries_view(front);
        assert forall|i: int| 0 <= i < entries.len() implies entries_view(entries)[i] == (
            entries[i].0@,
            entries[i].1@,
        ) by {
            if i < front.len() {
                assert(front[i] == entries[i]);
            }
        }
    }
}

impl ValueView {
    /// The value without the tags in front of it.
    pub open spec fn untagged(self) -> ValueView
        decreases self,
    {
        match self {
            ValueView::Tagged(_, inner) => inner.untagged(),
            other => other,
        }
    }
}

impl Value {
    /// The value without the tags in front of it.
    pub fn untag(&self) -> (r: &Value)
        ensures
            r@ == self@.untagged(),
            !(*r is Tagged),
        decreases self,
    {
        match self {
            Value::Tagged(_, inner) => inner.untag(),
            other => other,
        }
    }
}

impl Clone for Value {
    fn clone(&self) -> (copy: Self)
        ensures
            copy@ == self@,
        decreases self,
    {
        match self {
            Value::Null => Value::Null,
            Value::Bool(b) => Value::Bool(*b),
            Value::Number(n) => Value::Number(*n),
            Value::String(s) => Value::String(s.clone()),
            Value::Sequence(items) => {
                let mut copies: Vec<Value> = Vec::new();
                let mut i: usize = 0;
                while i < items.len()
                    invariant
                        decreases_to!(*self => *items),
                        i <= items.len(),
                        copies.len() == i,
                        forall|j: int| 0 <= j < i ==> copies@[j]@ == items@[j]@,
                    decreases items.len() - i,
                {
                    assert(decreases_to!(*items => items[i as int]));
                    copies.push(items[i].clone());
                    i += 1;
                }
                proof {
                    lemma_values_view(copies@);
                    lemma_values_view(items@);
                    assert(values_view(copies@) =~= values_view(items@));
                }
                Value::Sequence(copies)
            },
            Value::Mapping(entries) => {
                let mut copies: Vec<(Value, Value)> = Vec::new();
                let mut i: usize = 0;
                while i < entries.len()
                    invariant
                        decreases_to!(*self => *entries),
                        i <= entries.len(),
                        copies.len() == i,
                        forall|j: int|
                            0 <= j < i ==> copies@[j].0@ == entries@[j].0@ && copies@[j].1@
                                == entries@[j].1@,
                    decreases entries.len() - i,
                {
                    assert(decreases_to!(*entries => entries[i as int]));
                    copies.push((entries[i].0.clone(), entries[i].1.clone()));
                    i += 1;
                }
                proof {
                    lemma_entries_view(copies@);
                    lemma_entries_view(entries@);
                    assert(entries_view(copies@) =~= entries_view(entries@));
                }
                Value::Mapping(copies)
            },
            Value::Tagged(tag, inner) => Value::Tagged(tag.clone(), Box::new((**inner).clone())),
        }
    }
}

/// The text that a value is, tags aside.
pub open spec fn text_of(v: ValueView) -> Option<Seq<char>> {
    match v.untagged() {
        ValueView::String(s) => Some(s),
        _ => None,
    }
}

/// The entries of the mapping that a value is, tags aside. Null stands for
/// the mapping without entries.
pub open spec fn entries_of(v: ValueView) -> Option<Seq<(ValueView, ValueView)>> {
    match v.untagged() {
        ValueView::Mapping(entries) => Some(entries),
        ValueView::Null => Some(Seq::empty()),
        _ => None,
    }
}

/// Every key is a text.
pub open spec fn keys_are_texts(entries: Seq<(ValueView, ValueView)>) -> bool {
    forall|i: int| 0 <= i < entries.len() ==> text_of((#[trigger] entries[i]).0) is Some
}

/// The values that stand under the key `name`, in the order of the entries.
pub open spec fn named(entries: Seq<(ValueView, ValueView)>, name: Seq<char>) -> Seq<ValueView>
    decreases entries.len(),
{
    if entries.len() == 0 {
        Seq::empty()
    } else {
        let front = named(entries.drop_last(), name);
        if text_of(entries.last().0) == Some(name) {
            front.push(entries.last().1)
        } else {
            front
        }
    }
}

/// What stands under a key grows with the entries.
pub proof fn lemma_named_grows(entries: Seq<(ValueView, ValueView)>, name: Seq<char>, n: int)
    requires
        0 <= n <= entries.len(),
    ensures
        named(entries.take(n), name).len() <= named(entries, name).len(),
        named(entries.take(n), name).len() >= 1 ==> named(entries, name)[0] == named(
            entries.take(n),
            name,
        )[0],
    decreases entries.len() - n,
{
    if n < entries.len() {
        lemma_named_grows(entries, name, n + 1);
        assert(entries.take(n + 1).drop_last() =~= entries.take(n));
    } else {
        assert(entries.take(n) =~= entries);
    }
}

/// The name of a field, as it is written in a document.
pub open spec fn field_name(field: Field) -> Seq<char> {
    match field {
        Field::Duration => "duration"@,
        Field::Jitter => "jitter"@,
        Field::Key => "key"@,
        Field::Input => "input"@,
        Field::Output => "output"@,
        Field::Size => "size"@,
        Field::Steps => "steps"@,
        Field::TargetType => "target_type"@,
        Field::Service => "service"@,
        Field::Handler => "handler"@,
    }
}

/// The name of a field, as it is written in a document.
pub fn name_of(field: Field) -> (name: &'static str)
    ensures
        name@ == field_name(field),
{
    match field {
        Field::Duration => "duration",
        Field::Jitter => "jitter",
        Field::Key => "key",
        Field::Input => "input",
        Field::Output => "output",
        Field::Size => "size",
        Field::Steps => "steps",
        Field::TargetType => "target_type",
        Field::Service => "service",
        Field::Handler => "handler",
    }
}

/// The entries of the parameters of a step: those of a mapping whose keys
/// are all texts.
pub open spec fn fields(params: ValueView) -> Result<Seq<(ValueView, ValueView)>, ParamError> {
    match entries_of(params) {
        None => Err(ParamError::NotAMapping),
        Some(entries) => if keys_are_texts(entries) {
            Ok(entries)
        } else {
            Err(ParamError::KeyNotAString)
        },
    }
}

/// The value of a field that may be left out. A field occurs once at most.
pub open spec fn optional(entries: Seq<(ValueView, ValueView)>, field: Field) -> Result<
    Option<ValueView>,
    ParamError,
> {
    let found = named(entries, field_name(field));
    if found.len() == 0 {
        Ok(None)
    } else if found.len() == 1 {
        Ok(Some(found[0]))
    } else {
        Err(ParamError::DuplicateField(field))
    }
}

/// The value of a field that must be there, once.
pub open spec fn required(entries: Seq<(ValueView, ValueView)>, field: Field) -> Result<
    ValueView,
    ParamError,
> {
    match optional(entries, field) {
        Ok(Some(value)) => Ok(value),
        Ok(None) => Err(ParamError::MissingField(field)),
        Err(e) => Err(e),
    }
}

/// The text that the value of a field is.
pub open spec fn as_text(value: ValueView, field: Field) -> Result<Seq<char>, ParamError> {
    match text_of(value) {
        Some(text) => Ok(text),
        None => Err(ParamError::InvalidType(field)),
    }
}

/// The number that the value of a field is.
pub open spec fn as_number(value: ValueView, field: Field) -> Result<Number, ParamError> {
    match value.untagged() {
        ValueView::Number(n) => Ok(n),
        _ => Err(ParamError::InvalidType(field)),
    }
}

/// The integer that the value of a field is, between `low` and `high`.
pub open spec fn as_integer(value: ValueView, field: Field, low: int, high: int) -> Result<
    int,
    ParamError,
> {
    match as_number(value, field) {
        Ok(n) => match n.integer() {
            Some(i) => if low <= i <= high {
                Ok(i)
            } else {
                Err(ParamError::OutOfRange(field))
            },
            None => Err(ParamError::InvalidType(field)),
        },
        Err(e) => Err(e),
    }
}

/// The type of service that the value of a field names. The name is a
/// plain text, without a tag.
pub open spec fn as_service_type(value: ValueView, field: Field) -> Result<
    ServiceType,
    ParamError,
> {
    match value {
        ValueView::String(s) => match service_type_named(s) {
            Some(ty) => Ok(ty),
            None => Err(ParamError::OutOfRange(field)),
        },
        _ => Err(ParamError::InvalidType(field)),
    }
}

/// The type of service that a text names. Each type has two names: that of
/// the host's manifest, and that of the type itself.
pub open spec fn service_type_named(text: Seq<char>) -> Option<ServiceType> {
    if text == "SERVICE"@ || text == "Service"@ {
        Some(ServiceType::Service)
    } else if text == "VIRTUAL_OBJECT"@ || text == "VirtualObject"@ {
        Some(ServiceType::VirtualObject)
    } else if text == "WORKFLOW"@ || text == "Workflow"@ {
        Some(ServiceType::Workflow)
    } else {
        None
    }
}

/// The scheduling of a handler that a text names, by the name of the host's
/// manifest.
pub open spec fn handler_type_named(text: Seq<char>) -> Option<HandlerType> {
    if text == "WORKFLOW"@ {
        Some(HandlerType::Workflow)
    } else if text == "EXCLUSIVE"@ {
        Some(HandlerType::Exclusive)
    } else if text == "SHARED"@ {
        Some(HandlerType::Shared)
    } else {
        None
    }
}

/// The type of service that `text` names.
pub fn service_type_from(text: &str) -> (r: Option<ServiceType>)
    ensures
        r == service_type_named(text@),
{
    if same_text(text, "SERVICE") || same_text(text, "Service") {
        Some(ServiceType::Service)
    } else if same_text(text, "VIRTUAL_OBJECT") || same_text(text, "VirtualObject") {
        Some(ServiceType::VirtualObject)
    } else if same_text(text, "WORKFLOW") || same_text(text, "Workflow") {
        Some(ServiceType::Workflow)
    } else {
        None
    }
}

/// The scheduling of a handler that `text` names.
pub fn handler_type_from(text: &str) -> (r: Option<HandlerType>)
    ensures
        r == handler_type_named(text@),
{
    if same_text(text, "WORKFLOW") {
        Some(HandlerType::Workflow)
    } else if same_text(text, "EXCLUSIVE") {
        Some(HandlerType::Exclusive)
    } else if same_text(text, "SHARED") {
        Some(HandlerType::Shared)
    } else {
        None
    }
}

/// The entries of the parameters of a step.
pub fn read_fields(params: &Value) -> (r: Result<&[(Value, Value)], ParamError>)
    ensures
        match r {
            Ok(entries) => fields(params@) == Ok::<Seq<(ValueView, ValueView)>, ParamError>(
                entries_view(entries@),
            ),
            Err(e) => fields(params@) == Err::<Seq<(ValueView, ValueView)>, ParamError>(e),
        },
{
    match params.untag() {
        Value::Mapping(entries) => {
            proof {
                lemma_entries_view(entries@);
            }
            let mut i: usize = 0;
            while i < entries.len()
                invariant
                    params@.untagged() == ValueView::Mapping(entries_view(entries@)),
                    entries_view(entries@).len() == entries@.len(),
                    forall|k: int|
                        0 <= k < entries@.len() ==> entries_view(entries@)[k] == (
                            (#[trigger] entries@[k]).0@,
                            entries@[k].1@,
                        ),
                    i <= entries.len(),
                    forall|k: int|
                        0 <= k < i ==> text_of((#[trigger] entries_view(entries@)[k]).0) is Some,
                decreases entries.len() - i,
            {
                match entries[i].0.untag() {
                    Value::String(_) => {},
                    _ => {
                        return Err(ParamError::KeyNotAString);
                    },
                }
                i += 1;
            }
            Ok(entries.as_slice())
        },
        Value::Null => {
            let none: &[(Value, Value)] = &[];
            Ok(none)
        },
        _ => Err(ParamError::NotAMapping),
    }
}

/// The value of a field that may be left out.
pub fn read_optional<'a>(entries: &'a [(Value, Value)], field: Field) -> (r: Result<
    Option<&'a Value>,
    ParamError,
>)
    ensures
        match r {
            Ok(Some(value)) => optional(entries_view(entries@), field) == Ok::<
                Option<ValueView>,
                ParamError,
            >(Some(value@)),
            Ok(None) => optional(entries_view(entries@), field) == Ok::<
                Option<ValueView>,
                ParamError,
            >(None),
            Err(e) => optional(entries_view(entries@), field) == Err::<
                Option<ValueView>,
                ParamError,
            >(e),
        },
{
    let name = name_of(field);
    let ghost views = entries_view(entries@);
    proof {
        lemma_entries_view(entries@);
    }
    let mut found: Option<&Value> = None;
    let mut i: usize = 0;
    while i < entries.len()
        invariant
            views == entries_view(entries@),
            views.len() == entries@.len(),
            forall|k: int|
                0 <= k < entries@.len() ==> views[k] == (
                    (#[trigger] entries@[k]).0@,
                    entries@[k].1@,
                ),
            i <= entries.len(),
            name@ == field_name(field),
            match found {
                None => named(views.take(i as int), name@).len() == 0,
                Some(value) => named(views.take(i as int), name@) == seq![value@],
            },
        decreases entries.len() - i,
    {
        let is_named = match entries[i].0.untag() {
            Value::String(key) => same_text(key.as_str(), name),
            _ => false,
        };
        proof {
            assert(views[i as int] == (entries@[i as int].0@, entries@[i as int].1@));
            assert(views.take(i + 1).drop_last() =~= views.take(i as int));
            assert(views.take(i + 1).last() == views[i as int]);
        }
        if is_named {
            if found.is_some() {
                proof {
                    lemma_named_grows(views, name@, i + 1);
                }
                return Err(ParamError::DuplicateField(field));
            }
            found = Some(&entries[i].1);
        }
        i += 1;
    }
    proof {
        assert(views.take(i as int) =~= views);
    }
    Ok(found)
}

/// The value of a field that must be there.
pub fn read_required<'a>(entries: &'a [(Value, Value)], field: Field) -> (r: Result<
    &'a Value,
    ParamError,
>)
    ensures
        match r {
            Ok(value) => required(entries_view(entries@), field) == Ok::<ValueView, ParamError>(
                value@,
            ),
            Err(e) => required(entries_view(entries@), field) == Err::<ValueView, ParamError>(e),
        },
{
    match read_optional(entries, field) {
        Ok(Some(value)) => Ok(value),
        Ok(None) => Err(ParamError::MissingField(field)),
        Err(e) => Err(e),
    }
}

/// The text that the value of a field is.
pub fn read_text(value: &Value, field: Field) -> (r: Result<String, ParamError>)
    ensures
        match r {
            Ok(text) => as_text(value@, field) == Ok::<Seq<char>, ParamError>(text@),
            Err(e) => as_text(value@, field) == Err::<Seq<char>, ParamError>(e),
        },
{
    match value.untag() {
        Value::String(text) => Ok(text.clone()),
        _ => Err(ParamError::InvalidType(field)),
    }
}

/// The number that the value of a field is.
pub fn read_number(value: &Value, field: Field) -> (r: Result<Number, ParamError>)
    ensures
        r == as_number(value@, field),
{
    match value.untag() {
        Value::Number(n) => Ok(*n),
        _ => Err(ParamError::InvalidType(field)),
    }
}

/// The count that the value of a field is.
pub fn read_u16(value: &Value, field: Field) -> (r: Result<u16, ParamError>)
    ensures
        match r {
            Ok(n) => as_integer(value@, field, 0, 65535) == Ok::<int, ParamError>(n as int),
            Err(e) => as_integer(value@, field, 0, 65535) == Err::<int, ParamError>(e),
        },
{
    match read_number(value, field) {
        Ok(Number::PosInt(n)) => {
            if n <= 65535 {
                Ok(n as u16)
            } else {
                Err(ParamError::OutOfRange(field))
            }
        },
        Ok(Number::NegInt(n)) => {
            if 0 <= n && n <= 65535 {
                Ok(n as u16)
            } else {
                Err(ParamError::OutOfRange(field))
            }
        },
        Ok(Number::Float(_)) => Err(ParamError::InvalidType(field)),
        Err(e) => Err(e),
    }
}

/// The integer that the value of a field is.
pub fn read_isize(value: &Value, field: Field) -> (r: Result<isize, ParamError>)
    ensures
        match r {
            Ok(n) => as_integer(value@, field, isize::MIN as int, isize::MAX as int) == Ok::<
                int,
                ParamError,
            >(n as int),
            Err(e) => as_integer(value@, field, isize::MIN as int, isize::MAX as int) == Err::<
                int,
                ParamError,
            >(e),
        },
{
    match read_number(value, field) {
        Ok(Number::PosInt(n)) => {
            if n <= isize::MAX as u64 {
                Ok(n as isize)
            } else {
                Err(ParamError::OutOfRange(field))
            }
        },
        Ok(Number::NegInt(n)) => {
            if isize::MIN as i64 <= n && n <= isize::MAX as i64 {
                Ok(n as isize)
            } else {
                Err(ParamError::OutOfRange(field))
            }
        },
        Ok(Number::Float(_)) => Err(ParamError::InvalidType(field)),
        Err(e) => Err(e),
    }
}

/// The type of service that the value of a field names.
pub fn read_service_type(value: &Value, field: Field) -> (r: Result<ServiceType, ParamError>)
    ensures
        r == as_service_type(value@, field),
{
    match value {
        Value::String(text) => match service_type_from(text.as_str()) {
            Some(ty) => Ok(ty),
            None => Err(ParamError::OutOfRange(field)),
        },
        _ => Err(ParamError::InvalidType(field)),
    }
}

/// The text of a field that must be there.
pub open spec fn required_text(entries: Seq<(ValueView, ValueView)>, field: Field) -> Result<
    Seq<char>,
    ParamError,
> {
    match required(entries, field) {
        Ok(value) => as_text(value, field),
        Err(e) => Err(e),
    }
}

/// The text of a field that may be left out, or be null.
pub open spec fn optional_text(entries: Seq<(ValueView, ValueView)>, field: Field) -> Result<
    Option<Seq<char>>,
    ParamError,
> {
    match optional(entries, field) {
        Ok(None) => Ok(None),
        Ok(Some(ValueView::Null)) => Ok(None),
        Ok(Some(value)) => match as_text(value, field) {
            Ok(text) => Ok(Some(text)),
            Err(e) => Err(e),
        },
        Err(e) => Err(e),
    }
}

/// The number of a field that may be left out, or be null.
pub open spec fn optional_number(entries: Seq<(ValueView, ValueView)>, field: Field) -> Result<
    Option<Number>,
    ParamError,
> {
    match optional(entries, field) {
        Ok(None) => Ok(None),
        Ok(Some(ValueView::Null)) => Ok(None),
        Ok(Some(value)) => match as_number(value, field) {
            Ok(n) => Ok(Some(n)),
            Err(e) => Err(e),
        },
        Err(e) => Err(e),
    }
}

/// The view of a text that may be absent.
pub open spec fn text_view(text: Option<String>) -> Option<Seq<char>> {
    match text {
        Some(t) => Some(t@),
        None => None,
    }
}

/// The text of a field that must be there.
pub fn read_required_text(entries: &[(Value, Value)], field: Field) -> (r: Result<
    String,
    ParamError,
>)
    ensures
        match r {
            Ok(text) => required_text(entries_view(entries@), field) == Ok::<
                Seq<char>,
                ParamError,
            >(text@),
            Err(e) => required_text(entries_view(entries@), field) == Err::<
                Seq<char>,
                ParamError,
            >(e),
        },
{
    match read_required(entries, field) {
        Ok(value) => read_text(value, field),
        Err(e) => Err(e),
    }
}

/// The text of a field that may be left out, or be null.
pub fn read_optional_text(entries: &[(Value, Value)], field: Field) -> (r: Result<
    Option<String>,
    ParamError,
>)
    ensures
        match r {
            Ok(text) => optional_text(entries_view(entries@), field) == Ok::<
                Option<Seq<char>>,
                ParamError,
            >(text_view(text)),
            Err(e) => optional_text(entries_view(entries@), field) == Err::<
                Option<Seq<char>>,
                ParamError,
            >(e),
        },
{
    match read_optional(entries, field) {
        Ok(None) => Ok(None),
        Ok(Some(Value::Null)) => Ok(None),
        Ok(Some(value)) => match read_text(value, field) {
            Ok(text) => Ok(Some(text)),
            Err(e) => Err(e),
        },
        Err(e) => Err(e),
    }
}

/// The number of a field that may be left out, or be null.
pub fn read_optional_number(entries: &[(Value, Value)], field: Field) -> (r: Result<
    Option<Number>,
    ParamError,
>)
    ensures
        r == optional_number(entries_view(entries@), field),
{
    match read_optional(entries, field) {
        Ok(None) => Ok(None),
        Ok(Some(Value::Null)) => Ok(None),
        Ok(Some(value)) => match read_number(value, field) {
            Ok(n) => Ok(Some(n)),
            Err(e) => Err(e),
        },
        Err(e) => Err(e),
    }
}

/// One step of a handler: the name of its kind, and its parameters.
#[derive(Debug, Clone, PartialEq, Eq)]
pub struct StepConfig {
    pub ty: String,
    pub params: Value,
}

/// One handler: how it is scheduled, and its steps in order.
#[derive(Debug, Clone, PartialEq, Eq)]
pub struct HandlerConfig {
    pub ty: Option<HandlerType>,
    pub steps: Vec<StepConfig>,
}

/// One service: its type, and its handlers by name.
#[derive(Debug, Clone)]
pub struct ServiceConfig {
    pub ty: ServiceType,
    pub handlers: Table<HandlerConfig>,
}

/// A configuration: services by name.
#[derive(Debug, Clone)]
pub struct Configuration {
    pub services: Table<ServiceConfig>,
}

} // verus!
