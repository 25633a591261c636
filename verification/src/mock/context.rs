//! The values that steps exchange, and the scratch space of one invocation.

use crate::json::{JsonValue, JsonView};
use crate::number::Float;
use crate::table::Table;
use bytes::Bytes;
use vstd::prelude::*;
use vstd::std_specs::convert::{FromSpecImpl, TryFromSpec, TryFromSpecImpl};

verus! {

#[verifier::external_type_specification]
#[verifier::external_body]
pub struct ExBytes(Bytes);

/// The bytes that a buffer holds, in order.
pub uninterp spec fn bytes_of(buffer: Bytes) -> Seq<u8>;

/// `Bytes::from` on a vector: the buffer holds the vector's bytes, in the
/// same order.
#[verifier::external_body]
pub(crate) fn bytes_from_vec(bytes: Vec<u8>) -> (buffer: Bytes)
    ensures
        bytes_of(buffer) == bytes@,
{
    Bytes::from(bytes)
}

/// `Bytes::to_vec`, which a buffer has from the slice it stands for: the
/// vector holds the buffer's bytes, in the same order.
#[verifier::external_body]
pub(crate) fn bytes_to_vec(buffer: &Bytes) -> (bytes: Vec<u8>)
    ensures
        bytes@ == bytes_of(*buffer),
{
    buffer.to_vec()
}

/// `Clone::clone` of a buffer: the copy holds the same bytes.
#[verifier::external_body]
fn bytes_clone(buffer: &Bytes) -> (copy: Bytes)
    ensures
        bytes_of(copy) == bytes_of(*buffer),
{
    buffer.clone()
}

/// Why a variable could not be read as the type asked for.
#[derive(Debug, Clone, Copy, PartialEq, Eq, Structural)]
pub enum VariableError {
    /// The variable holds a value of another type.
    InvalidType,
}

/// A value that a step produces or consumes.
#[derive(Debug, PartialEq, Eq)]
pub enum Variable {
    String(String),
    Integer(isize),
    Number(Float),
    Boolean(bool),
    Bytes(Bytes),
    /// Stands for "no value": typed reads treat it as absent.
    Null,
}

/// The mathematical value of a [`Variable`].
pub enum VariableView {
    String(Seq<char>),
    Integer(isize),
    Number(Float),
    Boolean(bool),
    Bytes(Seq<u8>),
    Null,
}

impl View for Variable {
    type V = VariableView;

    open spec fn view(&self) -> VariableView {
        match self {
            Variable::String(s) => VariableView::String(s@),
            Variable::Integer(i) => VariableView::Integer(*i),
            Variable::Number(x) => VariableView::Number(*x),
            Variable::Boolean(b) => VariableView::Boolean(*b),
            Variable::Bytes(b) => VariableView::Bytes(bytes_of(*b)),
            Variable::Null => VariableView::Null,
        }
    }
}

impl Clone for Variable {
    fn clone(&self) -> (copy: Self)
        ensures
            copy@ == self@,
    {
        match self {
            Variable::String(s) => Variable::String(s.clone()),
            Variable::Integer(i) => Variable::Integer(*i),
            Variable::Number(x) => Variable::Number(*x),
            Variable::Boolean(b) => Variable::Boolean(*b),
            Variable::Bytes(b) => Variable::Bytes(bytes_clone(b)),
            Variable::Null => Variable::Null,
        }
    }
}

impl From<String> for Variable {
    fn from(value: String) -> (r: Self) {
        Variable::String(value)
    }
}

impl FromSpecImpl<String> for Variable {
    open spec fn obeys_from_spec() -> bool {
        true
    }

    open spec fn from_spec(value: String) -> Self {
        Variable::String(value)
    }
}

impl From<isize> for Variable {
    fn from(value: isize) -> (r: Self) {
        Variable::Integer(value)
    }
}

impl FromSpecImpl<isize> for Variable {
    open spec fn obeys_from_spec() -> bool {
        true
    }

    open spec fn from_spec(value: isize) -> Self {
        Variable::Integer(value)
    }
}

impl From<Float> for Variable {
    fn from(value: Float) -> (r: Self) {
        Variable::Number(value)
    }
}

impl FromSpecImpl<Float> for Variable {
    open spec fn obeys_from_spec() -> bool {
        true
    }

    open spec fn from_spec(value: Float) -> Self {
        Variable::Number(value)
    }
}

impl From<bool> for Variable {
    fn from(value: bool) -> (r: Self) {
        Variable::Boolean(value)
    }
}

impl FromSpecImpl<bool> for Variable {
    open spec fn obeys_from_spec() -> bool {
        true
    }

    open spec fn from_spec(value: bool) -> Self {
        Variable::Boolean(value)
    }
}

impl From<Bytes> for Variable {
    fn from(value: Bytes) -> (r: Self) {
        Variable::Bytes(value)
    }
}

impl FromSpecImpl<Bytes> for Variable {
    open spec fn obeys_from_spec() -> bool {
        true
    }

    open spec fn from_spec(value: Bytes) -> Self {
        Variable::Bytes(value)
    }
}

impl From<Vec<u8>> for Variable {
    fn from(value: Vec<u8>) -> (r: Self)
        ensures
            r@ == VariableView::Bytes(value@),
    {
        Variable::Bytes(bytes_from_vec(value))
    }
}

impl FromSpecImpl<Vec<u8>> for Variable {
    /// The buffer that comes out is named by the bytes it holds only: see
    /// the contract of `from`.
    open spec fn obeys_from_spec() -> bool {
        false
    }

    open spec fn from_spec(value: Vec<u8>) -> Self {
        Variable::Bytes(choose|buffer: Bytes| bytes_of(buffer) == value@)
    }
}

impl From<()> for Variable {
    fn from(value: ()) -> (r: Self) {
        Variable::Null
    }
}

impl FromSpecImpl<()> for Variable {
    open spec fn obeys_from_spec() -> bool {
        true
    }

    open spec fn from_spec(value: ()) -> Self {
        Variable::Null
    }
}

impl TryFrom<Variable> for String {
    type Error = VariableError;

    fn try_from(value: Variable) -> (r: Result<Self, VariableError>) {
        match value {
            Variable::String(s) => Ok(s),
            _ => Err(VariableError::InvalidType),
        }
    }
}

impl TryFromSpecImpl<Variable> for String {
    open spec fn obeys_try_from_spec() -> bool {
        true
    }

    open spec fn try_from_spec(value: Variable) -> Result<Self, VariableError> {
        match value {
            Variable::String(s) => Ok(s),
            _ => Err(VariableError::InvalidType),
        }
    }
}

impl TryFrom<Variable> for isize {
    type Error = VariableError;

    fn try_from(value: Variable) -> (r: Result<Self, VariableError>) {
        match value {
            Variable::Integer(i) => Ok(i),
            _ => Err(VariableError::InvalidType),
        }
    }
}

impl TryFromSpecImpl<Variable> for isize {
    open spec fn obeys_try_from_spec() -> bool {
        true
    }

    open spec fn try_from_spec(value: Variable) -> Result<Self, VariableError> {
        match value {
            Variable::Integer(i) => Ok(i),
            _ => Err(VariableError::InvalidType),
        }
    }
}

impl TryFrom<Variable> for Float {
    type Error = VariableError;

    fn try_from(value: Variable) -> (r: Result<Self, VariableError>) {
        match value {
            Variable::Number(x) => Ok(x),
            _ => Err(VariableError::InvalidType),
        }
    }
}

impl TryFromSpecImpl<Variable> for Float {
    open spec fn obeys_try_from_spec() -> bool {
        true
    }

    open spec fn try_from_spec(value: Variable) -> Result<Self, VariableError> {
        match value {
            Variable::Number(x) => Ok(x),
            _ => Err(VariableError::InvalidType),
        }
    }
}

impl TryFrom<Variable> for bool {
    type Error = VariableError;

    fn try_from(value: Variable) -> (r: Result<Self, VariableError>) {
        match value {
            Variable::Boolean(b) => Ok(b),
            _ => Err(VariableError::InvalidType),
        }
    }
}

impl TryFromSpecImpl<Variable> for bool {
    open spec fn obeys_try_from_spec() -> bool {
        true
    }

    open spec fn try_from_spec(value: Variable) -> Result<Self, VariableError> {
        match value {
            Variable::Boolean(b) => Ok(b),
            _ => Err(VariableError::InvalidType),
        }
    }
}

impl TryFrom<Variable> for Bytes {
    type Error = VariableError;

    fn try_from(value: Variable) -> (r: Result<Self, VariableError>) {
        match value {
            Variable::Bytes(b) => Ok(b),
            _ => Err(VariableError::InvalidType),
        }
    }
}

impl TryFromSpecImpl<Variable> for Bytes {
    open spec fn obeys_try_from_spec() -> bool {
        true
    }

    open spec fn try_from_spec(value: Variable) -> Result<Self, VariableError> {
        match value {
            Variable::Bytes(b) => Ok(b),
            _ => Err(VariableError::InvalidType),
        }
    }
}

/// A variable is read as a type only where it holds a value of that type.
/// Every other read is refused with [`VariableError::InvalidType`]: nothing
/// is widened, and nothing is made into a text.
pub proof fn lemma_no_coercion(v: Variable)
    ensures
        <String as TryFromSpec<Variable>>::try_from_spec(v) is Ok <==> v is String,
        <isize as TryFromSpec<Variable>>::try_from_spec(v) is Ok <==> v is Integer,
        <Float as TryFromSpec<Variable>>::try_from_spec(v) is Ok <==> v is Number,
        <bool as TryFromSpec<Variable>>::try_from_spec(v) is Ok <==> v is Boolean,
        <Bytes as TryFromSpec<Variable>>::try_from_spec(v) is Ok <==> v is Bytes,
        <String as TryFromSpec<Variable>>::try_from_spec(v) matches Err(e) ==> e == VariableError::InvalidType,
        <isize as TryFromSpec<Variable>>::try_from_spec(v) matches Err(e) ==> e == VariableError::InvalidType,
        <Float as TryFromSpec<Variable>>::try_from_spec(v) matches Err(e) ==> e == VariableError::InvalidType,
        <bool as TryFromSpec<Variable>>::try_from_spec(v) matches Err(e) ==> e == VariableError::InvalidType,
        <Bytes as TryFromSpec<Variable>>::try_from_spec(v) matches Err(e) ==> e == VariableError::InvalidType,
{
}

/// The mathematical value of an [`ExecutionContext`]: the return value, if
/// one was set, and the variables by name.
pub struct ExecView {
    pub ret: Option<JsonView>,
    pub variables: Map<Seq<char>, VariableView>,
}

impl ExecView {
    /// No return value and no variable.
    pub open spec fn empty() -> ExecView {
        ExecView { ret: None, variables: Map::empty() }
    }

    /// The same variables, with `value` as the return value.
    pub open spec fn with_return(self, value: JsonView) -> ExecView {
        ExecView { ret: Some(value), variables: self.variables }
    }

    /// The same return value, with `value` stored under `name`.
    pub open spec fn with_variable(self, name: Seq<char>, value: VariableView) -> ExecView {
        ExecView { ret: self.ret, variables: self.variables.insert(name, value) }
    }

    /// What is stored under `name`.
    pub open spec fn variable(self, name: Seq<char>) -> Option<VariableView> {
        if self.variables.dom().contains(name) {
            Some(self.variables[name])
        } else {
            None
        }
    }

    /// What a typed read sees under `name`: a stored `Null` counts as
    /// nothing.
    pub open spec fn present(self, name: Seq<char>) -> Option<VariableView> {
        match self.variable(name) {
            Some(VariableView::Null) => None,
            other => other,
        }
    }
}

/// The scratch space of one invocation: variables by name, and the return
/// value, which can be set once.
#[derive(Debug)]
pub struct ExecutionContext {
    ret: Option<JsonValue>,
    variables: Table<Variable>,
}

impl View for ExecutionContext {
    type V = ExecView;

    closed spec fn view(&self) -> ExecView {
        ExecView {
            ret: match self.ret {
                Some(value) => Some(value@),
                None => None,
            },
            variables: Map::new(
                |name: Seq<char>| self.variables.lookup(name) is Some,
                |name: Seq<char>| self.variables.lookup(name).unwrap()@,
            ),
        }
    }
}

impl Default for ExecutionContext {
    fn default() -> (context: Self)
        ensures
            context.wf(),
            context@ == ExecView::empty(),
    {
        ExecutionContext::new()
    }
}

impl ExecutionContext {
    /// The invariant of the representation. Every context that this module
    /// hands out meets it.
    pub closed spec fn wf(&self) -> bool {
        self.variables.wf()
    }

    /// A context with no variable and no return value.
    pub fn new() -> (context: Self)
        ensures
            context.wf(),
            context@ == ExecView::empty(),
    {
        let context = ExecutionContext { ret: None, variables: Table::new() };
        assert(context@.variables =~= Map::empty());
        context
    }

    /// Whether the return value was set.
    pub fn has_returned(&self) -> (r: bool)
        ensures
            r == (self@.ret is Some),
    {
        self.ret.is_some()
    }

    /// Sets the return value. It can be set once: a caller that cannot rule
    /// out an earlier call asks [`ExecutionContext::has_returned`] first.
    pub fn return_value(&mut self, value: JsonValue)
        requires
            old(self)@.ret is None,
        ensures
            final(self)@ == old(self)@.with_return(value@),
            final(self).wf() == old(self).wf(),
    {
        self.ret = Some(value);
    }

    /// The return value, if one was set. This ends the context's life.
    pub fn ret(self) -> (r: Option<JsonValue>)
        ensures
            match r {
                Some(value) => self@.ret == Some(value@),
                None => self@.ret is None,
            },
    {
        self.ret
    }

    /// Stores `value` under `name`, in place of what was there.
    pub fn set(&mut self, name: &str, value: Variable)
        requires
            old(self).wf(),
        ensures
            final(self).wf(),
            final(self)@ == old(self)@.with_variable(name@, value@),
    {
        self.variables.insert(name.to_owned(), value);
        assert(final(self)@.variables =~= old(self)@.variables.insert(name@, value@));
    }

    /// Reads the variable `name` as a `T`. Nothing is read where no variable
    /// has that name or where it holds `Null`; a variable of another type
    /// gives the error of the conversion.
    pub fn get<T>(&self, name: &str) -> (r: Option<Result<T, VariableError>>) where
        T: TryFrom<Variable, Error = VariableError>,

        requires
            self.wf(),
        ensures
            self@.present(name@) is None ==> r is None,
            self@.present(name@) is Some ==> r is Some,
            T::obeys_try_from_spec() ==> (self@.present(name@) matches Some(stored)
                ==> exists|held: Variable|
                held@ == stored && r == Some(#[trigger] T::try_from_spec(held))),
    {
        match self.variables.get(name) {
            None => None,
            Some(Variable::Null) => None,
            Some(stored) => {
                let held = stored.clone();
                Some(T::try_from(held))
            },
        }
    }

    /// The variable `name` as it is stored, `Null` included.
    pub fn get_variable(&self, name: &str) -> (r: Option<&Variable>)
        requires
            self.wf(),
        ensures
            match r {
                Some(stored) => self@.variable(name@) == Some(stored@),
                None => self@.variable(name@) is None,
            },
    {
        self.variables.get(name)
    }
}

} // verus!
