//! How a variable is written as a JSON document, and read back.
//!
//! A variable is written as an object with one member, named after the
//! type of the value: `{"Integer": 5}`. `Null` is written as the string
//! `"Null"`. Bytes are written as an array of numbers, never as text. A
//! number that JSON has no form for, an infinity or a NaN, is written by
//! its bit pattern: `{"Number": {"bits": 9218868437227405312}}`.

use crate::json::{lemma_array_view, lemma_object_view, Json, JsonValue, JsonView};
use crate::mock::context::{bytes_from_vec, bytes_to_vec, Variable, VariableView};
use crate::number::{Float, Number};
use crate::text::same_text;
use vstd::prelude::*;
use vstd::string::StrSliceExecFns;
use vstd::utf8::encode_utf8;

verus! {

/// Why a JSON document is no variable.
#[derive(Clone, Copy, Debug, PartialEq, Eq, Structural)]
pub enum DecodeError {
    /// The document is neither a string nor an object with one member.
    NotAVariable,
    /// The name is none of the six type names.
    UnknownVariant,
    /// What stands under the name is not a value of that type.
    InvalidContent,
}

/// An object with the one member `name: content`.
pub open spec fn tagged(name: Seq<char>, content: JsonView) -> JsonView {
    JsonView::Object(seq![(name, content)])
}

/// The number that stands for an integer.
pub open spec fn integer_number(i: isize) -> Number {
    if i >= 0 {
        Number::PosInt(i as u64)
    } else {
        Number::NegInt(i as i64)
    }
}

/// The array that stands for a sequence of bytes.
pub open spec fn byte_array(bytes: Seq<u8>) -> Seq<JsonView> {
    Seq::new(bytes.len(), |i: int| JsonView::Number(Number::PosInt(bytes[i] as u64)))
}

/// The document that stands for a number: the number itself where it is
/// finite, else its bit pattern under the name `bits`.
pub open spec fn encode_number(x: Float) -> JsonView {
    if x.finite() {
        JsonView::Number(Number::Float(x))
    } else {
        tagged("bits"@, JsonView::Number(Number::PosInt(x.bits)))
    }
}

/// The number that a document stands for: a float as it is, an integer as
/// the float that stands for it, and a bit pattern under the name `bits` as
/// the infinity or NaN that has it.
pub open spec fn decode_number(j: JsonView) -> Option<Float> {
    match j {
        JsonView::Number(n) => Some(n.as_float()),
        JsonView::Object(members) => if members.len() == 1 && members[0].0 == "bits"@ {
            match members[0].1 {
                JsonView::Number(Number::PosInt(bits)) => if (Float { bits }).finite() {
                    None
                } else {
                    Some(Float { bits })
                },
                _ => None,
            }
        } else {
            None
        },
        _ => None,
    }
}

/// The document that stands for a variable.
pub open spec fn encode(v: VariableView) -> JsonView {
    match v {
        VariableView::String(s) => tagged("String"@, JsonView::String(s)),
        VariableView::Integer(i) => tagged("Integer"@, JsonView::Number(integer_number(i))),
        VariableView::Number(x) => tagged("Number"@, encode_number(x)),
        VariableView::Boolean(b) => tagged("Boolean"@, JsonView::Bool(b)),
        VariableView::Bytes(bytes) => tagged("Bytes"@, JsonView::Array(byte_array(bytes))),
        VariableView::Null => JsonView::String("Null"@),
    }
}

/// Whether a document is a number that is a byte.
pub open spec fn is_byte(j: JsonView) -> bool {
    j matches JsonView::Number(Number::PosInt(n)) && n <= 255
}

/// The byte that a document is, where it is one.
pub open spec fn byte_of(j: JsonView) -> u8 {
    match j {
        JsonView::Number(Number::PosInt(n)) => n as u8,
        _ => 0,
    }
}

/// The integer that a number is, where it is one that fits.
pub open spec fn number_integer(n: Number) -> Option<isize> {
    match n {
        Number::PosInt(u) => if u <= isize::MAX {
            Some(u as isize)
        } else {
            None
        },
        Number::NegInt(i) => if isize::MIN <= i <= isize::MAX {
            Some(i as isize)
        } else {
            None
        },
        Number::Float(_) => None,
    }
}

/// The variable of the type called `name` that `content` stands for.
/// `content` is `None` where the document is the bare name.
pub open spec fn decode_tagged(name: Seq<char>, content: Option<JsonView>) -> Result<
    VariableView,
    DecodeError,
> {
    if name == "String"@ {
        match content {
            Some(JsonView::String(s)) => Ok(VariableView::String(s)),
            _ => Err(DecodeError::InvalidContent),
        }
    } else if name == "Integer"@ {
        match content {
            Some(JsonView::Number(n)) => match number_integer(n) {
                Some(i) => Ok(VariableView::Integer(i)),
                None => Err(DecodeError::InvalidContent),
            },
            _ => Err(DecodeError::InvalidContent),
        }
    } else if name == "Number"@ {
        match content {
            Some(j) => match decode_number(j) {
                Some(x) => Ok(VariableView::Number(x)),
                None => Err(DecodeError::InvalidContent),
            },
            None => Err(DecodeError::InvalidContent),
        }
    } else if name == "Boolean"@ {
        match content {
            Some(JsonView::Bool(b)) => Ok(VariableView::Boolean(b)),
            _ => Err(DecodeError::InvalidContent),
        }
    } else if name == "Bytes"@ {
        match content {
            Some(JsonView::Array(items)) => if forall|i: int|
                0 <= i < items.len() ==> is_byte(#[trigger] items[i]) {
                Ok(VariableView::Bytes(Seq::new(items.len(), |i: int| byte_of(items[i]))))
            } else {
                Err(DecodeError::InvalidContent)
            },
            Some(JsonView::String(s)) => Ok(VariableView::Bytes(encode_utf8(s))),
            _ => Err(DecodeError::InvalidContent),
        }
    } else if name == "Null"@ {
        match content {
            None => Ok(VariableView::Null),
            Some(JsonView::Null) => Ok(VariableView::Null),
            _ => Err(DecodeError::InvalidContent),
        }
    } else {
        Err(DecodeError::UnknownVariant)
    }
}

/// The variable that a document stands for.
pub open spec fn decode(j: JsonView) -> Result<VariableView, DecodeError> {
    match j {
        JsonView::String(name) => decode_tagged(name, None),
        JsonView::Object(members) => if members.len() == 1 {
            decode_tagged(members[0].0, Some(members[0].1))
        } else {
            Err(DecodeError::NotAVariable)
        },
        _ => Err(DecodeError::NotAVariable),
    }
}

/// The six type names are six different texts.
pub proof fn lemma_names_differ()
    ensures
        "String"@ != "Integer"@,
        "String"@ != "Number"@,
        "String"@ != "Boolean"@,
        "String"@ != "Bytes"@,
        "String"@ != "Null"@,
        "Integer"@ != "Number"@,
        "Integer"@ != "Boolean"@,
        "Integer"@ != "Bytes"@,
        "Integer"@ != "Null"@,
        "Number"@ != "Boolean"@,
        "Number"@ != "Bytes"@,
        "Number"@ != "Null"@,
        "Boolean"@ != "Bytes"@,
        "Boolean"@ != "Null"@,
        "Bytes"@ != "Null"@,
{
    reveal_strlit("String");
    reveal_strlit("Integer");
    reveal_strlit("Number");
    reveal_strlit("Boolean");
    reveal_strlit("Bytes");
    reveal_strlit("Null");
    assert("Number"@.len() == 6 && "Null"@.len() == 4);
    assert("Boolean"@[1] == 'o' && "Bytes"@[1] == 'y');
    assert("String"@[0] == 'S' && "Integer"@[0] == 'I' && "Boolean"@[0] == 'B');
}

/// Reading back what was written gives the variable that was written:
/// byte for byte where it holds bytes, bit for bit where it holds a number.
pub proof fn lemma_round_trip(v: VariableView)
    ensures
        decode(encode(v)) == Ok::<VariableView, DecodeError>(v),
{
    lemma_names_differ();
    match v {
        VariableView::Bytes(bytes) => {
            let items = byte_array(bytes);
            assert forall|i: int| 0 <= i < items.len() implies is_byte(#[trigger] items[i]) by {}
            assert(Seq::new(items.len(), |i: int| byte_of(items[i])) =~= bytes);
        },
        _ => {},
    }
}

/// Two variables that are written as the same document are the same
/// variable.
pub proof fn lemma_written_apart(a: VariableView, b: VariableView)
    requires
        encode(a) == encode(b),
    ensures
        a == b,
{
    lemma_round_trip(a);
    lemma_round_trip(b);
}

/// The view of a document that may be absent.
pub open spec fn content_view(content: Option<&Json>) -> Option<JsonView> {
    match content {
        Some(document) => Some(document@),
        None => None,
    }
}

/// An object with the one member `name: content`.
fn tag(name: &str, content: Json) -> (j: Json)
    ensures
        j@ == tagged(name@, content@),
{
    let mut members: Vec<(String, Json)> = Vec::new();
    members.push((name.to_owned(), content));
    let j = Json::Object(members);
    proof {
        lemma_object_view(members);
        assert(j@->Object_0 =~= seq![(name@, content@)]);
    }
    j
}

/// The array of numbers that stands for `bytes`.
fn array_of_bytes(bytes: &Vec<u8>) -> (j: Json)
    ensures
        j@ == JsonView::Array(byte_array(bytes@)),
{
    let mut items: Vec<Json> = Vec::new();
    let mut i: usize = 0;
    while i < bytes.len()
        invariant
            i <= bytes.len(),
            items.len() == i,
            forall|k: int|
                0 <= k < i ==> (#[trigger] items@[k])@ == JsonView::Number(
                    Number::PosInt(bytes@[k] as u64),
                ),
        decreases bytes.len() - i,
    {
        items.push(Json::Number(Number::PosInt(bytes[i] as u64)));
        i += 1;
    }
    let j = Json::Array(items);
    proof {
        lemma_array_view(items);
        assert(j@->Array_0 =~= byte_array(bytes@));
    }
    j
}

/// The bytes that the numbers of an array are, if each of them is a byte.
fn bytes_of_array(items: &Vec<Json>) -> (r: Option<Vec<u8>>)
    ensures
        match r {
            Some(bytes) => {
                &&& forall|i: int| 0 <= i < items@.len() ==> is_byte(#[trigger] items@[i]@)
                &&& bytes@ == Seq::new(items@.len(), |i: int| byte_of(items@[i]@))
            },
            None => exists|i: int| 0 <= i < items@.len() && !is_byte(#[trigger] items@[i]@),
        },
{
    let mut bytes: Vec<u8> = Vec::new();
    let mut i: usize = 0;
    while i < items.len()
        invariant
            i <= items.len(),
            bytes.len() == i,
            forall|k: int| 0 <= k < i ==> is_byte(#[trigger] items@[k]@),
            forall|k: int| 0 <= k < i ==> bytes@[k] == byte_of(#[trigger] items@[k]@),
        decreases items.len() - i,
    {
        match &items[i] {
            Json::Number(Number::PosInt(n)) => {
                if *n <= 255 {
                    bytes.push(*n as u8);
                } else {
                    assert(!is_byte(items@[i as int]@));
                    return None;
                }
            },
            _ => {
                assert(!is_byte(items@[i as int]@));
                return None;
            },
        }
        i += 1;
    }
    assert(bytes@ =~= Seq::new(items@.len(), |i: int| byte_of(items@[i]@)));
    Some(bytes)
}

/// The number that a document stands for.
fn number_of(document: &Json) -> (r: Option<Float>)
    ensures
        r == decode_number(document@),
{
    match document {
        Json::Number(n) => Some(n.to_float()),
        Json::Object(members) => {
            proof {
                lemma_object_view(*members);
            }
            if members.len() == 1 && same_text(members[0].0.as_str(), "bits") {
                match &members[0].1 {
                    Json::Number(Number::PosInt(bits)) => {
                        let x = Float::from_bits(*bits);
                        if x.is_finite() {
                            None
                        } else {
                            Some(x)
                        }
                    },
                    _ => None,
                }
            } else {
                None
            }
        },
        _ => None,
    }
}

/// The variable of the type called `name` that `content` stands for.
fn from_tagged(name: &str, content: Option<&Json>) -> (r: Result<Variable, DecodeError>)
    ensures
        match r {
            Ok(v) => decode_tagged(name@, content_view(content)) == Ok::<
                VariableView,
                DecodeError,
            >(v@),
            Err(e) => decode_tagged(name@, content_view(content)) == Err::<
                VariableView,
                DecodeError,
            >(e),
        },
{
    proof {
        lemma_names_differ();
    }
    if same_text(name, "String") {
        match content {
            Some(Json::String(s)) => Ok(Variable::String(s.clone())),
            _ => Err(DecodeError::InvalidContent),
        }
    } else if same_text(name, "Integer") {
        match content {
            Some(Json::Number(Number::PosInt(u))) => {
                if *u <= isize::MAX as u64 {
                    Ok(Variable::Integer(*u as isize))
                } else {
                    Err(DecodeError::InvalidContent)
                }
            },
            Some(Json::Number(Number::NegInt(i))) => {
                if isize::MIN as i64 <= *i && *i <= isize::MAX as i64 {
                    Ok(Variable::Integer(*i as isize))
                } else {
                    Err(DecodeError::InvalidContent)
                }
            },
            _ => Err(DecodeError::InvalidContent),
        }
    } else if same_text(name, "Number") {
        match content {
            Some(document) => match number_of(document) {
                Some(x) => Ok(Variable::Number(x)),
                None => Err(DecodeError::InvalidContent),
            },
            None => Err(DecodeError::InvalidContent),
        }
    } else if same_text(name, "Boolean") {
        match content {
            Some(Json::Bool(b)) => Ok(Variable::Boolean(*b)),
            _ => Err(DecodeError::InvalidContent),
        }
    } else if same_text(name, "Bytes") {
        match content {
            Some(Json::Array(items)) => {
                let ghost seen = content_view(content)->Some_0->Array_0;
                proof {
                    lemma_array_view(*items);
                }
                match bytes_of_array(items) {
                    Some(bytes) => {
                        assert(bytes@ =~= Seq::new(seen.len(), |i: int| byte_of(seen[i])));
                        Ok(Variable::Bytes(bytes_from_vec(bytes)))
                    },
                    None => Err(DecodeError::InvalidContent),
                }
            },
            Some(Json::String(s)) => Ok(
                Variable::Bytes(bytes_from_vec(s.as_str().as_bytes_vec())),
            ),
            _ => Err(DecodeError::InvalidContent),
        }
    } else if same_text(name, "Null") {
        match content {
            None => Ok(Variable::Null),
            Some(Json::Null) => Ok(Variable::Null),
            _ => Err(DecodeError::InvalidContent),
        }
    } else {
        Err(DecodeError::UnknownVariant)
    }
}

impl Variable {
    /// Writes the variable as a JSON document.
    pub fn to_json(&self) -> (document: JsonValue)
        ensures
            document@ == encode(self@),
    {
        let json = match self {
            Variable::String(s) => tag("String", Json::String(s.clone())),
            Variable::Integer(i) => {
                let number = if *i >= 0 {
                    Number::PosInt(*i as u64)
                } else {
                    Number::NegInt(*i as i64)
                };
                tag("Integer", Json::Number(number))
            },
            Variable::Number(x) => {
                if x.is_finite() {
                    tag("Number", Json::Number(Number::Float(*x)))
                } else {
                    tag("Number", tag("bits", Json::Number(Number::PosInt(x.to_bits()))))
                }
            },
            Variable::Boolean(b) => tag("Boolean", Json::Bool(*b)),
            Variable::Bytes(buffer) => {
                let bytes = bytes_to_vec(buffer);
                tag("Bytes", array_of_bytes(&bytes))
            },
            Variable::Null => Json::String("Null".to_owned()),
        };
        JsonValue(json)
    }

    /// Reads a variable from a JSON document.
    pub fn from_json(document: &JsonValue) -> (r: Result<Variable, DecodeError>)
        ensures
            match r {
                Ok(v) => decode(document@) == Ok::<VariableView, DecodeError>(v@),
                Err(e) => decode(document@) == Err::<VariableView, DecodeError>(e),
            },
    {
        match &document.0 {
            Json::String(name) => from_tagged(name.as_str(), None),
            Json::Object(members) => {
                proof {
                    lemma_object_view(*members);
                }
                if members.len() == 1 {
                    from_tagged(members[0].0.as_str(), Some(&members[0].1))
                } else {
                    Err(DecodeError::NotAVariable)
                }
            },
            _ => Err(DecodeError::NotAVariable),
        }
    }
}

} // verus!
