//! JSON-compatible values: what a decoded cell becomes and what a record
//! holds for each column.

use vstd::prelude::*;
use crate::names::NameMap;

verus! {

/// A JSON number: an integer that is not negative, a negative integer,
/// or a finite 64-bit float carried by its IEEE 754 bit pattern.
#[derive(Clone, Copy, Debug, PartialEq, Eq, Structural)]
pub enum JsonNumber {
    /// An integer at or above zero.
    PosInt(u64),
    /// An integer below zero.
    NegInt(i64),
    /// A finite float, as the 64 bits of its binary representation.
    Float(u64),
}

/// Whether a 64-bit pattern is that of a finite float: its eleven
/// exponent bits are not all set.
pub open spec fn finite_bits(bits: u64) -> bool {
    (bits >> 52) & 0x7ff != 0x7ff
}

/// The number that stands for a signed integer.
pub open spec fn number_of_int(i: i64) -> JsonNumber {
    if i < 0 {
        JsonNumber::NegInt(i)
    } else {
        JsonNumber::PosInt(i as u64)
    }
}

impl JsonNumber {
    /// A negative integer is below zero and a float is finite.
    pub open spec fn wf(self) -> bool {
        match self {
            JsonNumber::PosInt(_) => true,
            JsonNumber::NegInt(i) => i < 0,
            JsonNumber::Float(bits) => finite_bits(bits),
        }
    }

    /// The number as a signed 64-bit integer, where it is an integer in
    /// that range.
    pub open spec fn spec_as_i64(self) -> Option<i64> {
        match self {
            JsonNumber::PosInt(u) => if u <= i64::MAX as u64 {
                Some(u as i64)
            } else {
                None
            },
            JsonNumber::NegInt(i) => Some(i),
            JsonNumber::Float(_) => None,
        }
    }

    /// The number that stands for a signed integer.
    pub fn from_i64(i: i64) -> (n: JsonNumber)
        ensures
            n == number_of_int(i),
            n.wf(),
            n.spec_as_i64() == Some(i),
    {
        if i < 0 {
            JsonNumber::NegInt(i)
        } else {
            JsonNumber::PosInt(i as u64)
        }
    }

    /// The number with the given float bit pattern; none for an infinity
    /// or a NaN, which JSON cannot write.
    pub fn from_float_bits(bits: u64) -> (n: Option<JsonNumber>)
        ensures
            n == if finite_bits(bits) {
                Some(JsonNumber::Float(bits))
            } else {
                None
            },
            n matches Some(x) ==> x.wf(),
    {
        if (bits >> 52) & 0x7ff != 0x7ff {
            Some(JsonNumber::Float(bits))
        } else {
            None
        }
    }

    /// The number as a signed 64-bit integer, where it is an integer in
    /// that range.
    #[verifier::when_used_as_spec(spec_as_i64)]
    pub fn as_i64(self) -> (r: Option<i64>)
        ensures
            r == self.spec_as_i64(),
    {
        match self {
            JsonNumber::PosInt(u) => if u <= i64::MAX as u64 {
                Some(u as i64)
            } else {
                None
            },
            JsonNumber::NegInt(i) => Some(i),
            JsonNumber::Float(_) => None,
        }
    }
}

/// A JSON-compatible value.
#[derive(Clone, Debug, PartialEq, Eq)]
pub enum JsonValue {
    /// JSON null.
    Null,
    /// A boolean.
    Bool(bool),
    /// A number.
    Number(JsonNumber),
    /// A string.
    String(String),
    /// An array or an object, carried as its JSON text.
    Composite(String),
}

/// The mathematical form of a [`JsonValue`].
pub enum JsonModel {
    Null,
    Bool(bool),
    Number(JsonNumber),
    String(Seq<char>),
    Composite(Seq<char>),
}

impl View for JsonValue {
    type V = JsonModel;

    open spec fn view(&self) -> JsonModel {
        match self {
            JsonValue::Null => JsonModel::Null,
            JsonValue::Bool(b) => JsonModel::Bool(*b),
            JsonValue::Number(n) => JsonModel::Number(*n),
            JsonValue::String(s) => JsonModel::String(s@),
            JsonValue::Composite(json) => JsonModel::Composite(json@),
        }
    }
}

/// One row for an insert or an update: a value for each column to set.
pub type Record = NameMap<JsonValue>;

/// One fetched row: a value under each column name or join alias.
pub type DecodedRow = NameMap<JsonValue>;

} // verus!
