//! The document model: a JSON-like value built by collectors and serialized
//! by the caller.
//!
//! Numbers that are conceptually fractional carry no floating point here:
//! an opaque reading taken from the OS keeps its IEEE single-precision bit
//! pattern (`FloatBits`), and a fraction computed by the library is held as a
//! scaled integer (`Hundredths`).  The serializer turns both back into JSON
//! numbers.

use vstd::prelude::*;

verus! {

/// A JSON-like document value.
#[derive(Debug, PartialEq, Eq)]
pub enum JsonValue {
    Null,
    Bool(bool),
    /// A non-negative integer.
    UInt(u64),
    /// An opaque fractional reading: the bit pattern of an IEEE
    /// single-precision number, carried through unchanged.
    FloatBits(u32),
    /// A fraction computed by the library, scaled by 100: the value `n`
    /// stands for the number `n / 100`.
    Hundredths(u64),
    Text(String),
    List(Vec<JsonValue>),
    Object(Vec<(String, JsonValue)>),
}

impl JsonValue {
    /// The empty JSON object, `{}`.
    pub fn empty_object() -> (r: JsonValue)
        ensures
            r matches JsonValue::Object(fields) && fields@.len() == 0,
    {
        JsonValue::Object(Vec::new())
    }
}

} // verus!
