//! Parameter encoder: converts one host tagged term into one engine-native
//! bind value.
//!
//! Candidate types are probed in a fixed, documented order and the first
//! successful match wins: the null marker, then boolean, then 64-bit signed
//! integer, then 64-bit float, then UTF-8 text. A term matching none of the
//! candidates is rejected with a descriptive error; nothing is guessed or
//! coerced.

use vstd::prelude::*;
use vstd::utf8::*;
use crate::error::UnsupportedParameterError;
use crate::term::{Term, TermX};

verus! {

/// An engine-native bind value produced from exactly one host term.
#[derive(Clone, Debug, PartialEq)]
pub enum BindValue {
    Null,
    Bool(bool),
    Int(i64),
    /// Bit pattern of a 64-bit IEEE 754 value.
    Double(u64),
    Text(String),
}

/// Mathematical model of a [`BindValue`].
pub enum BindX {
    Null,
    Bool(bool),
    Int(int),
    Double(u64),
    Text(Seq<char>),
}

/// Model of a bind value.
pub open spec fn bind_model(b: BindValue) -> BindX {
    match b {
        BindValue::Null => BindX::Null,
        BindValue::Bool(v) => BindX::Bool(v),
        BindValue::Int(v) => BindX::Int(v as int),
        BindValue::Double(bits) => BindX::Double(bits),
        BindValue::Text(s) => BindX::Text(s@),
    }
}

impl View for BindValue {
    type V = BindX;

    open spec fn view(&self) -> BindX {
        bind_model(*self)
    }
}

/// What one host term encodes to, following the fixed probe order: the
/// null marker, boolean, signed 64-bit integer, 64-bit float, UTF-8 text.
/// A byte blob that is valid UTF-8 is host text and binds as text; every
/// other shape matches no candidate and is rejected.
pub open spec fn spec_encode(t: TermX) -> Option<BindX> {
    match t {
        TermX::Null => Some(BindX::Null),
        TermX::Bool(b) => Some(BindX::Bool(b)),
        TermX::Integer(i) => if i64::MIN <= i <= i64::MAX {
            Some(BindX::Int(i))
        } else {
            None
        },
        TermX::Float64(bits) => Some(BindX::Double(bits)),
        TermX::Text(s) => Some(BindX::Text(s)),
        TermX::Blob(bytes) => if valid_utf8(bytes) {
            Some(BindX::Text(decode_utf8(bytes)))
        } else {
            None
        },
        _ => None,
    }
}

/// Encodes one host term as a bind value, exactly as [`spec_encode`]
/// states; a term matching no candidate is rejected with the fixed
/// descriptive message.
pub fn encode(t: &Term) -> (r: Result<BindValue, UnsupportedParameterError>)
    ensures
        spec_encode(t@) matches Some(b) ==> (r matches Ok(out) && out@ == b),
        spec_encode(t@) is None <==> r is Err,
        r matches Err(e) ==> e.message@ == unsupported_parameter_message(),
{
    match t {
        Term::Null => Ok(BindValue::Null),
        Term::Bool(b) => Ok(BindValue::Bool(*b)),
        Term::Integer(i) => {
            if *i >= i64::MIN as i128 && *i <= i64::MAX as i128 {
                Ok(BindValue::Int(*i as i64))
            } else {
                Err(unsupported_parameter_error())
            }
        },
        Term::Float64(bits) => Ok(BindValue::Double(*bits)),
        Term::Text(s) => Ok(BindValue::Text(s.clone())),
        Term::Blob(bytes) => {
            match crate::decode::try_utf8_text(bytes.as_slice()) {
                Some(s) => Ok(BindValue::Text(s)),
                None => Err(unsupported_parameter_error()),
            }
        },
        _ => Err(unsupported_parameter_error()),
    }
}

/// The fixed message reported for a term that no candidate type matches.
pub open spec fn unsupported_parameter_message() -> Seq<char> {
    "Unsupported parameter type: cannot convert term to DuckDB parameter"@
}

/// Builds the encoder's fixed rejection error.
fn unsupported_parameter_error() -> (r: UnsupportedParameterError)
    ensures
        r.message@ == unsupported_parameter_message(),
{
    UnsupportedParameterError {
        message: "Unsupported parameter type: cannot convert term to DuckDB parameter".to_owned(),
    }
}

} // verus!
