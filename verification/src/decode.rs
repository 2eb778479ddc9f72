//! Value decoder: converts one engine-native value into one host tagged
//! term, recursively for composite values.
//!
//! The numeric rules here are the bridge's only non-obvious semantics and
//! are stated exactly by [`spec_decode`]:
//! - unsigned 64-bit values are range-checked against the signed 64-bit
//!   maximum and never truncated or wrapped;
//! - timestamps and times-of-day are normalized to microseconds
//!   (seconds and milliseconds multiply, nanoseconds divide truncating
//!   toward zero), with an out-of-range result a hard decode failure;
//! - intervals collapse to total nanoseconds under the deliberate
//!   thirty-day-month approximation;
//! - text is decoded strictly as UTF-8, never lossily;
//! - a composite field that is null, or whose storage type has no mapping,
//!   becomes the null marker, while any other failure inside a composite
//!   fails the whole value;
//! - a top-level value of an unmapped storage type is a hard failure.

use vstd::prelude::*;
use vstd::string::StringSliceAdditionalSpecFns;
use vstd::utf8::*;
use crate::term::{FieldTermX, Term, TermField, TermX};
use crate::value::{EngineValue, FieldVX, FieldValue, FieldX, StructField, TimeUnit, ValueX};

verus! {

/// Nanoseconds in one day.
pub const NANOS_PER_DAY: i64 = 86_400_000_000_000;

/// Nanoseconds in one month under the thirty-day-month approximation.
pub const NANOS_PER_MONTH: i64 = 2_592_000_000_000_000;

/// Division by 1000 truncating toward zero, as the engine's native integer
/// division behaves.
pub open spec fn trunc_div_1000(v: int) -> int {
    if v >= 0 {
        v / 1000
    } else {
        -((-v) / 1000)
    }
}

/// Microseconds denoted by a raw count in the given unit: seconds and
/// milliseconds are multiplied up, microseconds pass through, nanoseconds
/// are divided truncating toward zero (sub-microsecond precision is lost by
/// design).
pub open spec fn micros_of(unit: TimeUnit, raw: int) -> int {
    match unit {
        TimeUnit::Second => raw * 1_000_000,
        TimeUnit::Millisecond => raw * 1_000,
        TimeUnit::Microsecond => raw,
        TimeUnit::Nanosecond => trunc_div_1000(raw),
    }
}

/// Total nanoseconds of an interval, with one month counted as exactly
/// thirty days. This is a deliberate, lossy simplification; callers needing
/// calendar-exact interval arithmetic must not rely on it.
pub open spec fn interval_nanos(months: int, days: int, nanos: int) -> int {
    months * (NANOS_PER_MONTH as int) + days * (NANOS_PER_DAY as int) + nanos
}

/// Whether a mathematical integer fits the signed 64-bit range.
pub open spec fn fits_i64(x: int) -> bool {
    i64::MIN <= x <= i64::MAX
}

/// Whether one composite field decodes (a null or unmapped field always
/// does: it falls back to the null marker).
pub open spec fn field_decodes(f: FieldX) -> bool
    decreases f,
{
    match f.value {
        FieldVX::Null => true,
        FieldVX::Present(v) => {
            proof {
                assert(decreases_to!(f => f.value));
            }
            spec_decode(v) is Some
        },
        FieldVX::Unknown => true,
    }
}

/// The term one composite field decodes to, assuming it decodes: a null
/// field and a field of an unmapped storage type become the null marker;
/// a populated field decodes like a top-level value.
pub open spec fn spec_decode_field(f: FieldX) -> FieldTermX
    decreases f,
{
    FieldTermX {
        name: f.name,
        value: match f.value {
            FieldVX::Null => TermX::Null,
            FieldVX::Present(v) => {
                proof {
                    assert(decreases_to!(f => f.value));
                }
                match spec_decode(v) {
                    Some(t) => t,
                    None => TermX::Null,
                }
            },
            FieldVX::Unknown => TermX::Null,
        },
    }
}

/// The decoded fields of a composite value, in order, assuming every
/// populated field decodes.
pub open spec fn spec_decode_fields(fields: Seq<FieldX>) -> Seq<FieldTermX>
    decreases fields,
{
    if fields.len() == 0 {
        Seq::empty()
    } else {
        spec_decode_fields(fields.subrange(0, fields.len() - 1)).push(
            spec_decode_field(fields[fields.len() - 1]),
        )
    }
}

/// The length and the elements of [`spec_decode_fields`], field by field.
pub proof fn lemma_spec_decode_fields(fields: Seq<FieldX>)
    ensures
        spec_decode_fields(fields).len() == fields.len(),
        forall|i: int|
            0 <= i < fields.len() ==> spec_decode_fields(fields)[i] == spec_decode_field(
                #[trigger] fields[i],
            ),
    decreases fields.len(),
{
    if fields.len() > 0 {
        let prefix = fields.subrange(0, fields.len() - 1);
        lemma_spec_decode_fields(prefix);
        assert forall|i: int|
            0 <= i < fields.len() implies spec_decode_fields(fields)[i] == spec_decode_field(
            #[trigger] fields[i],
        ) by {
            if i < fields.len() - 1 {
                assert(prefix[i] == fields[i]);
            }
        }
    }
}

/// What one engine value decodes to: `Some` of the host term, or `None`
/// where decoding must fail.
pub open spec fn spec_decode(v: ValueX) -> Option<TermX>
    decreases v,
{
    match v {
        ValueX::Null => Some(TermX::Null),
        ValueX::Boolean(b) => Some(TermX::Bool(b)),
        ValueX::TinyInt(i) => Some(TermX::Integer(i)),
        ValueX::SmallInt(i) => Some(TermX::Integer(i)),
        ValueX::Int(i) => Some(TermX::Integer(i)),
        ValueX::BigInt(i) => Some(TermX::Integer(i)),
        ValueX::HugeInt(i) => Some(TermX::Integer(i)),
        ValueX::UTinyInt(i) => Some(TermX::Integer(i)),
        ValueX::USmallInt(i) => Some(TermX::Integer(i)),
        ValueX::UInt(i) => Some(TermX::Integer(i)),
        ValueX::UBigInt(i) => if i <= i64::MAX as int {
            Some(TermX::Integer(i))
        } else {
            None
        },
        ValueX::Float32(bits) => Some(TermX::Float32(bits)),
        ValueX::Float64(bits) => Some(TermX::Float64(bits)),
        ValueX::Text(bytes) => if valid_utf8(bytes) {
            Some(TermX::Text(decode_utf8(bytes)))
        } else {
            None
        },
        ValueX::Blob(bytes) => Some(TermX::Blob(bytes)),
        ValueX::Timestamp(unit, raw) => if fits_i64(micros_of(unit, raw)) {
            Some(TermX::Timestamp(micros_of(unit, raw)))
        } else {
            None
        },
        ValueX::Date(d) => Some(TermX::Date(d)),
        ValueX::Time(unit, raw) => if fits_i64(micros_of(unit, raw)) {
            Some(TermX::Time(micros_of(unit, raw)))
        } else {
            None
        },
        ValueX::Interval { months, days, nanos } => if fits_i64(
            interval_nanos(months, days, nanos),
        ) {
            Some(TermX::Interval(interval_nanos(months, days, nanos)))
        } else {
            None
        },
        ValueX::Composite(fields) => if forall|i: int|
            0 <= i < fields.len() ==> field_decodes(#[trigger] fields[i]) {
            Some(TermX::Composite(spec_decode_fields(fields)))
        } else {
            None
        },
        ValueX::Unsupported(_) => None,
    }
}

/// A failure to decode one engine value, carrying a human-readable message.
#[derive(Clone, Debug, PartialEq)]
pub struct DecodeError {
    pub message: String,
}

/// The report for an unsigned value that exceeds the signed 64-bit range,
/// naming the offending value and the limit.
pub open spec fn overflow_text(value: nat) -> Seq<char> {
    "Integer overflow: UBigInt value "@ + crate::digits::dec_chars(value)
        + " exceeds i64::MAX ("@ + crate::digits::dec_chars(9223372036854775807nat) + ")"@
}

/// Renders the overflow report.
fn overflow_message(value: u64) -> (r: String)
    ensures
        r@ == overflow_text(value as nat),
        r@.len() > 0,
{
    proof {
        reveal_strlit("Integer overflow: UBigInt value ");
    }
    let value_text: String = crate::digits::u64_to_decimal(value);
    let limit_text: String = crate::digits::u64_to_decimal(9223372036854775807u64);
    let head: String = "Integer overflow: UBigInt value ".to_owned();
    let with_value: String = head.concat(value_text.as_str());
    let with_mid: String = with_value.concat(" exceeds i64::MAX (");
    let with_limit: String = with_mid.concat(limit_text.as_str());
    with_limit.concat(")")
}

/// Relies on `std::str::from_utf8`: it returns `Ok` exactly on valid UTF-8
/// and the resulting string slice views the same bytes.
#[verifier::external_body]
fn try_str_from_utf8(bytes: &[u8]) -> (r: Option<&str>)
    ensures
        r matches Some(s) ==> valid_utf8(bytes@) && s.spec_bytes() == bytes@,
        r is None ==> !valid_utf8(bytes@),
{
    std::str::from_utf8(bytes).ok()
}

/// Checks bytes strictly as UTF-8 and returns the owned text on success.
pub fn try_utf8_text(bytes: &[u8]) -> (r: Option<String>)
    ensures
        r matches Some(s) ==> valid_utf8(bytes@) && s@ == decode_utf8(bytes@),
        r is None <==> !valid_utf8(bytes@),
{
    match try_str_from_utf8(bytes) {
        Some(s) => {
            proof {
                encode_utf8_decode_utf8(s@);
            }
            Some(s.to_owned())
        },
        None => None,
    }
}

/// Normalizes a temporal raw count to microseconds; `None` means the
/// normalized value does not fit the signed 64-bit range.
pub fn normalize_to_micros(unit: TimeUnit, raw: i64) -> (r: Option<i64>)
    ensures
        r matches Some(us) ==> fits_i64(micros_of(unit, raw as int)) && us == micros_of(
            unit,
            raw as int,
        ),
        r is None ==> !fits_i64(micros_of(unit, raw as int)),
{
    match unit {
        TimeUnit::Second => raw.checked_mul(1_000_000),
        TimeUnit::Millisecond => raw.checked_mul(1_000),
        TimeUnit::Microsecond => Some(raw),
        TimeUnit::Nanosecond => {
            match raw.checked_div(1000) {
                Some(q) => Some(q),
                None => None,
            }
        },
    }
}

/// Combines an interval into total nanoseconds under the thirty-day-month
/// approximation; `None` means the total does not fit the signed 64-bit
/// range.
pub fn interval_total_nanos(months: i32, days: i32, nanos: i64) -> (r: Option<i64>)
    ensures
        r matches Some(t) ==> fits_i64(interval_nanos(months as int, days as int, nanos as int))
            && t == interval_nanos(months as int, days as int, nanos as int),
        r is None ==> !fits_i64(interval_nanos(months as int, days as int, nanos as int)),
{
    proof {
        let m: int = months as int;
        let d: int = days as int;
        assert((-0x80000000) * 2_592_000_000_000_000 <= m * 2_592_000_000_000_000 <= 0x80000000
            * 2_592_000_000_000_000) by (nonlinear_arith)
            requires
                -0x80000000 <= m <= 0x80000000,
        ;
        assert((-0x80000000) * 86_400_000_000_000 <= d * 86_400_000_000_000 <= 0x80000000
            * 86_400_000_000_000) by (nonlinear_arith)
            requires
                -0x80000000 <= d <= 0x80000000,
        ;
    }
    let month_part: i128 = (months as i128) * (NANOS_PER_MONTH as i128);
    let day_part: i128 = (days as i128) * (NANOS_PER_DAY as i128);
    let total: i128 = month_part + day_part + (nanos as i128);
    if total >= i64::MIN as i128 && total <= i64::MAX as i128 {
        Some(total as i64)
    } else {
        None
    }
}

/// Decodes one engine value into one host term, exactly as [`spec_decode`]
/// states; a `None` of the specification is reported as an error with a
/// non-empty message.
pub fn decode(v: &EngineValue) -> (r: Result<Term, DecodeError>)
    ensures
        spec_decode(v@) matches Some(t) ==> (r matches Ok(out) && out@ == t),
        spec_decode(v@) is None <==> r is Err,
        r matches Err(e) ==> e.message@.len() > 0,
        v@ matches ValueX::UBigInt(u) ==> (u > i64::MAX as int ==> (r matches Err(e)
            && e.message@ == overflow_text(u as nat))),
        (v@ matches ValueX::Text(b) && !valid_utf8(b)) ==> (r matches Err(e) && e.message@
            == "Invalid UTF-8"@),
        v@ matches ValueX::Unsupported(name) ==> (r matches Err(e) && e.message@
            == "Unsupported value type: "@ + name),
    decreases *v,
{
    match v {
        EngineValue::Null => Ok(Term::Null),
        EngineValue::Boolean(b) => Ok(Term::Bool(*b)),
        EngineValue::TinyInt(i) => Ok(Term::Integer(*i as i128)),
        EngineValue::SmallInt(i) => Ok(Term::Integer(*i as i128)),
        EngineValue::Int(i) => Ok(Term::Integer(*i as i128)),
        EngineValue::BigInt(i) => Ok(Term::Integer(*i as i128)),
        EngineValue::HugeInt(i) => Ok(Term::Integer(*i)),
        EngineValue::UTinyInt(i) => Ok(Term::Integer(*i as i128)),
        EngineValue::USmallInt(i) => Ok(Term::Integer(*i as i128)),
        EngineValue::UInt(i) => Ok(Term::Integer(*i as i128)),
        EngineValue::UBigInt(u) => {
            if *u <= i64::MAX as u64 {
                Ok(Term::Integer(*u as i128))
            } else {
                Err(DecodeError { message: overflow_message(*u) })
            }
        },
        EngineValue::Float32(bits) => Ok(Term::Float32(*bits)),
        EngineValue::Float64(bits) => Ok(Term::Float64(*bits)),
        EngineValue::Text(bytes) => {
            match try_utf8_text(bytes.as_slice()) {
                Some(s) => Ok(Term::Text(s)),
                None => {
                    proof {
                        reveal_strlit("Invalid UTF-8");
                    }
                    Err(DecodeError { message: "Invalid UTF-8".to_owned() })
                },
            }
        },
        EngineValue::Blob(bytes) => Ok(Term::Blob(vstd::slice::slice_to_vec(bytes.as_slice()))),
        EngineValue::Timestamp(unit, raw) => {
            match normalize_to_micros(*unit, *raw) {
                Some(us) => Ok(Term::Timestamp(us)),
                None => {
                    proof {
                        reveal_strlit("Temporal value out of range");
                    }
                    Err(DecodeError { message: "Temporal value out of range".to_owned() })
                },
            }
        },
        EngineValue::Date(d) => Ok(Term::Date(*d)),
        EngineValue::Time(unit, raw) => {
            match normalize_to_micros(*unit, *raw) {
                Some(us) => Ok(Term::Time(us)),
                None => {
                    proof {
                        reveal_strlit("Temporal value out of range");
                    }
                    Err(DecodeError { message: "Temporal value out of range".to_owned() })
                },
            }
        },
        EngineValue::Interval { months, days, nanos } => {
            match interval_total_nanos(*months, *days, *nanos) {
                Some(total) => Ok(Term::Interval(total)),
                None => {
                    proof {
                        reveal_strlit("Interval value out of range");
                    }
                    Err(DecodeError { message: "Interval value out of range".to_owned() })
                },
            }
        },
        EngineValue::Composite(fields) => decode_composite(fields),
        EngineValue::Unsupported(name) => {
            proof {
                reveal_strlit("Unsupported value type: ");
            }
            let prefix: String = "Unsupported value type: ".to_owned();
            Err(DecodeError { message: prefix.concat(name.as_str()) })
        },
    }
}

/// Decodes the fields of a composite value in order: null and unmapped
/// fields become the null marker; the first genuine failure of a populated
/// field fails the whole composite.
fn decode_composite(fields: &Vec<StructField>) -> (r: Result<Term, DecodeError>)
    ensures
        spec_decode(ValueX::Composite(crate::value::fields_model(fields@))) matches Some(t)
            ==> (r matches Ok(out) && out@ == t),
        spec_decode(ValueX::Composite(crate::value::fields_model(fields@))) is None <==> r is Err,
        r matches Err(e) ==> e.message@.len() > 0,
    decreases fields@,
{
    let ghost fx: Seq<FieldX> = crate::value::fields_model(fields@);
    proof {
        crate::value::lemma_fields_model(fields@);
    }
    let mut out: Vec<TermField> = Vec::new();
    let mut idx: usize = 0;
    while idx < fields.len()
        invariant
            idx <= fields.len(),
            fx == crate::value::fields_model(fields@),
            fx.len() == fields@.len(),
            forall|j: int|
                0 <= j < fields@.len() ==> fx[j] == crate::value::field_model(
                    #[trigger] fields@[j],
                ),
            out@.len() == idx,
            forall|j: int| 0 <= j < idx ==> field_decodes(#[trigger] fx[j]),
            forall|j: int|
                0 <= j < idx ==> (#[trigger] out@[j]).name@ == fx[j].name && crate::term::term_model(
                    out@[j].value,
                ) == spec_decode_field(fx[j]).value,
        decreases fields@.len() - idx,
    {
        let f = &fields[idx];
        match &f.value {
            FieldValue::Null => {
                out.push(TermField { name: f.name.clone(), value: Term::Null });
            },
            FieldValue::Unknown => {
                out.push(TermField { name: f.name.clone(), value: Term::Null });
            },
            FieldValue::Present(inner) => {
                match decode(inner) {
                    Ok(t) => {
                        out.push(TermField { name: f.name.clone(), value: t });
                    },
                    Err(e) => {
                        return Err(e);
                    },
                }
            },
        }
        idx = idx + 1;
    }
    proof {
        crate::term::lemma_term_fields_model(out@);
        lemma_spec_decode_fields(fx);
        let lhs = crate::term::term_fields_model(out@);
        let rhs = spec_decode_fields(fx);
        assert forall|i: int| 0 <= i < fx.len() implies lhs[i] == rhs[i] by {
            assert(lhs[i] == crate::term::term_field_model(out@[i]));
            assert(rhs[i] == spec_decode_field(fx[i]));
        }
        assert(lhs =~= rhs);
    }
    Ok(Term::Composite(out))
}

} // verus!
