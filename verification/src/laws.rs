//! Laws of the marshalling pair: properties that relate the value decoder
//! and the parameter encoder across calls, stated over the mathematical
//! models and proved once for all inputs.

use vstd::prelude::*;
use vstd::utf8::*;
use crate::decode::{
    field_decodes, fits_i64, interval_nanos, lemma_spec_decode_fields, micros_of, spec_decode,
    spec_decode_field, spec_decode_fields, trunc_div_1000,
};
use crate::encode::{spec_encode, BindX};
use crate::term::TermX;
use crate::value::{FieldX, TimeUnit, ValueX};

verus! {

/// Whether two engine values are of one scalar storage type, including the
/// time unit for timestamps and times-of-day.
pub open spec fn same_scalar_kind(v1: ValueX, v2: ValueX) -> bool {
    match (v1, v2) {
        (ValueX::Null, ValueX::Null) => true,
        (ValueX::Boolean(_), ValueX::Boolean(_)) => true,
        (ValueX::TinyInt(_), ValueX::TinyInt(_)) => true,
        (ValueX::SmallInt(_), ValueX::SmallInt(_)) => true,
        (ValueX::Int(_), ValueX::Int(_)) => true,
        (ValueX::BigInt(_), ValueX::BigInt(_)) => true,
        (ValueX::HugeInt(_), ValueX::HugeInt(_)) => true,
        (ValueX::UTinyInt(_), ValueX::UTinyInt(_)) => true,
        (ValueX::USmallInt(_), ValueX::USmallInt(_)) => true,
        (ValueX::UInt(_), ValueX::UInt(_)) => true,
        (ValueX::UBigInt(_), ValueX::UBigInt(_)) => true,
        (ValueX::Float32(_), ValueX::Float32(_)) => true,
        (ValueX::Float64(_), ValueX::Float64(_)) => true,
        (ValueX::Text(_), ValueX::Text(_)) => true,
        (ValueX::Blob(_), ValueX::Blob(_)) => true,
        (ValueX::Timestamp(u1, _), ValueX::Timestamp(u2, _)) => u1 == u2,
        (ValueX::Date(_), ValueX::Date(_)) => true,
        (ValueX::Time(u1, _), ValueX::Time(u2, _)) => u1 == u2,
        _ => false,
    }
}

/// Whether a scalar's decoding loses no information. Nanosecond-unit
/// temporals (truncating division) and intervals (thirty-day-month
/// collapse) are documented as lossy and excluded.
pub open spec fn lossless_scalar(v: ValueX) -> bool {
    match v {
        ValueX::Timestamp(u, _) => u != TimeUnit::Nanosecond,
        ValueX::Time(u, _) => u != TimeUnit::Nanosecond,
        ValueX::Interval { .. } => false,
        ValueX::Composite(_) => false,
        ValueX::Unsupported(_) => false,
        _ => true,
    }
}

/// Law: the tag of a decoded term identifies the source value's family.
/// A boolean never decodes to the shape of an integer, text never to the
/// shape of a blob, a timestamp never to the shape of a time-of-day, and
/// so on; all integer widths share the host's one integer shape.
pub proof fn lemma_decode_tag_faithful(v: ValueX)
    ensures
        spec_decode(v) matches Some(t) ==> {
            &&& t is Null <==> v is Null
            &&& t is Bool <==> v is Boolean
            &&& t is Integer <==> (v is TinyInt || v is SmallInt || v is Int || v is BigInt
                || v is HugeInt || v is UTinyInt || v is USmallInt || v is UInt || v is UBigInt)
            &&& t is Float32 <==> v is Float32
            &&& t is Float64 <==> v is Float64
            &&& t is Text <==> v is Text
            &&& t is Blob <==> v is Blob
            &&& t is Timestamp <==> v is Timestamp
            &&& t is Date <==> v is Date
            &&& t is Time <==> v is Time
            &&& t is Interval <==> v is Interval
            &&& t is Composite <==> v is Composite
            &&& !(t is Atom)
        },
{
}

/// Law: decode is injective on distinguishable inputs: two values of one
/// scalar storage type (same time unit where one is carried) whose
/// decoding loses no information and that decode to one and the same term
/// are themselves equal. Nanosecond-unit temporals and intervals are
/// excluded: their normalization is documented as lossy.
pub proof fn lemma_decode_injective(v1: ValueX, v2: ValueX)
    requires
        same_scalar_kind(v1, v2),
        lossless_scalar(v1),
        spec_decode(v1) is Some,
        spec_decode(v1) == spec_decode(v2),
    ensures
        v1 == v2,
{
    match (v1, v2) {
        (ValueX::Text(b1), ValueX::Text(b2)) => {
            decode_utf8_encode_utf8(b1);
            decode_utf8_encode_utf8(b2);
        },
        _ => {},
    }
}

/// The engine's faithful storage of one bind value, as the bridge reads it
/// back: text returns as its UTF-8 bytes, an integer as a signed 64-bit
/// value, a double as the same bit pattern.
pub open spec fn stored_value(b: BindX) -> ValueX {
    match b {
        BindX::Null => ValueX::Null,
        BindX::Bool(v) => ValueX::Boolean(v),
        BindX::Int(i) => ValueX::BigInt(i),
        BindX::Double(bits) => ValueX::Float64(bits),
        BindX::Text(s) => ValueX::Text(encode_utf8(s)),
    }
}

/// Law (round trip): encoding a term to a bind parameter and decoding the
/// correspondingly stored engine value yields the original term, for every
/// term the encoder accepts except a byte blob (for which see
/// [`lemma_round_trip_blob`]).
pub proof fn lemma_round_trip(t: TermX)
    requires
        spec_encode(t) is Some,
        !(t is Blob),
    ensures
        spec_encode(t) matches Some(b) && spec_decode(stored_value(b)) == Some(t),
{
    match t {
        TermX::Text(s) => {
            encode_utf8_valid_utf8(s);
            encode_utf8_decode_utf8(s);
        },
        _ => {},
    }
}

/// Law (round trip, blob): a byte blob holding valid UTF-8 binds as text
/// and is stored as exactly its own bytes, which decode back to host text
/// holding the blob's decoded characters: the same bytes at the host, whose
/// text and blob terms are both byte strings.
pub proof fn lemma_round_trip_blob(bytes: Seq<u8>)
    requires
        valid_utf8(bytes),
    ensures
        spec_encode(TermX::Blob(bytes)) == Some(BindX::Text(decode_utf8(bytes))),
        stored_value(BindX::Text(decode_utf8(bytes))) == ValueX::Text(bytes),
        spec_decode(ValueX::Text(bytes)) == Some(TermX::Text(decode_utf8(bytes))),
{
    decode_utf8_encode_utf8(bytes);
}

/// Law: an unsigned 64-bit value at most the signed 64-bit maximum decodes
/// to the equal signed value; a greater one fails decode; nothing ever
/// wraps or truncates.
pub proof fn lemma_unsigned_decode(u: int)
    ensures
        0 <= u <= i64::MAX as int ==> spec_decode(ValueX::UBigInt(u)) == Some(TermX::Integer(u)),
        u > i64::MAX as int ==> spec_decode(ValueX::UBigInt(u)) is None,
{
}

/// Law: timestamp normalization to microseconds: a second count multiplies
/// by 1,000,000, a millisecond count by 1,000, a microsecond count passes
/// through, and a nanosecond count divides by 1,000 truncating toward
/// zero; a normalized value outside the signed 64-bit range fails decode.
pub proof fn lemma_timestamp_normalization(raw: int)
    ensures
        fits_i64(raw * 1_000_000) ==> spec_decode(ValueX::Timestamp(TimeUnit::Second, raw))
            == Some(TermX::Timestamp(raw * 1_000_000)),
        fits_i64(raw * 1_000) ==> spec_decode(ValueX::Timestamp(TimeUnit::Millisecond, raw))
            == Some(TermX::Timestamp(raw * 1_000)),
        fits_i64(raw) ==> spec_decode(ValueX::Timestamp(TimeUnit::Microsecond, raw))
            == Some(TermX::Timestamp(raw)),
        fits_i64(trunc_div_1000(raw)) ==> spec_decode(ValueX::Timestamp(TimeUnit::Nanosecond, raw))
            == Some(TermX::Timestamp(trunc_div_1000(raw))),
        !fits_i64(micros_of(TimeUnit::Second, raw)) ==> spec_decode(
            ValueX::Timestamp(TimeUnit::Second, raw),
        ) is None,
        spec_decode(ValueX::Time(TimeUnit::Millisecond, raw)) == retag_as_time(
            spec_decode(ValueX::Timestamp(TimeUnit::Millisecond, raw)),
        ),
{
    lemma_time_matches_timestamp(raw, TimeUnit::Millisecond);
}

/// The time-of-day term carrying the same microsecond count as a timestamp
/// term; any other outcome passes through unchanged.
pub open spec fn retag_as_time(o: Option<TermX>) -> Option<TermX> {
    match o {
        Some(TermX::Timestamp(us)) => Some(TermX::Time(us)),
        _ => o,
    }
}

/// Law: a time-of-day value normalizes exactly as a timestamp with the
/// same unit and raw count; only the resulting tag differs.
pub proof fn lemma_time_matches_timestamp(raw: int, unit: TimeUnit)
    ensures
        spec_decode(ValueX::Time(unit, raw)) == retag_as_time(
            spec_decode(ValueX::Timestamp(unit, raw)),
        ),
{
}

/// Law: interval normalization: months, days and nanoseconds collapse to
/// one total-nanoseconds scalar with one month counted as exactly thirty
/// days; a total outside the signed 64-bit range fails decode.
pub proof fn lemma_interval_normalization(months: int, days: int, nanos: int)
    ensures
        fits_i64(interval_nanos(months, days, nanos)) ==> spec_decode(
            ValueX::Interval { months, days, nanos },
        ) == Some(
            TermX::Interval(
                months * 2_592_000_000_000_000 + days * 86_400_000_000_000 + nanos,
            ),
        ),
        !fits_i64(interval_nanos(months, days, nanos)) ==> spec_decode(
            ValueX::Interval { months, days, nanos },
        ) is None,
{
}

/// Law: composite decode policy: when every populated field decodes, the
/// composite decodes to the ordered field-by-field mapping, in which a
/// field that is null at the row and a field of an unmapped storage type
/// both become the null marker, without failing the row.
pub proof fn lemma_composite_policy(fields: Seq<FieldX>)
    requires
        forall|i: int| 0 <= i < fields.len() ==> field_decodes(#[trigger] fields[i]),
    ensures
        spec_decode(ValueX::Composite(fields)) == Some(
            TermX::Composite(spec_decode_fields(fields)),
        ),
        spec_decode_fields(fields).len() == fields.len(),
        forall|i: int|
            0 <= i < fields.len() ==> spec_decode_fields(fields)[i] == spec_decode_field(
                #[trigger] fields[i],
            ),
        forall|i: int|
            0 <= i < fields.len() && !((#[trigger] fields[i]).value is Present) ==> spec_decode_field(
                fields[i],
            ).value == TermX::Null,
        forall|i: int|
            0 <= i < fields.len() ==> (#[trigger] spec_decode_field(fields[i])).name
                == fields[i].name,
{
    lemma_spec_decode_fields(fields);
}

} // verus!
