//! The bridge's closed tagged-union representation of one engine value,
//! ready for decoding into a host term.
//!
//! Engine values are read out of the engine's typed column handles at the
//! trusted boundary and materialized here as plain data, so that the whole
//! decoding logic can be verified. Floating-point values are carried as
//! their IEEE 754 bit patterns; decoding never computes on them.

use vstd::prelude::*;

verus! {

/// Time unit attached by the engine to timestamp and time-of-day values.
#[derive(Clone, Copy, PartialEq, Eq, Structural, Debug)]
pub enum TimeUnit {
    Second,
    Millisecond,
    Microsecond,
    Nanosecond,
}

/// One engine-native column value.
#[derive(Debug, PartialEq)]
pub enum EngineValue {
    Null,
    Boolean(bool),
    TinyInt(i8),
    SmallInt(i16),
    Int(i32),
    BigInt(i64),
    HugeInt(i128),
    UTinyInt(u8),
    USmallInt(u16),
    UInt(u32),
    UBigInt(u64),
    /// Bit pattern of a 32-bit IEEE 754 value.
    Float32(u32),
    /// Bit pattern of a 64-bit IEEE 754 value.
    Float64(u64),
    /// Raw bytes that the engine declares to be text; decoding checks them
    /// strictly as UTF-8.
    Text(Vec<u8>),
    Blob(Vec<u8>),
    /// Raw count in the given unit.
    Timestamp(TimeUnit, i64),
    /// Days since the epoch.
    Date(i32),
    /// Raw count in the given unit.
    Time(TimeUnit, i64),
    Interval { months: i32, days: i32, nanos: i64 },
    /// Composite value: ordered fields, each either null at this row,
    /// populated, or of a storage type the bridge has no mapping for.
    Composite(Vec<StructField>),
    /// A top-level storage type with no mapping, identified by name.
    Unsupported(String),
}

/// One field of a composite engine value.
#[derive(Debug, PartialEq)]
pub struct StructField {
    pub name: String,
    pub value: FieldValue,
}

/// State of one composite field at the row being decoded.
#[derive(Debug, PartialEq)]
pub enum FieldValue {
    /// The field is null at this row.
    Null,
    /// The field is populated with a value of a mapped storage type.
    Present(EngineValue),
    /// The field's storage type has no mapping; decoding falls back to the
    /// null marker rather than failing the row.
    Unknown,
}

/// Mathematical model of an [`EngineValue`].
pub enum ValueX {
    Null,
    Boolean(bool),
    TinyInt(int),
    SmallInt(int),
    Int(int),
    BigInt(int),
    HugeInt(int),
    UTinyInt(int),
    USmallInt(int),
    UInt(int),
    UBigInt(int),
    Float32(u32),
    Float64(u64),
    Text(Seq<u8>),
    Blob(Seq<u8>),
    Timestamp(TimeUnit, int),
    Date(int),
    Time(TimeUnit, int),
    Interval { months: int, days: int, nanos: int },
    Composite(Seq<FieldX>),
    Unsupported(Seq<char>),
}

/// Model of one composite field.
pub struct FieldX {
    pub name: Seq<char>,
    pub value: FieldVX,
}

/// Model of the state of one composite field.
pub enum FieldVX {
    Null,
    Present(ValueX),
    Unknown,
}

/// Model of an engine value: scalars become their mathematical values,
/// composites a sequence of named field models.
pub open spec fn value_model(v: EngineValue) -> ValueX
    decreases v,
{
    match v {
        EngineValue::Null => ValueX::Null,
        EngineValue::Boolean(b) => ValueX::Boolean(b),
        EngineValue::TinyInt(i) => ValueX::TinyInt(i as int),
        EngineValue::SmallInt(i) => ValueX::SmallInt(i as int),
        EngineValue::Int(i) => ValueX::Int(i as int),
        EngineValue::BigInt(i) => ValueX::BigInt(i as int),
        EngineValue::HugeInt(i) => ValueX::HugeInt(i as int),
        EngineValue::UTinyInt(i) => ValueX::UTinyInt(i as int),
        EngineValue::USmallInt(i) => ValueX::USmallInt(i as int),
        EngineValue::UInt(i) => ValueX::UInt(i as int),
        EngineValue::UBigInt(i) => ValueX::UBigInt(i as int),
        EngineValue::Float32(bits) => ValueX::Float32(bits),
        EngineValue::Float64(bits) => ValueX::Float64(bits),
        EngineValue::Text(b) => ValueX::Text(b@),
        EngineValue::Blob(b) => ValueX::Blob(b@),
        EngineValue::Timestamp(u, raw) => ValueX::Timestamp(u, raw as int),
        EngineValue::Date(d) => ValueX::Date(d as int),
        EngineValue::Time(u, raw) => ValueX::Time(u, raw as int),
        EngineValue::Interval { months, days, nanos } => ValueX::Interval {
            months: months as int,
            days: days as int,
            nanos: nanos as int,
        },
        EngineValue::Composite(fields) => {
            proof {
                assert(decreases_to!(v => fields));
                assert(decreases_to!(fields => fields@));
            }
            ValueX::Composite(fields_model(fields@))
        },
        EngineValue::Unsupported(name) => ValueX::Unsupported(name@),
    }
}

/// Model of a sequence of composite fields, in order.
pub open spec fn fields_model(fields: Seq<StructField>) -> Seq<FieldX>
    decreases fields,
{
    if fields.len() == 0 {
        Seq::empty()
    } else {
        fields_model(fields.subrange(0, fields.len() - 1)).push(
            field_model(fields[fields.len() - 1]),
        )
    }
}

/// The length and the elements of [`fields_model`], field by field.
pub proof fn lemma_fields_model(fields: Seq<StructField>)
    ensures
        fields_model(fields).len() == fields.len(),
        forall|i: int|
            0 <= i < fields.len() ==> fields_model(fields)[i] == field_model(
                #[trigger] fields[i],
            ),
    decreases fields.len(),
{
    if fields.len() > 0 {
        let prefix = fields.subrange(0, fields.len() - 1);
        lemma_fields_model(prefix);
        assert forall|i: int|
            0 <= i < fields.len() implies fields_model(fields)[i] == field_model(
            #[trigger] fields[i],
        ) by {
            if i < fields.len() - 1 {
                assert(prefix[i] == fields[i]);
            }
        }
    }
}

/// Model of one composite field of an engine value.
pub open spec fn field_model(f: StructField) -> FieldX
    decreases f,
{
    FieldX {
        name: f.name@,
        value: match f.value {
            FieldValue::Null => FieldVX::Null,
            FieldValue::Present(v) => {
                proof {
                    assert(decreases_to!(f => f.value));
                }
                FieldVX::Present(value_model(v))
            },
            FieldValue::Unknown => FieldVX::Unknown,
        },
    }
}

impl View for EngineValue {
    type V = ValueX;

    open spec fn view(&self) -> ValueX {
        value_model(*self)
    }
}

} // verus!
