//! The host runtime's dynamically-tagged value representation, as the bridge
//! sees it.
//!
//! A [`Term`] is either handed in by the host as a statement parameter or
//! handed back by the bridge as a decoded result value. Floating-point
//! values are carried as their IEEE 754 bit patterns; the host boundary
//! turns them into native floats.

use vstd::prelude::*;

verus! {

/// One dynamically-tagged host value.
#[derive(Debug, PartialEq)]
pub enum Term {
    /// The host's null marker.
    Null,
    Bool(bool),
    /// Integers of every width the engine can produce, including 128-bit
    /// ones, are carried in one unbounded-width-style variant.
    Integer(i128),
    /// Bit pattern of a 32-bit IEEE 754 value.
    Float32(u32),
    /// Bit pattern of a 64-bit IEEE 754 value.
    Float64(u64),
    Text(String),
    Blob(Vec<u8>),
    /// Microseconds since the epoch.
    Timestamp(i64),
    /// Days since the epoch.
    Date(i32),
    /// Microseconds since midnight.
    Time(i64),
    /// Total nanoseconds, with the documented thirty-day-month approximation.
    Interval(i64),
    /// A named host atom other than the null marker and the booleans.
    Atom(String),
    /// Decoded composite value: an ordered mapping from field name to value.
    Composite(Vec<TermField>),
}

/// One field of a decoded composite term.
#[derive(Debug, PartialEq)]
pub struct TermField {
    pub name: String,
    pub value: Term,
}

/// Mathematical model of a [`Term`].
pub enum TermX {
    Null,
    Bool(bool),
    Integer(int),
    Float32(u32),
    Float64(u64),
    Text(Seq<char>),
    Blob(Seq<u8>),
    Timestamp(int),
    Date(int),
    Time(int),
    Interval(int),
    Atom(Seq<char>),
    Composite(Seq<FieldTermX>),
}

/// Model of one composite field: a name paired with a nested term model.
pub struct FieldTermX {
    pub name: Seq<char>,
    pub value: TermX,
}

/// Model of a term: every scalar becomes its mathematical value and every
/// composite a sequence of named nested models.
pub open spec fn term_model(t: Term) -> TermX
    decreases t,
{
    match t {
        Term::Null => TermX::Null,
        Term::Bool(b) => TermX::Bool(b),
        Term::Integer(i) => TermX::Integer(i as int),
        Term::Float32(bits) => TermX::Float32(bits),
        Term::Float64(bits) => TermX::Float64(bits),
        Term::Text(s) => TermX::Text(s@),
        Term::Blob(b) => TermX::Blob(b@),
        Term::Timestamp(us) => TermX::Timestamp(us as int),
        Term::Date(d) => TermX::Date(d as int),
        Term::Time(us) => TermX::Time(us as int),
        Term::Interval(ns) => TermX::Interval(ns as int),
        Term::Atom(s) => TermX::Atom(s@),
        Term::Composite(fields) => {
            proof {
                assert(decreases_to!(t => fields));
                assert(decreases_to!(fields => fields@));
            }
            TermX::Composite(term_fields_model(fields@))
        },
    }
}

/// Model of a sequence of composite term fields, in order.
pub open spec fn term_fields_model(fields: Seq<TermField>) -> Seq<FieldTermX>
    decreases fields,
{
    if fields.len() == 0 {
        Seq::empty()
    } else {
        term_fields_model(fields.subrange(0, fields.len() - 1)).push(
            term_field_model(fields[fields.len() - 1]),
        )
    }
}

/// Model of one composite term field.
pub open spec fn term_field_model(f: TermField) -> FieldTermX
    decreases f,
{
    FieldTermX {
        name: f.name@,
        value: {
            proof {
                assert(decreases_to!(f => f.value));
            }
            term_model(f.value)
        },
    }
}

/// The length and the elements of [`term_fields_model`], field by field.
pub proof fn lemma_term_fields_model(fields: Seq<TermField>)
    ensures
        term_fields_model(fields).len() == fields.len(),
        forall|i: int|
            0 <= i < fields.len() ==> term_fields_model(fields)[i] == term_field_model(
                #[trigger] fields[i],
            ),
    decreases fields.len(),
{
    if fields.len() > 0 {
        let prefix = fields.subrange(0, fields.len() - 1);
        lemma_term_fields_model(prefix);
        assert forall|i: int|
            0 <= i < fields.len() implies term_fields_model(fields)[i] == term_field_model(
            #[trigger] fields[i],
        ) by {
            if i < fields.len() - 1 {
                assert(prefix[i] == fields[i]);
            }
        }
    }
}

impl View for Term {
    type V = TermX;

    open spec fn view(&self) -> TermX {
        term_model(*self)
    }
}

} // verus!
