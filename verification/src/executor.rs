//! Statement executor decisions.
//!
//! The engine itself is an external collaborator: the host shell acquires
//! the connection's lock, prepares the SQL and runs it, then hands every
//! engine answer to the functions here as plain data. Each decision of the
//! execution policy is made by a verified function with an exact contract:
//! - every bind term is encoded in order and the first unencodable term
//!   aborts with the encoder's error (no partial binding);
//! - a query-probe rejection is expected control flow and falls back to the
//!   engine's no-result execution path, which returns empty columns and
//!   empty rows on success;
//! - every produced value is decoded with row and column order preserved,
//!   and any decoding failure is reported as the one fixed
//!   "Failed to convert value" database error;
//! - a poisoned lock is reported loudly as a database error, for execution
//!   and for close alike, never silently ignored.

use vstd::prelude::*;
use crate::decode::{decode, spec_decode};
use crate::encode::{encode, spec_encode, unsupported_parameter_message, BindValue};
use crate::error::DuckyError;
use crate::term::Term;
use crate::value::EngineValue;

verus! {

/// How a connection target is opened: the ":memory:" sentinel means a fresh
/// private in-memory instance; any other text is a database path, created
/// if absent per engine semantics.
#[derive(Clone, Debug, PartialEq)]
pub enum OpenTarget {
    InMemory,
    AtPath(String),
}

/// Classifies a connection target by the ":memory:" sentinel.
pub fn classify_target(path: String) -> (r: OpenTarget)
    ensures
        path@ == ":memory:"@ <==> r is InMemory,
        r matches OpenTarget::AtPath(p) ==> p@ == path@,
{
    let sentinel: String = ":memory:".to_owned();
    if path.eq(&sentinel) {
        OpenTarget::InMemory
    } else {
        OpenTarget::AtPath(path)
    }
}

/// Wraps an engine-level open failure: reported as `ConnectionFailed` with
/// the engine's message preserved verbatim.
pub fn connection_failure(message: String) -> (e: DuckyError)
    ensures
        e matches DuckyError::ConnectionFailed(m) && m@ == message@,
{
    DuckyError::ConnectionFailed(message)
}

/// Wraps an engine-level prepare or execution failure: reported as
/// `DatabaseError` with the engine's message preserved verbatim.
pub fn database_failure(message: String) -> (e: DuckyError)
    ensures
        e matches DuckyError::DatabaseError(m) && m@ == message@,
{
    DuckyError::DatabaseError(message)
}

/// Reports a lock that could not be acquired for statement execution.
pub fn lock_failure(message: &str) -> (e: DuckyError)
    ensures
        e matches DuckyError::DatabaseError(m) && m@ == "Failed to lock connection: "@
            + message@,
{
    let prefix: String = "Failed to lock connection: ".to_owned();
    DuckyError::DatabaseError(prefix.concat(message))
}

/// Decides the close operation from the lock acquisition's outcome: a
/// poisoned lock is reported as a database error describing the poisoning
/// rather than silently proceeding; a clean acquisition allows normal
/// destruction to proceed.
pub fn close_decision(lock_result: Result<(), String>) -> (r: Result<(), DuckyError>)
    ensures
        lock_result is Ok <==> r is Ok,
        r matches Err(e) ==> (lock_result matches Err(m) && e matches DuckyError::DatabaseError(
            t,
        ) && t@ == "Connection mutex poisoned: "@ + m@),
{
    match lock_result {
        Ok(()) => Ok(()),
        Err(m) => {
            let prefix: String = "Connection mutex poisoned: ".to_owned();
            Err(DuckyError::DatabaseError(prefix.concat(m.as_str())))
        },
    }
}

/// Encodes every bind term in order; the first term matching no supported
/// parameter type aborts the whole binding with the encoder's error,
/// surfaced as a database error as the host sees it.
pub fn encode_params(terms: &Vec<Term>) -> (r: Result<Vec<BindValue>, DuckyError>)
    ensures
        r matches Ok(bs) ==> {
            &&& bs@.len() == terms@.len()
            &&& forall|i: int|
                0 <= i < terms@.len() ==> Some((#[trigger] bs@[i])@) == spec_encode(terms@[i]@)
        },
        r is Err <==> exists|i: int|
            0 <= i < terms@.len() && spec_encode((#[trigger] terms@[i])@) is None,
        r matches Err(e) ==> (e matches DuckyError::DatabaseError(m) && m@
            == unsupported_parameter_message()),
{
    let mut out: Vec<BindValue> = Vec::new();
    let mut idx: usize = 0;
    while idx < terms.len()
        invariant
            idx <= terms@.len(),
            out@.len() == idx,
            forall|i: int|
                0 <= i < idx ==> Some((#[trigger] out@[i])@) == spec_encode(terms@[i]@),
            forall|i: int|
                0 <= i < idx ==> spec_encode((#[trigger] terms@[i])@) is Some,
        decreases terms@.len() - idx,
    {
        match encode(&terms[idx]) {
            Ok(b) => {
                out.push(b);
            },
            Err(e) => {
                return Err(DuckyError::DatabaseError(e.message));
            },
        }
        idx = idx + 1;
    }
    Ok(out)
}

/// Whether every cell of the raw result decodes.
pub open spec fn rows_all_decodable(raw: Seq<Vec<EngineValue>>) -> bool {
    forall|i: int, j: int|
        0 <= i < raw.len() && 0 <= j < raw[i]@.len() ==> spec_decode(
            #[trigger] raw[i]@[j]@,
        ) is Some
}

/// Decodes every produced value, preserving row and column order; any
/// decoding failure is reported as the fixed "Failed to convert value"
/// database error, not distinguished further at the public boundary.
pub fn decode_rows(raw: &Vec<Vec<EngineValue>>) -> (r: Result<Vec<Vec<Term>>, DuckyError>)
    ensures
        r matches Ok(rows) ==> {
            &&& rows@.len() == raw@.len()
            &&& forall|i: int| 0 <= i < raw@.len() ==> (#[trigger] rows@[i])@.len()
                == raw@[i]@.len()
            &&& forall|i: int, j: int|
                0 <= i < raw@.len() && 0 <= j < raw@[i]@.len() ==> Some(
                    (#[trigger] rows@[i]@[j])@,
                ) == spec_decode(raw@[i]@[j]@)
        },
        r is Ok <==> rows_all_decodable(raw@),
        r matches Err(e) ==> (e matches DuckyError::DatabaseError(m) && m@
            == "Failed to convert value"@),
{
    let mut rows: Vec<Vec<Term>> = Vec::new();
    let mut i: usize = 0;
    while i < raw.len()
        invariant
            i <= raw@.len(),
            rows@.len() == i,
            forall|k: int| 0 <= k < i ==> (#[trigger] rows@[k])@.len() == raw@[k]@.len(),
            forall|k: int, j: int|
                0 <= k < i && 0 <= j < raw@[k]@.len() ==> Some((#[trigger] rows@[k]@[j])@)
                    == spec_decode(raw@[k]@[j]@),
            forall|k: int, j: int|
                0 <= k < i && 0 <= j < raw@[k]@.len() ==> spec_decode(
                    #[trigger] raw@[k]@[j]@,
                ) is Some,
        decreases raw@.len() - i,
    {
        let cells = &raw[i];
        let mut row: Vec<Term> = Vec::new();
        let mut j: usize = 0;
        while j < cells.len()
            invariant
                j <= cells@.len(),
                row@.len() == j,
                cells == &raw@[i as int],
                i < raw@.len(),
                forall|l: int|
                    0 <= l < j ==> Some((#[trigger] row@[l])@) == spec_decode(cells@[l]@),
                forall|l: int|
                    0 <= l < j ==> spec_decode(#[trigger] cells@[l]@) is Some,
            decreases cells@.len() - j,
        {
            match decode(&cells[j]) {
                Ok(t) => {
                    row.push(t);
                },
                Err(_) => {
                    return Err(DuckyError::DatabaseError("Failed to convert value".to_owned()));
                },
            }
            j = j + 1;
        }
        rows.push(row);
        i = i + 1;
    }
    Ok(rows)
}

/// The engine's answer to the query probe: either a produced row stream
/// (column names and raw values, in order), or a rejection, which is
/// expected control flow for non-result statements, never an error.
#[derive(Debug, PartialEq)]
pub enum QueryAttempt {
    Rows(Vec<String>, Vec<Vec<EngineValue>>),
    Refused,
}

/// The executor's decision after the query probe.
#[derive(Debug, PartialEq)]
pub enum AfterQuery {
    /// The call is decided: either the decoded result or an error.
    Done(Result<(Vec<String>, Vec<Vec<Term>>), DuckyError>),
    /// The probe was rejected: the host shell must run the engine's
    /// no-result execution path and hand its outcome to [`after_execute`].
    FallBack,
}

/// Decides the call from the query probe's answer: a produced row stream is
/// decoded in order (a decoding failure becoming the fixed conversion
/// error); a rejection falls back to no-result execution.
pub fn after_query_attempt(attempt: QueryAttempt) -> (r: AfterQuery)
    ensures
        attempt matches QueryAttempt::Rows(cols, raw) ==> {
            &&& r is Done
            &&& rows_all_decodable(raw@) ==> (r matches AfterQuery::Done(res) && res matches Ok(
                p,
            ) && p.0 == cols && p.1@.len() == raw@.len() && (forall|i: int, j: int|
                0 <= i < raw@.len() && 0 <= j < raw@[i]@.len() ==> Some(
                    (#[trigger] p.1@[i]@[j])@,
                ) == spec_decode(raw@[i]@[j]@)))
            &&& !rows_all_decodable(raw@) ==> (r matches AfterQuery::Done(res) && res matches Err(
                e,
            ) && e matches DuckyError::DatabaseError(m) && m@ == "Failed to convert value"@)
        },
        attempt is Refused <==> r is FallBack,
{
    match attempt {
        QueryAttempt::Rows(cols, raw) => {
            match decode_rows(&raw) {
                Ok(rows) => AfterQuery::Done(Ok((cols, rows))),
                Err(e) => AfterQuery::Done(Err(e)),
            }
        },
        QueryAttempt::Refused => AfterQuery::FallBack,
    }
}

/// Decides the call from the no-result execution's outcome: success returns
/// empty columns and empty rows; a genuine failure (constraint violation,
/// type error) is a database error with the engine's message preserved.
pub fn after_execute(result: Result<usize, String>) -> (r: Result<
    (Vec<String>, Vec<Vec<Term>>),
    DuckyError,
>)
    ensures
        result is Ok ==> (r matches Ok(p) && p.0@.len() == 0 && p.1@.len() == 0),
        result matches Err(m) ==> (r matches Err(e) && e matches DuckyError::DatabaseError(t)
            && t@ == m@),
{
    match result {
        Ok(_) => Ok((Vec::new(), Vec::new())),
        Err(m) => Err(DuckyError::DatabaseError(m)),
    }
}

} // verus!
