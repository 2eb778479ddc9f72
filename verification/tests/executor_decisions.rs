//! Tests of the statement executor's decision functions and the connection
//! lifecycle decisions, driven with concrete engine answers.

use ducky_nif::encode::BindValue;
use ducky_nif::error::DuckyError;
use ducky_nif::executor::{
    after_execute, after_query_attempt, classify_target, close_decision, connection_failure,
    database_failure, decode_rows, encode_params, lock_failure, AfterQuery, OpenTarget,
    QueryAttempt,
};
use ducky_nif::term::Term;
use ducky_nif::value::{EngineValue, TimeUnit};

#[test]
fn healthcheck_reports_fixed_string() {
    assert_eq!(ducky_nif::test(), "DuckDB NIF loaded successfully!");
}

#[test]
fn memory_sentinel_opens_in_memory() {
    assert_eq!(classify_target(String::from(":memory:")), OpenTarget::InMemory);
}

#[test]
fn other_targets_open_at_path() {
    assert_eq!(
        classify_target(String::from("/tmp/data.db")),
        OpenTarget::AtPath(String::from("/tmp/data.db"))
    );
    // Near misses are paths, not the sentinel.
    assert_eq!(
        classify_target(String::from(":memory")),
        OpenTarget::AtPath(String::from(":memory"))
    );
}

#[test]
fn open_failure_is_connection_failed_with_engine_message() {
    let e = connection_failure(String::from("IO Error: cannot open"));
    assert_eq!(e, DuckyError::ConnectionFailed(String::from("IO Error: cannot open")));
    assert_eq!(e.message(), "IO Error: cannot open");
}

#[test]
fn engine_failure_is_database_error_verbatim() {
    let e = database_failure(String::from("Parser Error: syntax error at or near \"SELEC\""));
    assert_eq!(
        e,
        DuckyError::DatabaseError(String::from("Parser Error: syntax error at or near \"SELEC\""))
    );
    assert!(!e.message().is_empty());
}

#[test]
fn poisoned_lock_fails_execution_loudly() {
    let e = lock_failure("poisoned lock: another task failed inside");
    assert_eq!(
        e,
        DuckyError::DatabaseError(String::from(
            "Failed to lock connection: poisoned lock: another task failed inside"
        ))
    );
}

#[test]
fn close_succeeds_on_clean_lock() {
    assert_eq!(close_decision(Ok(())), Ok(()));
}

#[test]
fn close_on_poisoned_lock_reports_poisoning() {
    let r = close_decision(Err(String::from("poisoned lock: another task failed inside")));
    assert_eq!(
        r,
        Err(DuckyError::DatabaseError(String::from(
            "Connection mutex poisoned: poisoned lock: another task failed inside"
        )))
    );
}

#[test]
fn params_encode_in_order() {
    let terms = vec![
        Term::Null,
        Term::Bool(true),
        Term::Integer(42),
        Term::Float64(1.25f64.to_bits()),
        Term::Text(String::from("x")),
    ];
    let bound = encode_params(&terms).expect("all encodable");
    assert_eq!(
        bound,
        vec![
            BindValue::Null,
            BindValue::Bool(true),
            BindValue::Int(42),
            BindValue::Double(1.25f64.to_bits()),
            BindValue::Text(String::from("x")),
        ]
    );
}

#[test]
fn first_unencodable_param_aborts_binding() {
    let terms = vec![Term::Integer(1), Term::Atom(String::from("bad")), Term::Integer(2)];
    let err = encode_params(&terms).unwrap_err();
    assert_eq!(
        err,
        DuckyError::DatabaseError(String::from(
            "Unsupported parameter type: cannot convert term to DuckDB parameter"
        ))
    );
}

#[test]
fn rows_decode_preserving_row_and_column_order() {
    let raw = vec![
        vec![EngineValue::Int(1), EngineValue::Text(b"a".to_vec())],
        vec![EngineValue::Int(2), EngineValue::Text(b"b".to_vec())],
    ];
    let rows = decode_rows(&raw).expect("all decodable");
    assert_eq!(
        rows,
        vec![
            vec![Term::Integer(1), Term::Text(String::from("a"))],
            vec![Term::Integer(2), Term::Text(String::from("b"))],
        ]
    );
}

#[test]
fn any_cell_failure_is_the_fixed_conversion_error() {
    let raw = vec![
        vec![EngineValue::Int(1)],
        vec![EngineValue::UBigInt(u64::MAX)],
    ];
    let err = decode_rows(&raw).unwrap_err();
    assert_eq!(err, DuckyError::DatabaseError(String::from("Failed to convert value")));
}

#[test]
fn produced_rows_are_decoded_and_returned_with_columns() {
    // The shape of `SELECT 1`: one column, one row, value 1.
    let attempt = QueryAttempt::Rows(
        vec![String::from("1")],
        vec![vec![EngineValue::Int(1)]],
    );
    match after_query_attempt(attempt) {
        AfterQuery::Done(Ok((cols, rows))) => {
            assert_eq!(cols, vec![String::from("1")]);
            assert_eq!(rows, vec![vec![Term::Integer(1)]]);
        }
        other => panic!("expected a decoded result, got {:?}", other),
    }
}

#[test]
fn probe_rejection_falls_back_to_no_result_execution() {
    // The shape of `CREATE TABLE t(x INT)`: the probe is rejected, the
    // fallback execution succeeds, and the result is empty columns and
    // empty rows with no error.
    assert_eq!(after_query_attempt(QueryAttempt::Refused), AfterQuery::FallBack);
    let r = after_execute(Ok(0));
    assert_eq!(r, Ok((Vec::new(), Vec::new())));
}

#[test]
fn decoding_failure_inside_result_set_is_reported_not_returned() {
    let attempt = QueryAttempt::Rows(
        vec![String::from("c")],
        vec![vec![EngineValue::Unsupported(String::from("BIT"))]],
    );
    match after_query_attempt(attempt) {
        AfterQuery::Done(Err(e)) => {
            assert_eq!(e, DuckyError::DatabaseError(String::from("Failed to convert value")));
        }
        other => panic!("expected the conversion error, got {:?}", other),
    }
}

#[test]
fn genuine_execution_failure_surfaces_with_engine_message() {
    // The shape of malformed SQL or a constraint violation on the fallback
    // path: a database error with a non-empty engine message.
    let r = after_execute(Err(String::from("Constraint Error: NOT NULL constraint failed")));
    match r {
        Err(DuckyError::DatabaseError(m)) => {
            assert!(!m.is_empty());
            assert_eq!(m, "Constraint Error: NOT NULL constraint failed");
        }
        other => panic!("expected a database error, got {:?}", other),
    }
}

#[test]
fn decoded_rows_flow_through_timestamp_normalization() {
    let raw = vec![vec![
        EngineValue::Timestamp(TimeUnit::Millisecond, 1000),
        EngineValue::Timestamp(TimeUnit::Nanosecond, 1500),
    ]];
    let rows = decode_rows(&raw).expect("decodable");
    assert_eq!(rows, vec![vec![Term::Timestamp(1_000_000), Term::Timestamp(1)]]);
}
