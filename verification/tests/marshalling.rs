//! Tests of the value decoder and the parameter encoder on concrete values.

use ducky_nif::decode::{decode, interval_total_nanos, normalize_to_micros, try_utf8_text};
use ducky_nif::encode::{encode, BindValue};
use ducky_nif::term::{Term, TermField};
use ducky_nif::value::{EngineValue, FieldValue, StructField, TimeUnit};

fn ok(v: EngineValue) -> Term {
    decode(&v).expect("value should decode")
}

#[test]
fn decode_null_and_boolean() {
    assert_eq!(ok(EngineValue::Null), Term::Null);
    assert_eq!(ok(EngineValue::Boolean(true)), Term::Bool(true));
    assert_eq!(ok(EngineValue::Boolean(false)), Term::Bool(false));
}

#[test]
fn decode_signed_integers() {
    assert_eq!(ok(EngineValue::TinyInt(-128)), Term::Integer(-128));
    assert_eq!(ok(EngineValue::SmallInt(-32768)), Term::Integer(-32768));
    assert_eq!(ok(EngineValue::Int(2147483647)), Term::Integer(2147483647));
    assert_eq!(
        ok(EngineValue::BigInt(-9223372036854775808)),
        Term::Integer(-9223372036854775808)
    );
    assert_eq!(
        ok(EngineValue::HugeInt(170141183460469231731687303715884105727)),
        Term::Integer(170141183460469231731687303715884105727)
    );
}

#[test]
fn decode_unsigned_integers_widen() {
    assert_eq!(ok(EngineValue::UTinyInt(255)), Term::Integer(255));
    assert_eq!(ok(EngineValue::USmallInt(65535)), Term::Integer(65535));
    assert_eq!(ok(EngineValue::UInt(4294967295)), Term::Integer(4294967295));
}

#[test]
fn decode_unsigned_64_at_signed_max_succeeds() {
    assert_eq!(
        ok(EngineValue::UBigInt(9223372036854775807)),
        Term::Integer(9223372036854775807)
    );
}

#[test]
fn decode_unsigned_64_above_signed_max_fails() {
    let err = decode(&EngineValue::UBigInt(18446744073709551615)).unwrap_err();
    assert!(!err.message.is_empty());
    // Never wraps or truncates: the only successful outcomes are equal values.
    let err2 = decode(&EngineValue::UBigInt(9223372036854775808)).unwrap_err();
    assert!(!err2.message.is_empty());
}

#[test]
fn decode_unsigned_64_overflow_message_names_value_and_limit() {
    let err = decode(&EngineValue::UBigInt(18446744073709551615)).unwrap_err();
    assert_eq!(
        err.message,
        "Integer overflow: UBigInt value 18446744073709551615 exceeds i64::MAX (9223372036854775807)"
    );
}

#[test]
fn unsupported_message_carries_the_fixed_prefix() {
    let err = decode(&EngineValue::Unsupported(String::from("BIT"))).unwrap_err();
    assert_eq!(err.message, "Unsupported value type: BIT");
}

#[test]
fn decode_floats_keep_bit_patterns() {
    let f32_bits = 1.5f32.to_bits();
    let f64_bits = (-2.25f64).to_bits();
    assert_eq!(ok(EngineValue::Float32(f32_bits)), Term::Float32(f32_bits));
    assert_eq!(ok(EngineValue::Float64(f64_bits)), Term::Float64(f64_bits));
}

#[test]
fn decode_text_strict_utf8() {
    let v = EngineValue::Text(b"grus grus".to_vec());
    assert_eq!(ok(v), Term::Text(String::from("grus grus")));
    let non_ascii = EngineValue::Text("tranor\u{e4}".as_bytes().to_vec());
    assert_eq!(ok(non_ascii), Term::Text(String::from("tranor\u{e4}")));
}

#[test]
fn decode_invalid_utf8_is_a_failure_not_a_replacement() {
    let err = decode(&EngineValue::Text(vec![0xff, 0xfe, 0x41])).unwrap_err();
    assert_eq!(err.message, "Invalid UTF-8");
}

#[test]
fn decode_blob_passes_bytes_through() {
    let v = EngineValue::Blob(vec![0xff, 0x00, 0x41]);
    assert_eq!(ok(v), Term::Blob(vec![0xff, 0x00, 0x41]));
}

#[test]
fn timestamp_millisecond_1000_is_one_million_micros() {
    let v = EngineValue::Timestamp(TimeUnit::Millisecond, 1000);
    assert_eq!(ok(v), Term::Timestamp(1_000_000));
}

#[test]
fn timestamp_nanosecond_1500_truncates_toward_zero() {
    assert_eq!(ok(EngineValue::Timestamp(TimeUnit::Nanosecond, 1500)), Term::Timestamp(1));
    assert_eq!(ok(EngineValue::Timestamp(TimeUnit::Nanosecond, -1500)), Term::Timestamp(-1));
}

#[test]
fn timestamp_second_and_microsecond_units() {
    assert_eq!(ok(EngineValue::Timestamp(TimeUnit::Second, 3)), Term::Timestamp(3_000_000));
    assert_eq!(ok(EngineValue::Timestamp(TimeUnit::Microsecond, 42)), Term::Timestamp(42));
}

#[test]
fn timestamp_overflow_is_a_failure() {
    let err = decode(&EngineValue::Timestamp(TimeUnit::Second, i64::MAX)).unwrap_err();
    assert!(!err.message.is_empty());
}

#[test]
fn time_normalizes_like_timestamp() {
    assert_eq!(ok(EngineValue::Time(TimeUnit::Millisecond, 1000)), Term::Time(1_000_000));
    assert_eq!(ok(EngineValue::Time(TimeUnit::Nanosecond, 1500)), Term::Time(1));
}

#[test]
fn date_passes_day_count_through() {
    assert_eq!(ok(EngineValue::Date(19000)), Term::Date(19000));
    assert_eq!(ok(EngineValue::Date(-1)), Term::Date(-1));
}

#[test]
fn interval_one_month_is_thirty_days_of_nanos() {
    let v = EngineValue::Interval { months: 1, days: 0, nanos: 0 };
    assert_eq!(ok(v), Term::Interval(2_592_000_000_000_000));
}

#[test]
fn interval_one_day_of_nanos() {
    let v = EngineValue::Interval { months: 0, days: 1, nanos: 0 };
    assert_eq!(ok(v), Term::Interval(86_400_000_000_000));
}

#[test]
fn interval_combines_all_three_parts() {
    let v = EngineValue::Interval { months: 1, days: 1, nanos: 7 };
    assert_eq!(ok(v), Term::Interval(2_592_000_000_000_000 + 86_400_000_000_000 + 7));
}

#[test]
fn interval_overflow_is_a_failure() {
    let v = EngineValue::Interval { months: i32::MAX, days: i32::MAX, nanos: i64::MAX };
    assert!(decode(&v).is_err());
}

#[test]
fn unsupported_top_level_type_is_a_hard_failure_with_name() {
    let err = decode(&EngineValue::Unsupported(String::from("BIT"))).unwrap_err();
    assert!(err.message.contains("BIT"));
}

#[test]
fn struct_decodes_null_field_and_text_field() {
    let v = EngineValue::Composite(vec![
        StructField { name: String::from("a"), value: FieldValue::Null },
        StructField {
            name: String::from("b"),
            value: FieldValue::Present(EngineValue::Text(b"hello".to_vec())),
        },
    ]);
    assert_eq!(
        ok(v),
        Term::Composite(vec![
            TermField { name: String::from("a"), value: Term::Null },
            TermField { name: String::from("b"), value: Term::Text(String::from("hello")) },
        ])
    );
}

#[test]
fn struct_unknown_child_type_falls_back_to_null_without_failing() {
    let v = EngineValue::Composite(vec![
        StructField { name: String::from("x"), value: FieldValue::Unknown },
        StructField {
            name: String::from("y"),
            value: FieldValue::Present(EngineValue::Int(5)),
        },
    ]);
    assert_eq!(
        ok(v),
        Term::Composite(vec![
            TermField { name: String::from("x"), value: Term::Null },
            TermField { name: String::from("y"), value: Term::Integer(5) },
        ])
    );
}

#[test]
fn struct_child_overflow_fails_the_whole_value() {
    let v = EngineValue::Composite(vec![StructField {
        name: String::from("big"),
        value: FieldValue::Present(EngineValue::UBigInt(u64::MAX)),
    }]);
    assert!(decode(&v).is_err());
}

#[test]
fn struct_nests_recursively() {
    let inner = EngineValue::Composite(vec![StructField {
        name: String::from("leaf"),
        value: FieldValue::Present(EngineValue::Boolean(true)),
    }]);
    let v = EngineValue::Composite(vec![StructField {
        name: String::from("node"),
        value: FieldValue::Present(inner),
    }]);
    assert_eq!(
        ok(v),
        Term::Composite(vec![TermField {
            name: String::from("node"),
            value: Term::Composite(vec![TermField {
                name: String::from("leaf"),
                value: Term::Bool(true),
            }]),
        }])
    );
}

#[test]
fn decode_tags_discriminate_families() {
    assert_ne!(ok(EngineValue::Boolean(true)), ok(EngineValue::TinyInt(1)));
    assert_ne!(ok(EngineValue::Text(b"1".to_vec())), ok(EngineValue::Blob(b"1".to_vec())));
    assert_ne!(
        ok(EngineValue::Timestamp(TimeUnit::Microsecond, 5)),
        ok(EngineValue::Time(TimeUnit::Microsecond, 5))
    );
    assert_ne!(ok(EngineValue::Date(5)), ok(EngineValue::Int(5)));
}

#[test]
fn decode_is_injective_on_lossless_scalars() {
    assert_ne!(ok(EngineValue::Int(1)), ok(EngineValue::Int(2)));
    assert_ne!(
        ok(EngineValue::Text(b"a".to_vec())),
        ok(EngineValue::Text(b"b".to_vec()))
    );
    assert_ne!(
        ok(EngineValue::Timestamp(TimeUnit::Millisecond, 1)),
        ok(EngineValue::Timestamp(TimeUnit::Millisecond, 2))
    );
}

#[test]
fn normalize_to_micros_directly() {
    assert_eq!(normalize_to_micros(TimeUnit::Second, 2), Some(2_000_000));
    assert_eq!(normalize_to_micros(TimeUnit::Millisecond, 1000), Some(1_000_000));
    assert_eq!(normalize_to_micros(TimeUnit::Microsecond, 9), Some(9));
    assert_eq!(normalize_to_micros(TimeUnit::Nanosecond, 1999), Some(1));
    assert_eq!(normalize_to_micros(TimeUnit::Second, i64::MAX), None);
}

#[test]
fn interval_total_nanos_directly() {
    assert_eq!(interval_total_nanos(1, 0, 0), Some(2_592_000_000_000_000));
    assert_eq!(interval_total_nanos(0, 1, 0), Some(86_400_000_000_000));
    assert_eq!(interval_total_nanos(0, 0, -5), Some(-5));
    assert_eq!(interval_total_nanos(i32::MAX, 0, 0), None);
}

#[test]
fn try_utf8_text_checks_strictly() {
    assert_eq!(try_utf8_text(b"ok"), Some(String::from("ok")));
    assert_eq!(try_utf8_text(&[0xc3, 0x28]), None);
}

#[test]
fn encode_null_marker() {
    assert_eq!(encode(&Term::Null), Ok(BindValue::Null));
}

#[test]
fn encode_boolean() {
    assert_eq!(encode(&Term::Bool(true)), Ok(BindValue::Bool(true)));
}

#[test]
fn encode_integer_in_signed_64_range() {
    assert_eq!(encode(&Term::Integer(-7)), Ok(BindValue::Int(-7)));
    assert_eq!(
        encode(&Term::Integer(i64::MAX as i128)),
        Ok(BindValue::Int(i64::MAX))
    );
}

#[test]
fn encode_integer_beyond_signed_64_is_rejected() {
    let err = encode(&Term::Integer(i64::MAX as i128 + 1)).unwrap_err();
    assert_eq!(
        err.message,
        "Unsupported parameter type: cannot convert term to DuckDB parameter"
    );
}

#[test]
fn encode_float_keeps_bits() {
    let bits = 3.5f64.to_bits();
    assert_eq!(encode(&Term::Float64(bits)), Ok(BindValue::Double(bits)));
}

#[test]
fn encode_text() {
    assert_eq!(
        encode(&Term::Text(String::from("select"))),
        Ok(BindValue::Text(String::from("select")))
    );
}

#[test]
fn encode_utf8_blob_binds_as_text() {
    assert_eq!(
        encode(&Term::Blob(b"abc".to_vec())),
        Ok(BindValue::Text(String::from("abc")))
    );
}

#[test]
fn encode_non_utf8_blob_is_rejected() {
    assert!(encode(&Term::Blob(vec![0xff, 0xfe])).is_err());
}

#[test]
fn encode_other_shapes_are_rejected_not_coerced() {
    assert!(encode(&Term::Atom(String::from("foo"))).is_err());
    assert!(encode(&Term::Timestamp(1)).is_err());
    assert!(encode(&Term::Interval(1)).is_err());
    assert!(encode(&Term::Composite(vec![])).is_err());
    assert!(encode(&Term::Float32(0)).is_err());
}

#[test]
fn round_trip_scalars_through_stored_values() {
    // The engine stores a bind value faithfully: null as null, a boolean as
    // a boolean, an integer as a signed 64-bit value, a double bit-exactly,
    // text as its UTF-8 bytes.
    let cases: Vec<Term> = vec![
        Term::Null,
        Term::Bool(false),
        Term::Integer(123456789),
        Term::Float64(2.5f64.to_bits()),
        Term::Text(String::from("round trip")),
    ];
    for t in cases {
        let stored = match encode(&t).expect("encodable") {
            BindValue::Null => EngineValue::Null,
            BindValue::Bool(b) => EngineValue::Boolean(b),
            BindValue::Int(i) => EngineValue::BigInt(i),
            BindValue::Double(bits) => EngineValue::Float64(bits),
            BindValue::Text(s) => EngineValue::Text(s.into_bytes()),
        };
        assert_eq!(decode(&stored).expect("decodable"), t);
    }
}

#[test]
fn round_trip_utf8_blob_returns_as_text() {
    let stored = match encode(&Term::Blob(b"abc".to_vec())).expect("encodable") {
        BindValue::Text(s) => EngineValue::Text(s.into_bytes()),
        other => panic!("expected text bind value, got {:?}", other),
    };
    assert_eq!(decode(&stored).expect("decodable"), Term::Text(String::from("abc")));
}
