use gwp::temporal::{Date, Duration, LocalTime};
use gwp::wire::{WireKind, WireValue};
use gwp::value::Value;

fn round_trip(value: &Value) {
    let wire = value.to_wire();
    let back = Value::from_wire(&wire);
    assert_eq!(*value, back);
}

#[test]
fn round_trip_null() {
    round_trip(&Value::Null);
}

#[test]
fn round_trip_boolean() {
    round_trip(&Value::Boolean(true));
    round_trip(&Value::Boolean(false));
}

#[test]
fn round_trip_integer() {
    round_trip(&Value::Integer(0));
    round_trip(&Value::Integer(42));
    round_trip(&Value::Integer(-1));
    round_trip(&Value::Integer(i64::MAX));
    round_trip(&Value::Integer(i64::MIN));
}

#[test]
fn round_trip_unsigned() {
    round_trip(&Value::UnsignedInteger(0));
    round_trip(&Value::UnsignedInteger(u64::MAX));
}

#[test]
fn round_trip_float() {
    round_trip(&Value::Float(f64::to_bits(0.0)));
    round_trip(&Value::Float(f64::to_bits(1.5)));
    round_trip(&Value::Float(f64::to_bits(-1.0)));
}

#[test]
fn round_trip_string() {
    round_trip(&Value::String(String::new()));
    round_trip(&Value::String("hello world".to_owned()));
}

#[test]
fn round_trip_bytes() {
    round_trip(&Value::Bytes(vec![]));
    round_trip(&Value::Bytes(vec![0x00, 0xFF, 0x42]));
}

#[test]
fn round_trip_list() {
    round_trip(&Value::List(vec![]));
    round_trip(&Value::List(vec![
        Value::Integer(1),
        Value::String("two".to_owned()),
        Value::Null,
    ]));
}

#[test]
fn round_trip_nested_list() {
    round_trip(&Value::List(vec![
        Value::List(vec![Value::Integer(1), Value::Integer(2)]),
        Value::List(vec![Value::Integer(3)]),
    ]));
}

#[test]
fn round_trip_decimal() {
    // Represents 12.50 (unscaled = 1250, scale = 2)
    round_trip(&Value::Decimal {
        unscaled: vec![0x04, 0xE2], // 1250 big-endian
        scale: 2,
    });
    // Zero
    round_trip(&Value::Decimal {
        unscaled: vec![0x00],
        scale: 0,
    });
}

#[test]
fn round_trip_big_integer() {
    round_trip(&Value::BigInteger {
        value: vec![0x01, 0x00, 0x00, 0x00, 0x00, 0x00, 0x00, 0x00, 0x00],
        is_signed: true,
    });
    round_trip(&Value::BigInteger {
        value: vec![0xFF],
        is_signed: false,
    });
}

#[test]
fn round_trip_big_float() {
    round_trip(&Value::BigFloat {
        value: vec![0x40, 0x09, 0x21, 0xFB],
        width: 128,
    });
    round_trip(&Value::BigFloat {
        value: vec![],
        width: 256,
    });
}

#[test]
fn round_trip_temporal_values() {
    round_trip(&Value::Date(Date {
        year: 2026,
        month: 2,
        day: 14,
    }));
    round_trip(&Value::LocalTime(LocalTime {
        hour: 9,
        minute: 30,
        second: 0,
        nanosecond: 0,
    }));
}

#[test]
fn from_conversions() {
    assert_eq!(Value::from(true), Value::Boolean(true));
    assert_eq!(Value::from(42_i64), Value::Integer(42));
    assert_eq!(Value::from(42_i32), Value::Integer(42));
    assert_eq!(Value::from(42_u64), Value::UnsignedInteger(42));
    assert_eq!(Value::from(42_u32), Value::UnsignedInteger(42));
    assert_eq!(
        Value::from("hello".to_owned()),
        Value::String("hello".to_owned())
    );
    assert_eq!(Value::from("hello"), Value::String("hello".to_owned()));
    assert_eq!(
        Value::from(vec![0x01u8, 0x02]),
        Value::Bytes(vec![0x01, 0x02])
    );
}

#[test]
fn display_primitives() {
    assert_eq!(Value::Null.display_string(), "NULL");
    assert_eq!(Value::Boolean(true).display_string(), "true");
    assert_eq!(Value::Integer(-42).display_string(), "-42");
    assert_eq!(Value::UnsignedInteger(99).display_string(), "99");
    assert_eq!(
        Value::Float(f64::to_bits(1.5)).display_string(),
        "Float(0x3ff8000000000000)"
    );
    assert_eq!(
        Value::String("hello".to_owned()).display_string(),
        "hello"
    );
    assert_eq!(Value::Bytes(vec![0xDE, 0xAD]).display_string(), "0xdead");
}

#[test]
fn display_temporal() {
    assert_eq!(
        Value::Date(Date {
            year: 2026,
            month: 2,
            day: 14
        })
        .display_string(),
        "2026-02-14"
    );
    assert_eq!(
        Value::LocalTime(LocalTime {
            hour: 9,
            minute: 30,
            second: 0,
            nanosecond: 0,
        })
        .display_string(),
        "09:30:00"
    );
}

#[test]
fn display_list() {
    let list = Value::List(vec![
        Value::Integer(1),
        Value::String("two".to_owned()),
        Value::Null,
    ]);
    assert_eq!(list.display_string(), "[1, two, NULL]");
}

#[test]
fn display_duration() {
    let d = Value::Duration(Duration {
        months: 14,
        nanoseconds: 90_500_000_000,
    });
    assert_eq!(d.display_string(), "P14MT90.500000000S");
    let plain = Value::Duration(Duration {
        months: 0,
        nanoseconds: 0,
    });
    assert_eq!(plain.display_string(), "PT0S");
}

#[test]
fn wire_round_trip_of_dense_wire_values() {
    // a dense wire value decodes and re-encodes to itself
    let dense = WireValue {
        kind: Some(WireKind::StringValue("abc".to_owned())),
    };
    let decoded = Value::from_wire(&dense);
    assert_eq!(decoded.to_wire(), dense);

    // an absent kind denotes NULL; re-encoding normalizes it to the
    // explicit NULL payload with the same meaning
    let absent = WireValue { kind: None };
    let null = Value::from_wire(&absent);
    assert_eq!(null, Value::Null);
    assert_eq!(
        null.to_wire(),
        WireValue {
            kind: Some(WireKind::NullValue)
        }
    );
}
