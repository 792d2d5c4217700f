use hubcaps::datetime::{DateTime, DecodeError, MAX_EPOCH_SECS, MIN_EPOCH_SECS};
use hubcaps::json::Value;

fn str_node(s: &str) -> Value {
    Value::Str(s.to_string())
}

#[test]
fn decodes_iso8601_strings() {
    let d = DateTime::decode(&str_node("2015-05-15T00:00:00Z"), true).unwrap();
    assert_eq!(d.epoch_secs(), 1431648000);
    let with_offset = DateTime::decode(&str_node("2015-05-15T02:00:00+02:00"), true).unwrap();
    assert_eq!(with_offset, d);
}

#[test]
fn decodes_epoch_integers() {
    let from_int = DateTime::decode(&Value::Int(1431648000), true).unwrap();
    let from_uint = DateTime::decode(&Value::UInt(1431648000), true).unwrap();
    let from_str = DateTime::decode(&str_node("2015-05-15T00:00:00Z"), true).unwrap();
    assert_eq!(from_int, from_uint);
    assert_eq!(from_int, from_str);
}

#[test]
fn string_and_integer_round_trip() {
    let d = DateTime::decode(&Value::Int(1431648000), true).unwrap();
    let text = d.to_rfc3339();
    assert_eq!(text, "2015-05-15T00:00:00+00:00");
    let again = DateTime::decode(&str_node(&text), true).unwrap();
    assert_eq!(again, d);
    assert_eq!(d.redecoded(), d);
}

#[test]
fn redecoding_is_deterministic() {
    let a = DateTime::decode(&Value::Int(42), true).unwrap();
    let b = DateTime::decode(&Value::Int(42), true).unwrap();
    assert_eq!(a, b);
}

#[test]
fn adjacent_integers_differ_by_one_second() {
    let a = DateTime::decode(&Value::Int(1431648000), true).unwrap();
    let b = DateTime::decode(&Value::Int(1431648001), true).unwrap();
    assert_eq!(b.epoch_secs() - a.epoch_secs(), 1);
    assert_ne!(a, b);
    assert!(a.is_before(&b));
}

#[test]
fn oversized_unsigned_values_fail_with_range_failure() {
    let r = DateTime::decode(&Value::UInt(u64::MAX), true);
    assert_eq!(r, Err(DecodeError::RangeFailure(u64::MAX)));
    let r = DateTime::decode(&Value::UInt(i64::MAX as u64 + 1), false);
    assert_eq!(r, Err(DecodeError::RangeFailure(i64::MAX as u64 + 1)));
}

#[test]
fn calendar_range_is_exact_at_both_ends() {
    let min = DateTime::decode(&Value::Int(MIN_EPOCH_SECS), true).unwrap();
    assert_eq!(min.epoch_secs(), MIN_EPOCH_SECS);
    let max = DateTime::decode(&Value::Int(MAX_EPOCH_SECS), true).unwrap();
    assert_eq!(max.epoch_secs(), MAX_EPOCH_SECS);
    assert_eq!(
        DateTime::decode(&Value::Int(MIN_EPOCH_SECS - 1), true),
        Err(DecodeError::IllegalInstant(MIN_EPOCH_SECS - 1))
    );
    assert_eq!(
        DateTime::decode(&Value::Int(MAX_EPOCH_SECS + 1), true),
        Err(DecodeError::IllegalInstant(MAX_EPOCH_SECS + 1))
    );
}

#[test]
fn malformed_strings_fail_with_parse_failure() {
    let r = DateTime::decode(&str_node("not a datetime"), true);
    assert!(matches!(r, Err(DecodeError::ParseFailure(_))));
}

#[test]
fn non_scalar_nodes_fail_with_format_mismatch() {
    for v in [Value::Null, Value::Bool(true), Value::Arr(vec![]), Value::Obj(vec![])] {
        assert_eq!(DateTime::decode(&v, true), Err(DecodeError::FormatMismatch));
    }
}

#[test]
fn compact_format_requires_numeric_form() {
    let r = DateTime::decode(&str_node("2015-05-15T00:00:00Z"), false);
    assert_eq!(r, Err(DecodeError::FormatMismatch));
    let ok = DateTime::decode(&Value::Int(0), false).unwrap();
    assert_eq!(ok.epoch_secs(), 0);
}

#[test]
fn direct_construction_checks_the_range() {
    let d = DateTime::from_epoch_secs(1431648000).unwrap();
    assert_eq!(d.epoch_secs(), 1431648000);
    assert!(DateTime::from_epoch_secs(MAX_EPOCH_SECS + 1).is_none());
    assert!(DateTime::from_epoch_secs(MIN_EPOCH_SECS - 1).is_none());
}
