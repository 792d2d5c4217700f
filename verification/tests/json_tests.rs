use hubcaps::json::Value;
use hubcaps::rep::DeploymentReq;

#[test]
fn scalars_render() {
    assert_eq!(Value::Null.to_json_string(), "null");
    assert_eq!(Value::Bool(true).to_json_string(), "true");
    assert_eq!(Value::Bool(false).to_json_string(), "false");
    assert_eq!(Value::Int(0).to_json_string(), "0");
    assert_eq!(Value::Int(-17).to_json_string(), "-17");
    assert_eq!(Value::Int(i64::MIN).to_json_string(), "-9223372036854775808");
    assert_eq!(Value::UInt(u64::MAX).to_json_string(), "18446744073709551615");
    assert_eq!(Value::Str("plain".to_string()).to_json_string(), r#""plain""#);
}

#[test]
fn strings_escape() {
    assert_eq!(
        Value::Str("say \"hi\"\n".to_string()).to_json_string(),
        r#""say \"hi\"\n""#
    );
    assert_eq!(
        Value::Str("back\\slash\tand\rcontrol\u{1}".to_string()).to_json_string(),
        "\"back\\\\slash\\tand\\rcontrol\\u0001\""
    );
}

#[test]
fn arrays_and_objects_render() {
    let v = Value::Arr(vec![
        Value::Int(1),
        Value::Str("two".to_string()),
        Value::Arr(vec![]),
        Value::Obj(vec![("k".to_string(), Value::Null)]),
    ]);
    assert_eq!(v.to_json_string(), r#"[1,"two",[],{"k":null}]"#);
    let o = Value::Obj(vec![
        ("a".to_string(), Value::Int(1)),
        ("b".to_string(), Value::Int(2)),
    ]);
    assert_eq!(o.to_json_string(), r#"{"a":1,"b":2}"#);
}

#[test]
fn object_members_keep_insertion_order() {
    let o = Value::Obj(vec![
        ("z".to_string(), Value::Int(1)),
        ("a".to_string(), Value::Int(2)),
    ]);
    assert_eq!(o.to_json_string(), r#"{"z":1,"a":2}"#);
}

#[test]
fn get_finds_the_first_member() {
    let o = Value::Obj(vec![
        ("a".to_string(), Value::Int(1)),
        ("b".to_string(), Value::Int(2)),
        ("a".to_string(), Value::Int(3)),
    ]);
    assert!(matches!(o.get("a"), Some(Value::Int(1))));
    assert!(matches!(o.get("b"), Some(Value::Int(2))));
    assert!(o.get("c").is_none());
    assert!(Value::Null.get("a").is_none());
}

#[test]
fn payloads_render_at_build_time() {
    let req = DeploymentReq::builder("main")
        .payload(Value::Obj(vec![("user".to_string(), Value::Str("atmos".to_string()))]))
        .build();
    assert_eq!(
        req.encode().to_json_string(),
        r#"{"ref":"main","payload":"{\"user\":\"atmos\"}"}"#
    );
}
