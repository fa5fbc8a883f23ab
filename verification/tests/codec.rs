use arch_service::record::Architecture;
use arch_service::json::records_to_json;
use arch_service::parse::parse_i32;

fn rec(arch_id: i32, name: &str, status: bool, version: &str, putch: &str) -> Architecture {
    Architecture::new(
        arch_id,
        name.to_string(),
        status,
        version.to_string(),
        putch.to_string(),
    )
}

fn same(a: &Architecture, b: &Architecture) -> bool {
    a.arch_id == b.arch_id && a.name == b.name && a.status == b.status && a.version == b.version
        && a.putch == b.putch
}

#[test]
fn record_to_json_exact() {
    let a = rec(1, "x86", true, "1.0", "a");
    assert_eq!(
        a.to_json(),
        "{\"arch_id\":1,\"name\":\"x86\",\"status\":true,\"version\":\"1.0\",\"putch\":\"a\"}"
    );
}

#[test]
fn record_to_json_negative_id_and_false() {
    let a = rec(-12, "arm", false, "2", "b");
    assert_eq!(
        a.to_json(),
        "{\"arch_id\":-12,\"name\":\"arm\",\"status\":false,\"version\":\"2\",\"putch\":\"b\"}"
    );
}

#[test]
fn record_to_json_escapes() {
    let a = rec(0, "a\"b\\c\nd\te\u{1}", true, "v", "p");
    assert_eq!(
        a.to_json(),
        "{\"arch_id\":0,\"name\":\"a\\\"b\\\\c\\nd\\te\\u0001\",\"status\":true,\"version\":\"v\",\"putch\":\"p\"}"
    );
}

#[test]
fn records_to_json_empty() {
    let rows: Vec<Architecture> = Vec::new();
    assert_eq!(records_to_json(&rows), "[]");
}

#[test]
fn records_to_json_two() {
    let rows = vec![rec(1, "x86", true, "1.0", "a"), rec(2, "arm", false, "2.0", "b")];
    assert_eq!(
        records_to_json(&rows),
        "[{\"arch_id\":1,\"name\":\"x86\",\"status\":true,\"version\":\"1.0\",\"putch\":\"a\"},{\"arch_id\":2,\"name\":\"arm\",\"status\":false,\"version\":\"2.0\",\"putch\":\"b\"}]"
    );
}

#[test]
fn encoder_output_is_json_for_serde() {
    let a = rec(7, "risc-v", true, "0.9", "rc\"1\"");
    let v: serde_json::Value = serde_json::from_str(&a.to_json()).unwrap();
    assert_eq!(v["arch_id"], serde_json::Value::from(7));
    assert_eq!(v["name"], serde_json::Value::from("risc-v"));
    assert_eq!(v["status"], serde_json::Value::from(true));
    assert_eq!(v["version"], serde_json::Value::from("0.9"));
    assert_eq!(v["putch"], serde_json::Value::from("rc\"1\""));
}

#[test]
fn from_json_plain() {
    let a = Architecture::from_json(
        "{\"arch_id\":1,\"name\":\"x86\",\"status\":true,\"version\":\"1.0\",\"putch\":\"a\"}",
    )
    .unwrap();
    assert!(same(&a, &rec(1, "x86", true, "1.0", "a")));
}

#[test]
fn from_json_any_field_order_and_whitespace() {
    let a = Architecture::from_json(
        " { \"status\" : false , \"putch\" : \"p\" , \"version\" : \"v\" ,\n\t\"name\" : \"m68k\" , \"arch_id\" : -3 } ",
    )
    .unwrap();
    assert!(same(&a, &rec(-3, "m68k", false, "v", "p")));
}

#[test]
fn from_json_escapes() {
    let a = Architecture::from_json(
        "{\"arch_id\":0,\"name\":\"a\\\"b\\\\c\\nd\\te\\/f\\bg\\fh\",\"status\":true,\"version\":\"v\",\"putch\":\"p\"}",
    )
    .unwrap();
    assert_eq!(a.name, "a\"b\\c\nd\te/f\u{8}g\u{c}h");
}

#[test]
fn from_json_round_trips_encoder_output() {
    let a = rec(42, "sparc \"64\"\\n", true, "9.9", "z\tz");
    let b = Architecture::from_json(&a.to_json()).unwrap();
    assert!(same(&a, &b));
}

#[test]
fn from_json_rejects_malformed() {
    assert!(Architecture::from_json("not json").is_none());
    assert!(Architecture::from_json("").is_none());
    assert!(Architecture::from_json("{}").is_none());
    assert!(Architecture::from_json("[1,2]").is_none());
}

#[test]
fn from_json_rejects_missing_field() {
    assert!(Architecture::from_json("{\"arch_id\":1}").is_none());
    assert!(
        Architecture::from_json(
            "{\"arch_id\":1,\"name\":\"x\",\"status\":true,\"version\":\"1\"}"
        )
        .is_none()
    );
}

#[test]
fn from_json_rejects_mistyped_field() {
    assert!(
        Architecture::from_json(
            "{\"arch_id\":\"1\",\"name\":\"x\",\"status\":true,\"version\":\"1\",\"putch\":\"a\"}"
        )
        .is_none()
    );
    assert!(
        Architecture::from_json(
            "{\"arch_id\":1,\"name\":\"x\",\"status\":1,\"version\":\"1\",\"putch\":\"a\"}"
        )
        .is_none()
    );
}

#[test]
fn from_json_rejects_duplicate_and_unknown_keys() {
    assert!(
        Architecture::from_json(
            "{\"arch_id\":1,\"arch_id\":2,\"name\":\"x\",\"status\":true,\"version\":\"1\",\"putch\":\"a\"}"
        )
        .is_none()
    );
    assert!(
        Architecture::from_json(
            "{\"arch_id\":1,\"name\":\"x\",\"status\":true,\"version\":\"1\",\"putch\":\"a\",\"extra\":0}"
        )
        .is_none()
    );
}

#[test]
fn from_json_rejects_trailing_text() {
    assert!(
        Architecture::from_json(
            "{\"arch_id\":1,\"name\":\"x\",\"status\":true,\"version\":\"1\",\"putch\":\"a\"} x"
        )
        .is_none()
    );
}

#[test]
fn from_json_id_bounds() {
    let big = "{\"arch_id\":2147483648,\"name\":\"x\",\"status\":true,\"version\":\"1\",\"putch\":\"a\"}";
    assert!(Architecture::from_json(big).is_none());
    let min = "{\"arch_id\":-2147483648,\"name\":\"x\",\"status\":true,\"version\":\"1\",\"putch\":\"a\"}";
    assert_eq!(Architecture::from_json(min).unwrap().arch_id, i32::MIN);
    let max = "{\"arch_id\":2147483647,\"name\":\"x\",\"status\":true,\"version\":\"1\",\"putch\":\"a\"}";
    assert_eq!(Architecture::from_json(max).unwrap().arch_id, i32::MAX);
}

#[test]
fn parse_i32_values() {
    assert_eq!(parse_i32("123"), Some(123));
    assert_eq!(parse_i32("-7"), Some(-7));
    assert_eq!(parse_i32("0"), Some(0));
    assert_eq!(parse_i32(""), None);
    assert_eq!(parse_i32("12x"), None);
    assert_eq!(parse_i32("-"), None);
    assert_eq!(parse_i32("2147483648"), None);
    assert_eq!(parse_i32("-2147483648"), Some(i32::MIN));
}
