use kick_adapter::json::{compact, parse, parse_bytes, pretty, put, text, Json};

fn object(entries: Vec<(&str, Json)>) -> Json {
    Json::Object(entries.into_iter().map(|(k, v)| (k.to_string(), v)).collect())
}

#[test]
fn documents_are_read() {
    assert_eq!(parse("null"), Some(Json::Null));
    assert_eq!(parse(" true "), Some(Json::Bool(true)));
    assert_eq!(parse("18446744073709551615"), Some(Json::Unsigned(u64::MAX)));
    assert_eq!(parse("-9223372036854775808"), Some(Json::Signed(i64::MIN)));
    assert_eq!(parse("\"a\\u00e9\\n\""), Some(text("a\u{e9}\n")));
    assert_eq!(parse("[1,\"x\"]"), Some(Json::Array(vec![Json::Unsigned(1), text("x")])));
    assert_eq!(parse("{\"b\":1,\"a\":null}").unwrap().get("b"), Some(&Json::Unsigned(1)));
    assert!(matches!(parse("1.5"), Some(Json::Real(_))));
    for s in ["", "{", "nul", "{\"a\":}", "1 2", "[1,]"] {
        assert_eq!(parse(s), None);
        assert_eq!(parse_bytes(s.as_bytes()), None);
    }
    assert_eq!(parse_bytes(b"{\"id\":7}").unwrap().unsigned_at("id"), Some(7));
    assert_eq!(parse_bytes(&[b'"', 0xff, b'"']), None);
}

#[test]
fn the_last_entry_of_a_key_counts() {
    let j = parse("{\"a\":1,\"a\":2}").unwrap();
    assert_eq!(j.unsigned_at("a"), Some(2));
    let mut m: Vec<(String, Json)> = Vec::new();
    put(&mut m, "a", text("first"));
    put(&mut m, "b", text("other"));
    put(&mut m, "a", text("second"));
    let j = Json::Object(m);
    assert_eq!(j.text_at("a"), Some("second"));
    assert_eq!(compact(j), "{\"a\":\"second\",\"b\":\"other\"}");
}

#[test]
fn members_are_found() {
    let j = object(vec![("s", text("t")), ("n", Json::Signed(5)), ("m", Json::Signed(-5))]);
    assert_eq!(j.text_at("s"), Some("t"));
    assert_eq!(j.text_at("n"), None);
    assert_eq!(j.text_at("x"), None);
    assert_eq!(j.unsigned_at("n"), Some(5));
    assert_eq!(j.unsigned_at("m"), None);
    assert_eq!(j.unsigned_at("s"), None);
    assert_eq!(text("t").get("s"), None);
    assert_eq!(parse("{\"x\":1.0}").unwrap().unsigned_at("x"), None);
}

#[test]
fn documents_are_written() {
    let j = || {
        object(vec![
            ("n", Json::Signed(-1)),
            ("a", Json::Array(vec![Json::Null, Json::Bool(false), Json::Unsigned(3)])),
            ("t", text("\"q\"\n\u{1f600}")),
            ("o", object(vec![])),
        ])
    };
    assert_eq!(
        compact(j()),
        "{\"a\":[null,false,3],\"n\":-1,\"o\":{},\"t\":\"\\\"q\\\"\\n\u{1f600}\"}"
    );
    assert_eq!(
        pretty(object(vec![("k", Json::Array(vec![Json::Unsigned(1)]))])),
        "{\n  \"k\": [\n    1\n  ]\n}"
    );
}

#[test]
fn what_is_written_is_read_back() {
    let j = || {
        object(vec![
            ("a", Json::Array(vec![text(""), Json::Unsigned(u64::MAX), Json::Signed(-2)])),
            ("b", object(vec![("\u{0}\u{1f600}\\", Json::Bool(true))])),
        ])
    };
    assert_eq!(parse(&compact(j())), Some(j()));
    assert_eq!(parse(&pretty(j())), Some(j()));
}

#[test]
fn real_numbers_are_kept() {
    let s = "{\"big\":1e300,\"half\":0.5,\"wide\":36893488147419103232}";
    assert_eq!(compact(parse(s).unwrap()), "{\"big\":1e+300,\"half\":0.5,\"wide\":3.6893488147419103e+19}");
}

#[test]
fn written_real_numbers_are_read() {
    let check = |x: f64| {
        for text in [format!("[{:e}]", x), format!("[{:e}]", -x)] {
            let written = compact(parse(&text).unwrap());
            match parse(&written) {
                Some(Json::Array(items)) => assert!(matches!(items[0], Json::Real(_))),
                _ => panic!("not read: {}", written),
            }
            assert!(parse(&pretty(parse(&text).unwrap())).is_some());
        }
    };
    let top = f64::MAX.to_bits();
    for k in 0..5000 {
        check(f64::from_bits(top - k));
    }
    for e in 0..2046u64 {
        for m in [0, 1, 0x8000000000000, 0xfffffffffffff] {
            check(f64::from_bits((e << 52) | m));
        }
    }
    assert_eq!(compact(parse("1.7976931348623157e308").unwrap()), "1.7976931348623157e+308");
    assert_eq!(compact(parse("-0").unwrap()), "-0.0");
}

#[test]
fn nesting_is_limited() {
    let nested = |n: usize| "[".repeat(n) + &"]".repeat(n);
    assert!(parse(&nested(127)).is_some());
    assert_eq!(parse(&nested(128)), None);
    let deepest = parse(&nested(127)).unwrap();
    assert_eq!(compact(deepest), nested(127));
}
