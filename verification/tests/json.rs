use network_monitor::json::Json;

fn parse(text: &str) -> Json {
    Json::parse(text.as_bytes()).unwrap()
}

#[test]
fn scalars_are_parsed() {
    assert!(matches!(parse("null"), Json::Null));
    assert!(matches!(parse("true"), Json::Bool(true)));
    assert!(matches!(parse(" false "), Json::Bool(false)));
    assert_eq!(parse("\"NYC-1\"").as_text(), Some("NYC-1"));
    assert_eq!(parse("\"\"").as_text(), Some(""));
}

#[test]
fn unsigned_integers_have_both_readings() {
    let number = parse("12500000");
    assert_eq!(number.as_u64(), Some(12_500_000));
    assert_eq!(number.as_float_bits(), Some(12_500_000f64.to_bits()));
    let number = parse("0");
    assert_eq!(number.as_u64(), Some(0));
    assert_eq!(number.as_float_bits(), Some(0f64.to_bits()));
    let number = parse("18446744073709551615");
    assert_eq!(number.as_u64(), Some(u64::MAX));
    assert_eq!(number.as_float_bits(), Some((u64::MAX as f64).to_bits()));
}

#[test]
fn other_numbers_have_the_float_reading_only() {
    let number = parse("-7");
    assert_eq!(number.as_u64(), None);
    assert_eq!(number.as_float_bits(), Some((-7f64).to_bits()));
    let number = parse("15.5");
    assert_eq!(number.as_u64(), None);
    assert_eq!(number.as_float_bits(), Some(15.5f64.to_bits()));
    let number = parse("1.0");
    assert_eq!(number.as_u64(), None);
    assert_eq!(number.as_float_bits(), Some(1f64.to_bits()));
    let number = parse("2e3");
    assert_eq!(number.as_u64(), None);
    assert_eq!(number.as_float_bits(), Some(2000f64.to_bits()));
    let number = parse("18446744073709551616");
    assert_eq!(number.as_u64(), None);
    assert_eq!(number.as_float_bits(), Some(18446744073709551616f64.to_bits()));
}

#[test]
fn arrays_keep_their_items_in_order() {
    match parse("[1, \"two\", [3], {\"four\": 4}, null]") {
        Json::Array(items) => {
            assert_eq!(items.len(), 5);
            assert_eq!(items[0].as_u64(), Some(1));
            assert_eq!(items[1].as_text(), Some("two"));
            match &items[2] {
                Json::Array(inner) => {
                    assert_eq!(inner.len(), 1);
                    assert_eq!(inner[0].as_u64(), Some(3));
                }
                other => panic!("expected an array, got {:?}", other),
            }
            assert_eq!(items[3].get("four").unwrap().as_u64(), Some(4));
            assert!(matches!(items[4], Json::Null));
        }
        other => panic!("expected an array, got {:?}", other),
    }
}

#[test]
fn objects_keep_their_members() {
    let doc = parse("{\"server\": {\"name\": \"NYC-1\", \"id\": 7}, \"isp\": \"Acme Net\", \"ok\": true}");
    match &doc {
        Json::Object(members) => assert_eq!(members.len(), 3),
        other => panic!("expected an object, got {:?}", other),
    }
    assert_eq!(doc.get("isp").unwrap().as_text(), Some("Acme Net"));
    assert!(matches!(doc.get("ok"), Some(Json::Bool(true))));
    let server = doc.get("server").unwrap();
    assert_eq!(server.get("name").unwrap().as_text(), Some("NYC-1"));
    assert_eq!(server.get("id").unwrap().as_u64(), Some(7));
    assert!(server.get("isp").is_none());
    assert!(doc.get("name").is_none());
}

#[test]
fn empty_containers_are_parsed() {
    assert!(matches!(parse("[]"), Json::Array(items) if items.is_empty()));
    assert!(matches!(parse("{}"), Json::Object(members) if members.is_empty()));
}

#[test]
fn malformed_text_gives_the_parsers_message() {
    for text in ["", "{", "[1,]", "{\"a\" 1}", "nul", "\"open", "1 2", "{\"a\":1}}"] {
        let expected = serde_json::from_slice::<serde_json::Value>(text.as_bytes())
            .unwrap_err()
            .to_string();
        assert_eq!(Json::parse(text.as_bytes()).unwrap_err(), expected);
    }
    assert_eq!(Json::parse(b"[1,]").unwrap_err(), "trailing comma at line 1 column 4");
}

#[test]
fn text_that_is_not_utf8_is_rejected() {
    assert!(Json::parse(&[b'"', 0xff, b'"']).is_err());
}

#[test]
fn nesting_beyond_the_parsers_limit_is_rejected() {
    let deep = format!("{}{}", "[".repeat(200), "]".repeat(200));
    assert_eq!(
        Json::parse(deep.as_bytes()).unwrap_err(),
        "recursion limit exceeded at line 1 column 128"
    );
    let shallow = format!("{}{}", "[".repeat(100), "]".repeat(100));
    assert!(Json::parse(shallow.as_bytes()).is_ok());
}
