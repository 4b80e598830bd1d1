use tilejson::json::{lookup, render};
use tilejson::{Json, Member};

fn text(value: &str) -> Json {
    Json::Text(value.to_owned())
}

fn member(key: &str, value: Json) -> Member {
    Member { key: key.to_owned(), value }
}

#[test]
fn render_writes_each_kind_of_value() {
    assert_eq!(render(&Json::Null), "null");
    assert_eq!(render(&Json::Bool(true)), "true");
    assert_eq!(render(&Json::Bool(false)), "false");
    assert_eq!(render(&Json::Number("-12.5e3".to_owned())), "-12.5e3");
    assert_eq!(render(&text("")), "\"\"");
    assert_eq!(render(&text("plain")), "\"plain\"");
    assert_eq!(render(&Json::List(Vec::new())), "[]");
    assert_eq!(render(&Json::Object(Vec::new())), "{}");
}

#[test]
fn render_puts_commas_between_items_and_members() {
    let list = Json::List(vec![Json::Null, Json::Bool(true), Json::Number("3".to_owned())]);
    assert_eq!(render(&list), "[null,true,3]");
    assert_eq!(render(&Json::List(vec![text("one")])), "[\"one\"]");
    let object = Json::Object(vec![member("a", Json::Number("1".to_owned())), member("b", text("two"))]);
    assert_eq!(render(&object), "{\"a\":1,\"b\":\"two\"}");
    assert_eq!(render(&Json::Object(vec![member("only", Json::Null)])), "{\"only\":null}");
}

#[test]
fn render_goes_into_nested_values() {
    let tree = Json::Object(vec![
        member("list", Json::List(vec![Json::List(Vec::new()), Json::Object(Vec::new()), Json::List(vec![text("x")])])),
        member("object", Json::Object(vec![member("in\"ner", Json::List(vec![Json::Bool(false)]))])),
    ]);
    assert_eq!(render(&tree), r#"{"list":[[],{},["x"]],"object":{"in\"ner":[false]}}"#);
}

#[test]
fn render_agrees_with_the_json_writer() {
    let tree = Json::List(vec![
        Json::Null,
        Json::Bool(true),
        text("a \"quoted\" \\ text\n"),
        Json::List(vec![text("x"), Json::List(Vec::new())]),
    ]);
    let value: serde_json::Value = serde_json::from_str(&render(&tree)).unwrap();
    assert_eq!(serde_json::to_string(&value).unwrap(), render(&tree));
}

#[test]
fn strings_are_escaped() {
    assert_eq!(render(&text("\"")), r#""\"""#);
    assert_eq!(render(&text("\\")), r#""\\""#);
    assert_eq!(render(&text("/")), r#""/""#);
    assert_eq!(render(&text("\u{8}\t\n\u{c}\r")), r#""\b\t\n\f\r""#);
    assert_eq!(render(&text("\u{0}\u{1}\u{7}\u{b}\u{e}\u{f}")), r#""\u0000\u0001\u0007\u000b\u000e\u000f""#);
    assert_eq!(render(&text("\u{10}\u{1a}\u{1b}\u{1f}")), r#""\u0010\u001a\u001b\u001f""#);
    assert_eq!(render(&text(" \u{7f}\u{80}\u{e9}\u{2028}\u{1f5fa}")), "\" \u{7f}\u{80}\u{e9}\u{2028}\u{1f5fa}\"");
    assert_eq!(render(&text("a\"b\\c\nd")), r#""a\"b\\c\nd""#);
}

#[test]
fn every_control_character_has_its_escape() {
    for code in 0u32..0x20 {
        let c = char::from_u32(code).unwrap();
        let expected = match c {
            '\u{8}' => "\\b".to_owned(),
            '\t' => "\\t".to_owned(),
            '\n' => "\\n".to_owned(),
            '\u{c}' => "\\f".to_owned(),
            '\r' => "\\r".to_owned(),
            _ => format!("\\u00{:02x}", code),
        };
        assert_eq!(render(&Json::Text(c.to_string())), format!("\"{}\"", expected));
    }
    for code in 0x20u32..0x100 {
        let c = char::from_u32(code).unwrap();
        let expected = match c {
            '"' => "\\\"".to_owned(),
            '\\' => "\\\\".to_owned(),
            _ => c.to_string(),
        };
        assert_eq!(render(&Json::Text(c.to_string())), format!("\"{}\"", expected));
    }
}

#[test]
fn keys_are_escaped_as_strings_are() {
    let object = Json::Object(vec![member("a\"b", Json::Null), member("\n", Json::Null)]);
    assert_eq!(render(&object), r#"{"a\"b":null,"\n":null}"#);
}

#[test]
fn lookup_finds_the_last_member_with_the_key() {
    let members = vec![
        member("a", Json::Number("1".to_owned())),
        member("b", Json::Number("2".to_owned())),
        member("a", Json::Number("3".to_owned())),
    ];
    assert_eq!(lookup(&members, "a"), Some(&Json::Number("3".to_owned())));
    assert_eq!(lookup(&members, "b"), Some(&Json::Number("2".to_owned())));
    assert_eq!(lookup(&members, "c"), None);
    assert_eq!(lookup(&members, ""), None);
    assert_eq!(lookup(&members, "A"), None);
    assert_eq!(lookup(&Vec::new(), "a"), None);
}
