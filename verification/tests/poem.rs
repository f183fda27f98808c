use poem_page::json::string_member;
use poem_page::poem::{extract_poem, parse_poem, PoemError, PoemRecord};

fn record(content: &str, title: &str, dynasty: &str, author: &str) -> PoemRecord {
    PoemRecord {
        content: content.to_string(),
        title: title.to_string(),
        dynasty: dynasty.to_string(),
        author: author.to_string(),
    }
}

const QUIET_NIGHT: &str =
    r#"{"data":{"content":"床前明月光","origin":{"title":"静夜思","dynasty":"唐","author":"李白"}}}"#;

#[test]
fn parse_poem_reads_the_four_strings() {
    let poem = parse_poem(QUIET_NIGHT.as_bytes()).unwrap();
    assert_eq!(poem, record("床前明月光", "静夜思", "唐", "李白"));
}

#[test]
fn parse_poem_ignores_other_members() {
    let body = r#"{"status":"success","data":{"id":"x","content":"a","popularity":7,
        "origin":{"title":"t","dynasty":"d","author":"w","content":["a","b"],"translate":null},
        "matchTags":["x"]},"token":"k","ipAddress":"1.2.3.4"}"#;
    assert_eq!(parse_poem(body.as_bytes()), Ok(record("a", "t", "d", "w")));
}

#[test]
fn parse_poem_accepts_empty_strings() {
    let body = r#"{"data":{"content":"","origin":{"title":"","dynasty":"","author":""}}}"#;
    let poem = parse_poem(body.as_bytes()).unwrap();
    assert_eq!(poem, record("", "", "", ""));
    assert_eq!(poem.attribution(), "——《》·");
}

#[test]
fn parse_poem_takes_the_last_of_repeated_keys() {
    let body = r#"{"data":{"content":"a","content":"b","origin":{"title":"t","dynasty":"d","author":"w"}}}"#;
    assert_eq!(parse_poem(body.as_bytes()), Ok(record("b", "t", "d", "w")));
}

#[test]
fn attribution_has_the_fixed_wording() {
    let poem = record("床前明月光", "静夜思", "唐", "李白");
    assert_eq!(poem.attribution(), "——《静夜思》唐·李白");
    let other = record("x", "Title", "Dynasty", "Author");
    assert_eq!(other.attribution(), "——《Title》Dynasty·Author");
}

#[test]
fn missing_data_is_a_missing_field() {
    assert_eq!(parse_poem(br#"{}"#), Err(PoemError::MissingField));
    assert_eq!(parse_poem(br#"{"status":"error"}"#), Err(PoemError::MissingField));
}

#[test]
fn missing_content_is_a_missing_field() {
    let body = r#"{"data":{"origin":{"title":"t","dynasty":"d","author":"w"}}}"#;
    assert_eq!(parse_poem(body.as_bytes()), Err(PoemError::MissingField));
}

#[test]
fn missing_origin_is_a_missing_field() {
    let body = r#"{"data":{"content":"a"}}"#;
    assert_eq!(parse_poem(body.as_bytes()), Err(PoemError::MissingField));
}

#[test]
fn missing_title_is_a_missing_field() {
    let body = r#"{"data":{"content":"a","origin":{"dynasty":"d","author":"w"}}}"#;
    assert_eq!(parse_poem(body.as_bytes()), Err(PoemError::MissingField));
}

#[test]
fn missing_dynasty_is_a_missing_field() {
    let body = r#"{"data":{"content":"a","origin":{"title":"t","author":"w"}}}"#;
    assert_eq!(parse_poem(body.as_bytes()), Err(PoemError::MissingField));
}

#[test]
fn missing_author_is_a_missing_field() {
    let body = r#"{"data":{"content":"a","origin":{"title":"t","dynasty":"d"}}}"#;
    assert_eq!(parse_poem(body.as_bytes()), Err(PoemError::MissingField));
}

#[test]
fn wrong_types_are_missing_fields() {
    let bodies = [
        r#"{"data":"text"}"#,
        r#"{"data":[{"content":"a"}]}"#,
        r#"{"data":{"content":1,"origin":{"title":"t","dynasty":"d","author":"w"}}}"#,
        r#"{"data":{"content":"a","origin":"o"}}"#,
        r#"{"data":{"content":"a","origin":{"title":null,"dynasty":"d","author":"w"}}}"#,
        r#"{"data":{"content":"a","origin":{"title":"t","dynasty":["d"],"author":"w"}}}"#,
        r#"{"data":{"content":"a","origin":{"title":"t","dynasty":"d","author":{"name":"w"}}}}"#,
    ];
    for body in bodies {
        assert_eq!(parse_poem(body.as_bytes()), Err(PoemError::MissingField));
    }
}

#[test]
fn malformed_json_is_invalid() {
    let bodies: [&[u8]; 7] = [
        b"",
        b"not json",
        b"{\"data\":",
        b"[1,2]",
        b"\"text\"",
        b"null",
        b"{\"data\":{}} trailing",
    ];
    for body in bodies {
        assert_eq!(parse_poem(body), Err(PoemError::InvalidJson));
    }
    assert_eq!(parse_poem(&[0xff, 0xfe]), Err(PoemError::InvalidJson));
}

#[test]
fn extract_poem_reads_a_parsed_document() {
    let doc: serde_json::Value = serde_json::from_str(QUIET_NIGHT).unwrap();
    assert_eq!(extract_poem(&doc), Ok(record("床前明月光", "静夜思", "唐", "李白")));
    let not_an_object: serde_json::Value = serde_json::from_str("[1]").unwrap();
    assert_eq!(extract_poem(&not_an_object), Err(PoemError::MissingField));
}

#[test]
fn string_member_copies_the_string_under_a_key() {
    let doc: serde_json::Value = serde_json::from_str(r#"{"a":"x","b":2,"c":{"a":"y"}}"#).unwrap();
    assert_eq!(string_member(&doc, "a"), Some("x".to_string()));
    assert_eq!(string_member(&doc, "b"), None);
    assert_eq!(string_member(&doc, "c"), None);
    assert_eq!(string_member(&doc, "d"), None);
    assert_eq!(string_member(doc.get("c").unwrap(), "a"), Some("y".to_string()));
    let text: serde_json::Value = serde_json::from_str(r#""a""#).unwrap();
    assert_eq!(string_member(&text, "a"), None);
}
