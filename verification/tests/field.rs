use fimfiction_api::error::{place, Expected, Fault, InvalidValue, Malformed, Owner};
use fimfiction_api::field::{
    decode_i64, decode_optional_text, decode_text, decode_u32, decode_u64, find,
    read_optional_text, read_u32,
};
use fimfiction_api::json::as_integer;
use fimfiction_api::text::same_text;
use fimfiction_api::{Author, Chapter};
use serde_json::Value;

fn parsed(text: &str) -> Value {
    serde_json::from_str(text).unwrap()
}

fn refused(expected: Expected) -> InvalidValue {
    InvalidValue { expected }
}

#[test]
fn same_text_compares_characters() {
    assert!(same_text("", ""));
    assert!(same_text("On Hiatus", "On Hiatus"));
    assert!(same_text("caf\u{e9} \u{1f984}", "caf\u{e9} \u{1f984}"));
    assert!(!same_text("On Hiatus", "On hiatus"));
    assert!(!same_text("Teen", "Teen "));
    assert!(!same_text("", " "));
    assert!(!same_text("caf\u{e9}", "cafe"));
}

#[test]
fn integers_are_read_whole() {
    assert_eq!(as_integer(&parsed("0")), Some(0));
    assert_eq!(as_integer(&parsed("-1")), Some(-1));
    assert_eq!(as_integer(&parsed("18446744073709551615")), Some(u64::MAX as i128));
    assert_eq!(as_integer(&parsed("-9223372036854775808")), Some(i64::MIN as i128));
    assert_eq!(as_integer(&parsed("9223372036854775808")), Some(9223372036854775808));
    assert_eq!(as_integer(&parsed("18446744073709551616")), None);
    assert_eq!(as_integer(&parsed("-9223372036854775809")), None);
    assert_eq!(as_integer(&parsed("1.5")), None);
    assert_eq!(as_integer(&parsed("1e3")), None);
    assert_eq!(as_integer(&parsed("\"1\"")), None);
    assert_eq!(as_integer(&parsed("null")), None);
}

#[test]
fn plain_codecs_hold_to_their_ranges() {
    assert_eq!(decode_u32(&parsed("0")), Ok(0));
    assert_eq!(decode_u32(&parsed("4294967295")), Ok(u32::MAX));
    assert_eq!(decode_u32(&parsed("4294967296")), Err(refused(Expected::Unsigned32)));
    assert_eq!(decode_u32(&parsed("-1")), Err(refused(Expected::Unsigned32)));
    assert_eq!(decode_u32(&parsed("\"7\"")), Err(refused(Expected::Unsigned32)));
    assert_eq!(decode_u64(&parsed("18446744073709551615")), Ok(u64::MAX));
    assert_eq!(decode_u64(&parsed("-1")), Err(refused(Expected::Unsigned64)));
    assert_eq!(decode_u64(&parsed("2.5")), Err(refused(Expected::Unsigned64)));
    assert_eq!(decode_i64(&parsed("-9223372036854775808")), Ok(i64::MIN));
    assert_eq!(decode_i64(&parsed("9223372036854775807")), Ok(i64::MAX));
    assert_eq!(decode_i64(&parsed("9223372036854775808")), Err(refused(Expected::Signed64)));
    assert_eq!(decode_i64(&parsed("null")), Err(refused(Expected::Signed64)));
}

#[test]
fn text_codecs_take_strings() {
    assert_eq!(decode_text(&parsed("\"a \\\"b\\\"\"")), Ok(String::from("a \"b\"")));
    assert_eq!(decode_text(&parsed("\"\"")), Ok(String::new()));
    assert_eq!(decode_text(&parsed("null")), Err(refused(Expected::Text)));
    assert_eq!(decode_text(&parsed("1")), Err(refused(Expected::Text)));
    assert_eq!(decode_optional_text(&parsed("null")), Ok(None));
    assert_eq!(decode_optional_text(&parsed("\"x\"")), Ok(Some(String::from("x"))));
    assert_eq!(decode_optional_text(&parsed("false")), Err(refused(Expected::OptionalText)));
}

#[test]
fn members_are_found_by_their_exact_name() {
    let object = parsed(r#"{"id": 7, "Id": 8, "image": null}"#);
    assert_eq!(find(&object, Owner::Story, "id").unwrap(), &Value::from(7));
    assert_eq!(find(&object, Owner::Story, "Id").unwrap(), &Value::from(8));
    assert_eq!(
        find(&object, Owner::Author, "ID").unwrap_err().fault,
        Fault::Missing(Owner::Author, "ID")
    );
    assert_eq!(read_u32(&object, Owner::Story, "id").unwrap(), 7);
    assert_eq!(
        read_u32(&object, Owner::Story, "image").unwrap_err().fault,
        Fault::Invalid(Owner::Story, "image", Expected::Unsigned32)
    );
    assert_eq!(read_optional_text(&object, Owner::Story, "image").unwrap(), None);
    assert_eq!(read_optional_text(&object, Owner::Story, "full_image").unwrap(), None);
    assert_eq!(
        find(&Value::from(7), Owner::Chapter(2), "id").unwrap_err().fault,
        Fault::Missing(Owner::Chapter(2), "id")
    );
}

#[test]
fn a_refused_value_is_placed_in_its_member() {
    let placed: Result<u32, Malformed> = place(Ok(5), Owner::Story, "views");
    assert_eq!(placed.unwrap(), 5);
    let placed: Result<u32, Malformed> =
        place(Err(refused(Expected::Vote)), Owner::Story, "likes");
    let malformed = placed.unwrap_err();
    assert_eq!(malformed.fault, Fault::Invalid(Owner::Story, "likes", Expected::Vote));
    assert!(malformed.source.is_none());
    assert_eq!(Malformed::shape(Fault::Envelope).fault, Fault::Envelope);
}

#[test]
fn expected_values_are_named_in_words() {
    assert_eq!(Expected::Object.describe(), "an object");
    assert_eq!(Expected::List.describe(), "a list");
    assert_eq!(Expected::Text.describe(), "a string");
    assert_eq!(Expected::OptionalText.describe(), "a string or null");
    assert_eq!(Expected::Unsigned32.describe(), "an integer between 0 and 4294967295");
    assert_eq!(Expected::Unsigned64.describe(), "an integer between 0 and 18446744073709551615");
    assert_eq!(
        Expected::Signed64.describe(),
        "an integer between -9223372036854775808 and 9223372036854775807"
    );
    assert_eq!(
        Expected::Vote.describe(),
        "a negative integer or an integer between 0 and 4294967295"
    );
    assert_eq!(Expected::RatingCode.describe(), "an integer between 0 and 2");
    assert_eq!(Expected::RatingLabel.describe(), "one of \"Everyone\", \"Teen\" or \"Mature\"");
    assert_eq!(
        Expected::Status.describe(),
        "one of \"Complete\", \"Incomplete\", \"On Hiatus\" or \"Cancelled\""
    );
}

#[test]
fn authors_are_read_and_written() {
    let value = parsed(r#"{"id": 253168, "name": "Rambling Writer"}"#);
    let author = Author::from_value(&value).unwrap();
    assert_eq!(author, Author { id: 253168, name: String::from("Rambling Writer") });
    assert_eq!(author.to_value(), value);
    assert_eq!(
        serde_json::to_string(&author.to_value()).unwrap(),
        r#"{"id":253168,"name":"Rambling Writer"}"#
    );
    assert_eq!(
        Author::from_value(&parsed("[253168, \"Rambling Writer\"]")).unwrap_err().fault,
        Fault::NotObject(Owner::Author)
    );
    assert_eq!(
        Author::from_value(&parsed(r#"{"name": "x"}"#)).unwrap_err().fault,
        Fault::Missing(Owner::Author, "id")
    );
}

#[test]
fn chapters_are_read_and_written() {
    let value = parsed(
        r#"{"id": 1291292, "title": "Robbery, He Dreamed", "words": 4094, "views": 7059,
            "link": "https://example.org/2", "date_modified": -1577915443}"#,
    );
    let chapter = Chapter::from_value(&value, 1).unwrap();
    assert_eq!(
        chapter,
        Chapter {
            id: 1291292,
            title: String::from("Robbery, He Dreamed"),
            words: 4094,
            views: 7059,
            link: String::from("https://example.org/2"),
            date_modified: -1577915443,
        }
    );
    assert_eq!(chapter.to_value(), value);
    assert_eq!(
        Chapter::from_value(&parsed(r#"{"id": 1, "title": "t", "words": 1}"#), 4)
            .unwrap_err()
            .fault,
        Fault::Missing(Owner::Chapter(4), "views")
    );
    assert_eq!(
        Chapter::from_value(&Value::Null, 0).unwrap_err().fault,
        Fault::NotObject(Owner::Chapter(0))
    );
}
