use user_service::json::encode_u32;
use user_service::json::escape_json;
use user_service::json::user_json;

#[test]
fn encodes_zero() {
    assert_eq!(encode_u32(0), "0");
}

#[test]
fn encodes_single_digits() {
    assert_eq!(encode_u32(1), "1");
    assert_eq!(encode_u32(9), "9");
}

#[test]
fn encodes_multi_digit_numbers() {
    assert_eq!(encode_u32(10), "10");
    assert_eq!(encode_u32(42), "42");
    assert_eq!(encode_u32(1000), "1000");
    assert_eq!(encode_u32(1234567890), "1234567890");
}

#[test]
fn encodes_largest_identifier() {
    assert_eq!(encode_u32(u32::MAX), "4294967295");
}

#[test]
fn escapes_nothing_in_plain_text() {
    assert_eq!(escape_json(""), "");
    assert_eq!(escape_json("Alice"), "Alice");
    assert_eq!(escape_json("a b c 123 .,;!?"), "a b c 123 .,;!?");
}

#[test]
fn escapes_quote_and_backslash() {
    assert_eq!(escape_json("a\"b"), "a\\\"b");
    assert_eq!(escape_json("a\\b"), "a\\\\b");
    assert_eq!(escape_json("\"\\"), "\\\"\\\\");
}

#[test]
fn escapes_named_control_characters() {
    assert_eq!(escape_json("\u{8}"), "\\b");
    assert_eq!(escape_json("\t"), "\\t");
    assert_eq!(escape_json("\n"), "\\n");
    assert_eq!(escape_json("\u{c}"), "\\f");
    assert_eq!(escape_json("\r"), "\\r");
    assert_eq!(escape_json("line1\nline2"), "line1\\nline2");
}

#[test]
fn escapes_other_control_characters_as_hex() {
    assert_eq!(escape_json("\u{0}"), "\\u0000");
    assert_eq!(escape_json("\u{1}"), "\\u0001");
    assert_eq!(escape_json("\u{b}"), "\\u000b");
    assert_eq!(escape_json("\u{f}"), "\\u000f");
    assert_eq!(escape_json("\u{10}"), "\\u0010");
    assert_eq!(escape_json("\u{1f}"), "\\u001f");
}

#[test]
fn leaves_unicode_text_alone() {
    assert_eq!(escape_json("héllo wörld"), "héllo wörld");
    assert_eq!(escape_json("名前"), "名前");
}

#[test]
fn serializes_a_user() {
    assert_eq!(user_json(1, "Alice"), "{\"id\":1,\"name\":\"Alice\"}");
    assert_eq!(user_json(2, "Bob"), "{\"id\":2,\"name\":\"Bob\"}");
}

#[test]
fn serializes_a_user_with_escapes() {
    assert_eq!(user_json(7, "a\"b\\c\nd"), "{\"id\":7,\"name\":\"a\\\"b\\\\c\\nd\"}");
}
