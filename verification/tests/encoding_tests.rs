use user_service::b64::base64url;
use user_service::jsonenc::dec_string;
use user_service::jsonenc::delete_ack_json;
use user_service::jsonenc::insert_ack_json;
use user_service::jsonenc::string_json;
use user_service::jsonenc::user_json;
use user_service::jsonenc::users_json;
use user_service::model::User;

fn user(id: &str, first: &str, last: &str, username: &str, email: &str) -> User {
    User {
        id: id.to_string(),
        first_name: first.to_string(),
        last_name: last.to_string(),
        username: username.to_string(),
        email: email.to_string(),
    }
}

#[test]
fn base64url_matches_known_vectors() {
    assert_eq!(base64url(b""), "");
    assert_eq!(base64url(b"f"), "Zg");
    assert_eq!(base64url(b"fo"), "Zm8");
    assert_eq!(base64url(b"foo"), "Zm9v");
    assert_eq!(base64url(b"foob"), "Zm9vYg");
    assert_eq!(base64url(b"fooba"), "Zm9vYmE");
    assert_eq!(base64url(b"foobar"), "Zm9vYmFy");
}

#[test]
fn base64url_uses_the_url_safe_alphabet() {
    assert_eq!(base64url(&[0xfb, 0xff]), "-_8");
    assert_eq!(base64url(&[0xff, 0xef]), "_-8");
}

#[test]
fn dec_string_renders_decimal_numerals() {
    assert_eq!(dec_string(0), "0");
    assert_eq!(dec_string(7), "7");
    assert_eq!(dec_string(42), "42");
    assert_eq!(dec_string(1609459261), "1609459261");
    assert_eq!(dec_string(u64::MAX), "18446744073709551615");
}

#[test]
fn string_json_escapes_specials() {
    assert_eq!(string_json("plain"), "\"plain\"");
    assert_eq!(string_json("say \"hi\""), "\"say \\\"hi\\\"\"");
    assert_eq!(string_json("back\\slash"), "\"back\\\\slash\"");
    assert_eq!(string_json("line\nbreak\ttab\rret"), "\"line\\nbreak\\ttab\\rret\"");
    assert_eq!(string_json("\u{8}\u{c}"), "\"\\b\\f\"");
    assert_eq!(string_json("\u{1}\u{1f}"), "\"\\u0001\\u001f\"");
    assert_eq!(string_json("caf\u{e9}"), "\"caf\u{e9}\"");
}

#[test]
fn user_json_renders_all_five_fields_in_order() {
    let u = user("u-1", "A", "B", "ab", "a@b.com");
    assert_eq!(
        user_json(&u),
        "{\"id\":\"u-1\",\"first_name\":\"A\",\"last_name\":\"B\",\"username\":\"ab\",\"email\":\"a@b.com\"}"
    );
}

#[test]
fn users_json_renders_an_array_in_order() {
    assert_eq!(users_json(&vec![]), "[]");
    let a = user("1", "A", "A", "a", "a@x");
    let b = user("2", "B", "B", "b", "b@x");
    let joined = users_json(&vec![a, b]);
    assert!(joined.starts_with("[{\"id\":\"1\""));
    assert!(joined.contains("},{\"id\":\"2\""));
    assert!(joined.ends_with("}]"));
}

#[test]
fn ack_bodies_are_exact() {
    assert_eq!(insert_ack_json("abc"), "{\"insertedId\":\"abc\"}");
    assert_eq!(delete_ack_json(1), "{\"deletedCount\":1}");
    assert_eq!(delete_ack_json(0), "{\"deletedCount\":0}");
}
