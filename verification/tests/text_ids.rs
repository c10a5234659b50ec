use portal_api::api_error::ErrorKind;
use portal_api::ids::{parse_id, parse_match_id, parse_player_id, parse_pug_id, parse_server_id};
use portal_api::request::{bearer_token, get_request_id, header_text};
use portal_api::text::{
    decimal_string, is_all_digits, parse_i32, parse_i64, parse_u128, radix_string, second_word_of,
    str_strip_prefix, to_ascii_lowercase, trim_str,
};

const ID: &str = "0190a1b2-c3d4-7e5f-8a9b-0c1d2e3f4a5b";

#[test]
fn trim_removes_unicode_white_space() {
    assert_eq!(trim_str("  \t hello world \n"), "hello world");
    assert_eq!(trim_str("\u{3000}x\u{a0}"), "x");
    assert_eq!(trim_str("   "), "");
}

#[test]
fn integers_parse_like_std() {
    assert_eq!(parse_i64("42"), Some(42));
    assert_eq!(parse_i64("-9223372036854775808"), Some(i64::MIN));
    assert_eq!(parse_i64("9223372036854775808"), None);
    assert_eq!(parse_i64("+7"), Some(7));
    assert_eq!(parse_i64(""), None);
    assert_eq!(parse_i64("1a"), None);
    assert_eq!(parse_i32("2147483648"), None);
    assert_eq!(parse_i32("-2147483648"), Some(i32::MIN));
    assert_eq!(parse_u128("340282366920938463463374607431768211455"), Some(u128::MAX));
    assert_eq!(parse_u128("-1"), None);
}

#[test]
fn radix_and_decimal_text() {
    assert_eq!(radix_string(255, 16), "ff");
    assert_eq!(radix_string(0, 10), "0");
    assert_eq!(radix_string(4096, 16), "1000");
    assert_eq!(decimal_string(-1234), "-1234");
    assert_eq!(decimal_string(0), "0");
}

#[test]
fn lowercase_and_digits() {
    assert_eq!(to_ascii_lowercase("AbC-Ä"), "abc-Ä");
    assert!(is_all_digits("0123"));
    assert!(!is_all_digits("12a"));
    assert_eq!(str_strip_prefix("catalog:abc", "catalog:"), Some("abc".to_string()));
    assert_eq!(str_strip_prefix("demo:abc", "catalog:"), None);
    assert_eq!(second_word_of("host_workshop_map 3070244931"), "3070244931");
    assert_eq!(second_word_of("single"), "");
}

#[test]
fn header_text_accepts_visible_ascii_only() {
    assert_eq!(header_text(b"abc 123\t"), Some("abc 123\t".to_string()));
    assert_eq!(header_text(b"caf\xc3\xa9"), None);
    assert_eq!(header_text(b"line\nbreak"), None);
}

#[test]
fn request_id_defaults_to_unknown() {
    assert_eq!(get_request_id(Some(b"req-7")), "req-7");
    assert_eq!(get_request_id(None), "unknown");
    assert_eq!(get_request_id(Some(b"\xff")), "unknown");
}

#[test]
fn bearer_token_needs_the_scheme() {
    assert_eq!(bearer_token(Some(b"Bearer tok.en")), Some("tok.en".to_string()));
    assert_eq!(bearer_token(Some(b"bearer tok")), None);
    assert_eq!(bearer_token(Some(b"Basic abc")), None);
    assert_eq!(bearer_token(None), None);
}

#[test]
fn ids_parse_through_the_uuid_crate() {
    let v = parse_id(ID, "bad").unwrap();
    assert_eq!(v, 0x0190a1b2_c3d4_7e5f_8a9b_0c1d2e3f4a5bu128);
    // Upper case and the simple form parse too, as the uuid crate allows.
    assert_eq!(parse_id("0190A1B2C3D47E5F8A9B0C1D2E3F4A5B", "bad").unwrap(), v);
    let e = parse_id("not-a-uuid", "bad").unwrap_err();
    assert_eq!(e.kind, ErrorKind::BadRequest);
    assert_eq!(e.message, "bad");
}

#[test]
fn id_parsers_name_their_field() {
    assert_eq!(parse_server_id("x").unwrap_err().message, "invalid game server id: x");
    assert_eq!(parse_pug_id("x").unwrap_err().message, "invalid pug id");
    assert_eq!(parse_player_id("x").unwrap_err().message, "invalid player id");
    assert_eq!(parse_match_id("x").unwrap_err().message, "invalid match id");
    assert!(parse_pug_id(ID).is_ok());
}
