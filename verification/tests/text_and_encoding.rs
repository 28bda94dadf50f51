use rebirth::audit::{format_audit_content, format_audit_created_at};
use rebirth::encoding::{
    api_url, bearer, entities_url, fallback_id_bytes, format_uuid, js_encode_uri_component,
    new_entity_attribute_id,
};
use rebirth::json::json_string;
use rebirth::requests::{access_level_body, ids_json};
use rebirth::text::{eq_ignore_case, parse_u32, str_byte_len, to_string, trim_str, u32_to_string};

#[test]
fn trims_unicode_white_space() {
    assert_eq!(to_string(&trim_str("  a b \t\n")), "a b");
    assert_eq!(to_string(&trim_str("\u{3000}x\u{2003}")), "x");
    assert_eq!(to_string(&trim_str("   ")), "");
}

#[test]
fn compares_without_ascii_case() {
    assert!(eq_ignore_case("PUBLIC", "public"));
    assert!(eq_ignore_case("Owner View", "owner view"));
    assert!(!eq_ignore_case("public ", "public"));
}

#[test]
fn parses_u32_like_std() {
    assert_eq!(parse_u32("42"), Some(42));
    assert_eq!(parse_u32("+7"), Some(7));
    assert_eq!(parse_u32("4294967295"), Some(4294967295));
    assert_eq!(parse_u32("4294967296"), None);
    assert_eq!(parse_u32(""), None);
    assert_eq!(parse_u32("+"), None);
    assert_eq!(parse_u32("-1"), None);
    assert_eq!(parse_u32("1a"), None);
    for s in ["0", "12", "+3", "99999999999", "x", " 1"] {
        assert_eq!(parse_u32(s), s.parse::<u32>().ok());
    }
}

#[test]
fn counts_bytes_and_writes_numbers() {
    assert_eq!(str_byte_len("añ"), 3);
    assert_eq!(u32_to_string(0), "0");
    assert_eq!(u32_to_string(4294967295), "4294967295");
}

#[test]
fn json_strings_escape_quotes_and_breaks() {
    assert_eq!(json_string("a\"b\\c\nd\re"), "\"a\\\"b\\\\c\\nd\\re\"");
    assert_eq!(access_level_body("Team", "Only us"), "{\"name\":\"Team\",\"description\":\"Only us\"}");
    assert_eq!(ids_json(&vec![1, 2, 30]), "[1,2,30]");
    assert_eq!(ids_json(&vec![]), "[]");
}

#[test]
fn percent_encodes_like_encode_uri_component() {
    assert_eq!(js_encode_uri_component("a b/ä"), "a%20b%2F%C3%A4");
    assert_eq!(js_encode_uri_component("A-z_0.9!~*'()"), "A-z_0.9!~*'()");
    assert_eq!(js_encode_uri_component("?&="), "%3F%26%3D");
    assert_eq!(js_encode_uri_component(""), "");
}

#[test]
fn percent_encoding_decodes_back() {
    let text = "name=ü & co/%";
    let encoded = js_encode_uri_component(text);
    let mut bytes = Vec::new();
    let cs: Vec<char> = encoded.chars().collect();
    let mut i = 0;
    while i < cs.len() {
        if cs[i] == '%' {
            let hex: String = cs[i + 1..i + 3].iter().collect();
            bytes.push(u8::from_str_radix(&hex, 16).unwrap());
            i += 3;
        } else {
            bytes.push(cs[i] as u8);
            i += 1;
        }
    }
    assert_eq!(String::from_utf8(bytes).unwrap(), text);
}

#[test]
fn builds_request_addresses() {
    assert_eq!(api_url("/access-levels"), "http://localhost:9908/access-levels");
    assert_eq!(entities_url(2, ""), "http://localhost:9908/entities?page=2&pageSize=10");
    assert_eq!(
        entities_url(1, "blue car"),
        "http://localhost:9908/entities?page=1&pageSize=10&search=blue%20car"
    );
    assert_eq!(bearer("k1"), "Bearer k1");
}

#[test]
fn formats_uuids_with_version_and_variant() {
    let bytes: Vec<u8> = (0u8..16).collect();
    assert_eq!(format_uuid(&bytes), "00010203-0405-4607-8809-0a0b0c0d0e0f");
    let all: Vec<u8> = vec![0xff; 16];
    assert_eq!(format_uuid(&all), "ffffffff-ffff-4fff-bfff-ffffffffffff");
}

#[test]
fn fallback_ids_come_from_the_counter() {
    let bytes = fallback_id_bytes(1);
    let mut expected = 1u64.to_be_bytes().to_vec();
    expected.extend_from_slice(&1u64.wrapping_mul(0x9e37_79b9_7f4a_7c15).to_be_bytes());
    assert_eq!(bytes, expected);
    let id = new_entity_attribute_id(None, 1);
    assert_eq!(id.len(), 36);
    assert_eq!(id.as_bytes()[14], b'4');
    assert!(matches!(id.as_bytes()[19], b'8' | b'9' | b'a' | b'b'));
    let random = new_entity_attribute_id(Some(vec![0x11; 16]), 5);
    assert_eq!(random, "11111111-1111-4111-9111-111111111111");
}

#[test]
fn audit_timestamps_are_readable() {
    assert_eq!(format_audit_created_at("2024-05-01T10:20:30.123Z"), "2024-05-01 10:20:30");
    assert_eq!(format_audit_created_at("  2024-05-01T10:20:30Z "), "2024-05-01 10:20:30");
    assert_eq!(format_audit_created_at("2024-05-01T10:20:30ZZ"), "2024-05-01 10:20:30");
    assert_eq!(format_audit_created_at("   "), "");
    assert_eq!(format_audit_created_at("yesterday"), "yesterday");
}

#[test]
fn audit_content_is_pretty_printed_when_json() {
    assert_eq!(format_audit_content("{\"a\":1}"), "{\n  \"a\": 1\n}");
    assert_eq!(format_audit_content("[1,2]"), "[\n  1,\n  2\n]");
    assert_eq!(format_audit_content("not json"), "not json");
}

#[test]
fn json_string_literals_decode_to_their_text() {
    for text in ["plain", "quote \" and backslash \\", "lines\nand\rreturns", "\\n is not a line feed", "ünïcödé ✓", ""] {
        let literal = json_string(text);
        assert_eq!(serde_json::from_str::<String>(&literal).unwrap(), text);
    }
}
