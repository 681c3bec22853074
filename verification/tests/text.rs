use rust_wthisper::body::{config_value_text, json_string_escape, parse_string_value_from_body, BodyError};
use rust_wthisper::escape::{hex_value, json_escape, url_decode, url_encode_component};
use rust_wthisper::query::{parse_query_param, sanitize_extension};

#[test]
fn json_escape_leaves_plain_text() {
    assert_eq!(json_escape("hello world"), "hello world");
}

#[test]
fn json_escape_quotes_backslashes_and_controls() {
    assert_eq!(json_escape("a\"b\\c"), "a\\\"b\\\\c");
    assert_eq!(json_escape("line\nnext\r\ttab"), "line\\nnext\\r\\ttab");
    assert_eq!(json_escape("\u{1}x\u{7f}"), "\\u0001x\\u007f");
    assert_eq!(json_escape("caf\u{e9}"), "caf\u{e9}");
}

#[test]
fn hex_value_reads_both_cases() {
    assert_eq!(hex_value(b'0'), Some(0));
    assert_eq!(hex_value(b'9'), Some(9));
    assert_eq!(hex_value(b'a'), Some(10));
    assert_eq!(hex_value(b'F'), Some(15));
    assert_eq!(hex_value(b'g'), None);
}

#[test]
fn url_decode_handles_plus_and_percent() {
    assert_eq!(url_decode("a+b%41c"), "a bAc");
    assert_eq!(url_decode("100%"), "100%");
    assert_eq!(url_decode("%zz"), "%zz");
    assert_eq!(url_decode("%4"), "%4");
}

#[test]
fn url_decode_turns_each_byte_into_a_char() {
    assert_eq!(url_decode("%C3%A9"), "\u{c3}\u{a9}");
}

#[test]
fn url_encode_component_keeps_unreserved() {
    assert_eq!(url_encode_component("Az09-_.~"), "Az09-_.~");
    assert_eq!(url_encode_component("a b/c&d"), "a%20b%2Fc%26d");
    assert_eq!(url_encode_component("\u{e9}"), "%C3%A9");
}

#[test]
fn url_round_trip_on_ascii_text() {
    let text = "Hello, world & friends = 100% +ok?";
    assert_eq!(url_decode(&url_encode_component(text)), text);
}

#[test]
fn parse_string_value_reads_model() {
    assert_eq!(
        parse_string_value_from_body("  {\"model\":\"base.en\"}  ", "model"),
        Ok("base.en".to_string())
    );
}

#[test]
fn parse_string_value_round_trips_escaped_text() {
    let value = "say \"hi\" \\ bye";
    let body = format!("{{\"model\":\"{}\"}}", json_string_escape(value));
    assert_eq!(parse_string_value_from_body(&body, "model"), Ok(value.to_string()));
}

#[test]
fn parse_string_value_errors() {
    assert_eq!(parse_string_value_from_body("   ", "model"), Err(BodyError::EmptyBody));
    assert_eq!(parse_string_value_from_body("{\"other\":\"x\"}", "model"), Err(BodyError::InvalidJson));
    assert_eq!(parse_string_value_from_body("{\"model\":\"}", "model"), Err(BodyError::InvalidJson));
    assert_eq!(BodyError::EmptyBody.message(), "empty request body");
    assert_eq!(BodyError::InvalidJson.message(), "invalid JSON format");
}

#[test]
fn json_string_escape_escapes_backslash_then_quote() {
    assert_eq!(json_string_escape("a\\b\"c"), "a\\\\b\\\"c");
}

#[test]
fn config_value_text_splits_body() {
    let t = config_value_text(" {\"threshold\": 0.02 } ", "threshold").unwrap();
    assert_eq!(t.whole, "{\"threshold\": 0.02 }");
    assert_eq!(t.inner, Some("0.02".to_string()));
    let bare = config_value_text("0.5", "threshold").unwrap();
    assert_eq!(bare.whole, "0.5");
    assert_eq!(bare.inner, None);
    assert!(matches!(config_value_text(" \n", "threshold"), Err(BodyError::EmptyBody)));
}

#[test]
fn parse_query_param_finds_first_match() {
    assert_eq!(parse_query_param("/api/x?ext=mp3&text=a+b", "ext"), Some("mp3".to_string()));
    assert_eq!(parse_query_param("/api/x?ext=mp3&text=a+b", "text"), Some("a b".to_string()));
    assert_eq!(parse_query_param("/api/x?flag&ext=wav", "flag"), Some(String::new()));
    assert_eq!(parse_query_param("/api/x?ext=a&ext=b", "ext"), Some("a".to_string()));
    assert_eq!(parse_query_param("/api/x", "ext"), None);
    assert_eq!(parse_query_param("/api/x?other=1", "ext"), None);
}

#[test]
fn sanitize_extension_keeps_eight_lowercase_alnum() {
    assert_eq!(sanitize_extension("M.P-3"), "mp3");
    assert_eq!(sanitize_extension("ABCDEFGHIJ"), "abcdefgh");
    assert_eq!(sanitize_extension("..."), "");
}

#[test]
fn sanitizing_twice_changes_nothing() {
    for raw in ["M.P-3", "ABCDEFGHIJ", "", "w\u{e9}av", "ok"] {
        let once = sanitize_extension(raw);
        assert_eq!(sanitize_extension(&once), once);
    }
}

#[test]
fn escaped_text_reads_back() {
    let text = "q\"b\\n\nr\rt\tc\u{1}d\u{9f}";
    let escaped = json_escape(text);
    assert_eq!(escaped, "q\\\"b\\\\n\\nr\\rt\\tc\\u0001d\\u009f");
    let mut decoded = String::new();
    let chars: Vec<char> = escaped.chars().collect();
    let mut i = 0;
    while i < chars.len() {
        if chars[i] == '\\' {
            match chars[i + 1] {
                '"' => decoded.push('"'),
                '\\' => decoded.push('\\'),
                'n' => decoded.push('\n'),
                'r' => decoded.push('\r'),
                't' => decoded.push('\t'),
                'u' => {
                    let hex: String = chars[i + 2..i + 6].iter().collect();
                    decoded.push(char::from_u32(u32::from_str_radix(&hex, 16).unwrap()).unwrap());
                    i += 4;
                }
                other => panic!("unexpected escape {other}"),
            }
            i += 2;
        } else {
            decoded.push(chars[i]);
            i += 1;
        }
    }
    assert_eq!(decoded, text);
}
