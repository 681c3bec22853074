use rust_wthisper::http::{
    is_end_of_headers, parse_request_line, parse_usize, path_only, read_header_line, response_bytes, response_head,
    text_reply, ContentType, HttpStatus, Response,
};

#[test]
fn response_head_carries_length() {
    assert_eq!(
        response_head(HttpStatus::Success, ContentType::Json, 17),
        "HTTP/1.1 200 OK\r\nContent-Type: application/json\r\nContent-Length: 17\r\nConnection: close\r\n\r\n"
    );
    assert_eq!(
        response_head(HttpStatus::Conflict, ContentType::PlainText, 0),
        "HTTP/1.1 409 Conflict\r\nContent-Type: text/plain; charset=utf-8\r\nContent-Length: 0\r\nConnection: close\r\n\r\n"
    );
}

#[test]
fn status_and_content_type_texts() {
    assert_eq!(HttpStatus::BadRequest.as_str(), "400 Bad Request");
    assert_eq!(HttpStatus::NotFound.as_str(), "404 Not Found");
    assert_eq!(HttpStatus::InternalServerError.as_str(), "500 Internal Server Error");
    assert_eq!(ContentType::Html.as_str(), "text/html; charset=utf-8");
    assert_eq!(ContentType::Wav.as_str(), "audio/wav");
    assert_eq!(ContentType::JavaScript.as_str(), "text/javascript; charset=utf-8");
    assert_eq!(ContentType::Wasm.as_str(), "application/wasm");
    assert_eq!(ContentType::OctetStream.as_str(), "application/octet-stream");
}

#[test]
fn response_bytes_are_head_then_body() {
    let r = Response { status: HttpStatus::Success, content_type: ContentType::Wav, body: vec![1, 2, 3] };
    let bytes = response_bytes(&r);
    let head = b"HTTP/1.1 200 OK\r\nContent-Type: audio/wav\r\nContent-Length: 3\r\nConnection: close\r\n\r\n";
    assert_eq!(&bytes[..head.len()], &head[..]);
    assert_eq!(&bytes[head.len()..], &[1u8, 2, 3][..]);
}

#[test]
fn text_reply_counts_utf8_bytes() {
    let r = text_reply(HttpStatus::Success, ContentType::PlainText, "h\u{e9}");
    assert_eq!(r.body, vec![b'h', 0xc3, 0xa9]);
    let bytes = response_bytes(&r);
    let text = String::from_utf8(bytes).unwrap();
    assert!(text.contains("Content-Length: 3\r\n"));
}

#[test]
fn request_line_words() {
    assert_eq!(
        parse_request_line("GET /api/status?x=1 HTTP/1.1\r\n"),
        ("GET".to_string(), "/api/status?x=1".to_string())
    );
    assert_eq!(parse_request_line("  POST   /a  "), ("POST".to_string(), "/a".to_string()));
    assert_eq!(parse_request_line("GET"), ("GET".to_string(), String::new()));
    assert_eq!(parse_request_line(""), (String::new(), String::new()));
}

#[test]
fn path_only_drops_query() {
    assert_eq!(path_only("/api/x?y=1?z"), "/api/x");
    assert_eq!(path_only("/plain"), "/plain");
}

#[test]
fn parse_usize_like_str_parse() {
    let p = |s: &str| parse_usize(&s.chars().collect::<Vec<char>>());
    assert_eq!(p("42"), Some(42));
    assert_eq!(p("+7"), Some(7));
    assert_eq!(p(""), None);
    assert_eq!(p("+"), None);
    assert_eq!(p("-1"), None);
    assert_eq!(p("1a"), None);
    assert_eq!(p("99999999999999999999999"), None);
}

#[test]
fn header_lines_set_content_length() {
    assert_eq!(read_header_line(0, "Content-Length: 12\r\n"), 12);
    assert_eq!(read_header_line(5, "Content-Length: nope\r\n"), 0);
    assert_eq!(read_header_line(5, "Host: localhost\r\n"), 5);
    assert_eq!(read_header_line(5, "content-length: 9\r\n"), 5);
    assert!(is_end_of_headers("\r\n"));
    assert!(!is_end_of_headers("\n"));
    assert!(!is_end_of_headers("X: y\r\n"));
}
