//! HTTP framing: the request line, the headers the server reads, the routes it serves, and
//! the bytes of its responses.

use vstd::prelude::*;
use vstd::string::StringSliceAdditionalSpecFns;
use vstd::utf8::encode_utf8;
use crate::chars::{chars_of, first_index, find_char, is_ws, is_whitespace_char, has_prefix, matches_at, string_from_chars, trim, trim_chars, trim_start};
use crate::json::{decimal, push_chars, decimal_chars};

verus! {

/// The status lines the server answers with.
#[derive(Clone, Copy, Debug, PartialEq, Eq, Structural)]
pub enum HttpStatus {
    Success,
    BadRequest,
    NotFound,
    Conflict,
    InternalServerError,
}

pub open spec fn status_text(s: HttpStatus) -> Seq<char> {
    match s {
        HttpStatus::Success => "200 OK"@,
        HttpStatus::BadRequest => "400 Bad Request"@,
        HttpStatus::NotFound => "404 Not Found"@,
        HttpStatus::Conflict => "409 Conflict"@,
        HttpStatus::InternalServerError => "500 Internal Server Error"@,
    }
}

impl HttpStatus {
    /// The status as written in the status line.
    pub fn as_str(self) -> (r: &'static str)
        ensures
            r@ == status_text(self),
    {
        match self {
            HttpStatus::Success => "200 OK",
            HttpStatus::BadRequest => "400 Bad Request",
            HttpStatus::NotFound => "404 Not Found",
            HttpStatus::Conflict => "409 Conflict",
            HttpStatus::InternalServerError => "500 Internal Server Error",
        }
    }
}

/// The content types the server answers with.
#[derive(Clone, Copy, Debug, PartialEq, Eq, Structural)]
pub enum ContentType {
    Html,
    Json,
    PlainText,
    Wav,
    JavaScript,
    Wasm,
    OctetStream,
}

pub open spec fn content_type_text(c: ContentType) -> Seq<char> {
    match c {
        ContentType::Html => "text/html; charset=utf-8"@,
        ContentType::Json => "application/json"@,
        ContentType::PlainText => "text/plain; charset=utf-8"@,
        ContentType::Wav => "audio/wav"@,
        ContentType::JavaScript => "text/javascript; charset=utf-8"@,
        ContentType::Wasm => "application/wasm"@,
        ContentType::OctetStream => "application/octet-stream"@,
    }
}

impl ContentType {
    /// The `Content-Type` header value.
    pub fn as_str(self) -> (r: &'static str)
        ensures
            r@ == content_type_text(self),
    {
        match self {
            ContentType::Html => "text/html; charset=utf-8",
            ContentType::Json => "application/json",
            ContentType::PlainText => "text/plain; charset=utf-8",
            ContentType::Wav => "audio/wav",
            ContentType::JavaScript => "text/javascript; charset=utf-8",
            ContentType::Wasm => "application/wasm",
            ContentType::OctetStream => "application/octet-stream",
        }
    }
}

/// A complete answer: status, content type and body bytes.
pub struct Response {
    pub status: HttpStatus,
    pub content_type: ContentType,
    pub body: Vec<u8>,
}

impl Response {
    pub open spec fn view(&self) -> (HttpStatus, ContentType, Seq<u8>) {
        (self.status, self.content_type, self.body@)
    }
}

/// The header block of a response whose body is `len` bytes long.
pub open spec fn response_head_spec(status: HttpStatus, content_type: ContentType, len: nat) -> Seq<char> {
    "HTTP/1.1 "@ + status_text(status) + "\r\nContent-Type: "@ + content_type_text(content_type)
        + "\r\nContent-Length: "@ + decimal(len) + "\r\nConnection: close\r\n\r\n"@
}

/// The header block of a response whose body is `len` bytes long; the connection is closed
/// after it.
pub fn response_head(status: HttpStatus, content_type: ContentType, len: usize) -> (r: String)
    ensures
        r@ == response_head_spec(status, content_type, len as nat),
{
    let mut out: Vec<char> = Vec::new();
    let a = chars_of("HTTP/1.1 ");
    push_chars(&mut out, a.as_slice());
    let b = chars_of(status.as_str());
    push_chars(&mut out, b.as_slice());
    let c = chars_of("\r\nContent-Type: ");
    push_chars(&mut out, c.as_slice());
    let d = chars_of(content_type.as_str());
    push_chars(&mut out, d.as_slice());
    let e = chars_of("\r\nContent-Length: ");
    push_chars(&mut out, e.as_slice());
    let f = decimal_chars(len as u64);
    push_chars(&mut out, f.as_slice());
    let g = chars_of("\r\nConnection: close\r\n\r\n");
    push_chars(&mut out, g.as_slice());
    assert(out@ =~= response_head_spec(status, content_type, len as nat));
    string_from_chars(out.as_slice())
}

/// What goes on the wire for a response.
pub open spec fn response_bytes_spec(r: (HttpStatus, ContentType, Seq<u8>)) -> Seq<u8> {
    encode_utf8(response_head_spec(r.0, r.1, r.2.len())) + r.2
}

/// The bytes of a response: its header block, whose `Content-Length` is the length of the
/// body, then the body.
pub fn response_bytes(resp: &Response) -> (r: Vec<u8>)
    ensures
        r@ == response_bytes_spec(resp.view()),
{
    let head = response_head(resp.status, resp.content_type, resp.body.len());
    let mut out = vstd::slice::slice_to_vec(head.as_str().as_bytes());
    let mut i: usize = 0;
    let ghost start = out@;
    while i < resp.body.len()
        invariant
            i <= resp.body@.len(),
            out@ == start + resp.body@.subrange(0, i as int),
        decreases resp.body@.len() - i,
    {
        out.push(resp.body[i]);
        i = i + 1;
    }
    assert(resp.body@.subrange(0, resp.body@.len() as int) =~= resp.body@);
    out
}

/// A response with a text body, sent as UTF-8.
pub open spec fn text_response(status: HttpStatus, content_type: ContentType, text: Seq<char>) -> (HttpStatus, ContentType, Seq<u8>) {
    (status, content_type, encode_utf8(text))
}

/// A response with a text body.
pub fn text_reply(status: HttpStatus, content_type: ContentType, text: &str) -> (r: Response)
    ensures
        r.view() == text_response(status, content_type, text@),
{
    Response { status, content_type, body: vstd::slice::slice_to_vec(text.as_bytes()) }
}

/// Index of the first white-space character of `s`, or its length.
pub open spec fn word_end(s: Seq<char>) -> int
    decreases s.len(),
{
    if s.len() == 0 || is_ws(s[0]) {
        0
    } else {
        1 + word_end(s.drop_first())
    }
}

proof fn lemma_word_end(s: Seq<char>)
    ensures
        0 <= word_end(s) <= s.len(),
        word_end(s) < s.len() ==> is_ws(s[word_end(s)]),
        forall|j: int| 0 <= j < word_end(s) ==> !is_ws(#[trigger] s[j]),
    decreases s.len(),
{
    if s.len() > 0 && !is_ws(s[0]) {
        lemma_word_end(s.drop_first());
        assert forall|j: int| 0 <= j < word_end(s) implies !is_ws(#[trigger] s[j]) by {
            if j > 0 {
                assert(s[j] == s.drop_first()[j - 1]);
            }
        }
    }
}

/// The first white-space-separated word of `s` (empty when there is none).
pub open spec fn first_word(s: Seq<char>) -> Seq<char> {
    let t = trim_start(s);
    t.take(word_end(t))
}

/// What follows the first word of `s`.
pub open spec fn after_first_word(s: Seq<char>) -> Seq<char> {
    let t = trim_start(s);
    t.skip(word_end(t))
}

/// Start and end of the first word of `s[from..]`.
fn word_bounds(s: &[char], from: usize) -> (r: (usize, usize))
    requires
        from <= s@.len(),
    ensures
        from <= r.0 <= r.1 <= s@.len(),
        s@.subrange(r.0 as int, r.1 as int) == first_word(s@.subrange(from as int, s@.len() as int)),
        s@.subrange(r.1 as int, s@.len() as int) == after_first_word(s@.subrange(from as int, s@.len() as int)),
{
    let n = s.len();
    let mut a = from;
    while a < n && is_whitespace_char(s[a])
        invariant
            from <= a <= n,
            n == s@.len(),
            trim_start(s@.subrange(from as int, n as int)) == trim_start(s@.subrange(a as int, n as int)),
        decreases n - a,
    {
        assert(s@.subrange(a as int, n as int).drop_first() =~= s@.subrange(a + 1, n as int));
        a = a + 1;
    }
    let ghost t = s@.subrange(a as int, n as int);
    assert(trim_start(t) == t);
    let mut b = a;
    while b < n && !is_whitespace_char(s[b])
        invariant
            a <= b <= n,
            n == s@.len(),
            t == s@.subrange(a as int, n as int),
            forall|j: int| a <= j < b ==> !is_ws(#[trigger] s@[j]),
        decreases n - b,
    {
        b = b + 1;
    }
    proof {
        lemma_word_end(t);
        let k = word_end(t);
        if k < b - a {
            assert(t[k] == s@[a + k]);
        } else if k > b - a {
            assert(t[b - a] == s@[b as int]);
        }
        assert(k == b - a);
        assert(t.take(k) =~= s@.subrange(a as int, b as int));
        assert(t.skip(k) =~= s@.subrange(b as int, n as int));
    }
    (a, b)
}

/// Method and path of a request line: its first two words, each empty when missing.
pub fn parse_request_line(line: &str) -> (r: (String, String))
    ensures
        r.0@ == first_word(line@),
        r.1@ == first_word(after_first_word(line@)),
{
    let s = chars_of(line);
    let n = s.len();
    assert(s@.subrange(0, n as int) =~= s@);
    let (a, b) = word_bounds(s.as_slice(), 0);
    let (c, d) = word_bounds(s.as_slice(), b);
    let method = crate::chars::copy_range(s.as_slice(), a, b);
    let path = crate::chars::copy_range(s.as_slice(), c, d);
    (string_from_chars(method.as_slice()), string_from_chars(path.as_slice()))
}

/// The part of a request path before its first `?`.
pub open spec fn path_only_spec(path: Seq<char>) -> Seq<char> {
    let k = first_index(path, '?');
    if k < 0 {
        path
    } else {
        path.take(k)
    }
}

/// The request path without its query string.
pub fn path_only(path: &str) -> (r: String)
    ensures
        r@ == path_only_spec(path@),
{
    let s = chars_of(path);
    let n = s.len();
    assert(s@.subrange(0, n as int) =~= s@);
    let end = match find_char(s.as_slice(), 0, n, '?') {
        Some(k) => k,
        None => n,
    };
    let v = crate::chars::copy_range(s.as_slice(), 0, end);
    proof {
        crate::chars::lemma_first_index(s@, '?');
        if end < n {
            assert(v@ =~= s@.take(end as int));
        } else {
            assert(v@ =~= s@);
        }
    }
    string_from_chars(v.as_slice())
}

/// Value of a string of ASCII decimal digits.
pub open spec fn digits_value(s: Seq<char>) -> nat
    decreases s.len(),
{
    if s.len() == 0 {
        0
    } else {
        digits_value(s.drop_last()) * 10 + ((s.last() as u32) - 48) as nat
    }
}

pub open spec fn all_digits(s: Seq<char>) -> bool {
    forall|i: int| 0 <= i < s.len() ==> '0' <= #[trigger] s[i] && s[i] <= '9'
}

/// `usize::from_str`: an optional `+`, then at least one decimal digit, with a value that
/// fits in `usize`.
pub open spec fn parse_usize_spec(s: Seq<char>) -> Option<nat> {
    let d = if s.len() > 0 && s[0] == '+' {
        s.drop_first()
    } else {
        s
    };
    if d.len() > 0 && all_digits(d) && digits_value(d) <= usize::MAX {
        Some(digits_value(d))
    } else {
        None
    }
}

/// Reads a decimal `usize` as `str::parse` does.
pub fn parse_usize(s: &[char]) -> (r: Option<usize>)
    ensures
        match r {
            Some(v) => parse_usize_spec(s@) == Some(v as nat),
            None => parse_usize_spec(s@) is None,
        },
{
    let n = s.len();
    let start: usize = if n > 0 && s[0] == '+' { 1 } else { 0 };
    let ghost d = s@.subrange(start as int, n as int);
    assert(d =~= if s@.len() > 0 && s@[0] == '+' { s@.drop_first() } else { s@ });
    if start == n {
        return None;
    }
    let mut value: usize = 0;
    let mut i = start;
    while i < n
        invariant
            start <= i <= n,
            n == s@.len(),
            d == s@.subrange(start as int, n as int),
            d == (if s@.len() > 0 && s@[0] == '+' { s@.drop_first() } else { s@ }),
            d.len() > 0,
            all_digits(s@.subrange(start as int, i as int)),
            value as nat == digits_value(s@.subrange(start as int, i as int)),
        decreases n - i,
    {
        let c = s[i];
        let ghost prefix = s@.subrange(start as int, i + 1);
        assert(prefix.drop_last() =~= s@.subrange(start as int, i as int));
        if !('0' <= c && c <= '9') {
            assert(d[i - start] == c);
            assert(!all_digits(d));
            return None;
        }
        let digit = (c as u32 - 48) as usize;
        if value > (usize::MAX - digit) / 10 {
            proof {
                assert(d.subrange(0, i + 1 - start) =~= prefix);
                assert(digits_value(prefix) == value * 10 + digit);
                assert(value * 10 + digit > usize::MAX) by (nonlinear_arith)
                    requires value > (usize::MAX - digit) / 10, digit <= 9;
                if all_digits(d) {
                    lemma_digits_monotone(d, (i + 1 - start) as int);
                }
            }
            return None;
        }
        assert(value * 10 + digit <= usize::MAX) by (nonlinear_arith)
            requires value <= (usize::MAX - digit) / 10, digit <= 9;
        value = value * 10 + digit;
        assert(all_digits(prefix)) by {
            assert forall|j: int| 0 <= j < prefix.len() implies '0' <= #[trigger] prefix[j] && prefix[j] <= '9' by {
                if j < prefix.len() - 1 {
                    assert(prefix[j] == s@.subrange(start as int, i as int)[j]);
                }
            }
        }
        i = i + 1;
    }
    assert(s@.subrange(start as int, n as int) == d);
    Some(value)
}

proof fn lemma_digits_monotone(d: Seq<char>, k: int)
    requires
        0 <= k <= d.len(),
        all_digits(d),
    ensures
        digits_value(d.subrange(0, k)) <= digits_value(d),
    decreases d.len(),
{
    if k < d.len() {
        assert(d.drop_last().subrange(0, k) =~= d.subrange(0, k));
        assert(all_digits(d.drop_last())) by {
            assert forall|j: int| 0 <= j < d.drop_last().len() implies '0' <= #[trigger] d.drop_last()[j] && d.drop_last()[j] <= '9' by {
                assert(d.drop_last()[j] == d[j]);
            }
        }
        lemma_digits_monotone(d.drop_last(), k);
    } else {
        assert(d.subrange(0, k) =~= d);
    }
}

/// How a header line affects the body length the server reads: a `Content-Length:` line
/// sets it (to 0 when its value does not parse), any other line leaves it.
pub open spec fn content_length_after(current: nat, line: Seq<char>) -> nat {
    let p = "Content-Length:"@;
    if has_prefix(line, p) {
        match parse_usize_spec(trim(line.skip(p.len() as int))) {
            Some(v) => v,
            None => 0,
        }
    } else {
        current
    }
}

/// Reads one header line: returns the body length in force after it.
pub fn read_header_line(current: usize, line: &str) -> (r: usize)
    ensures
        r as nat == content_length_after(current as nat, line@),
{
    let s = chars_of(line);
    let p = chars_of("Content-Length:");
    if !matches_at(s.as_slice(), 0, p.as_slice()) {
        assert(s@.subrange(0, p@.len() as int) == s@.take(p@.len() as int));
        return current;
    }
    assert(s@.subrange(0, p@.len() as int) == s@.take(p@.len() as int));
    let rest = crate::chars::copy_range(s.as_slice(), p.len(), s.len());
    assert(rest@ =~= s@.skip(p@.len() as int));
    let value = trim_chars(rest.as_slice());
    match parse_usize(value.as_slice()) {
        Some(v) => v,
        None => 0,
    }
}

/// Whether a header line ends the header block.
pub fn is_end_of_headers(line: &str) -> (r: bool)
    ensures
        r == (line@ == "\r\n"@),
{
    let s = chars_of(line);
    let e = chars_of("\r\n");
    let r = s.len() == e.len() && matches_at(s.as_slice(), 0, e.as_slice());
    proof {
        if s@.len() == e@.len() {
            assert(s@.subrange(0, e@.len() as int) =~= s@);
        }
    }
    r
}

} // verus!
