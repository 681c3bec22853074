//! JSON string escaping and URL percent-encoding, as the server and the page use them.

use vstd::prelude::*;
use crate::chars::{chars_of, string_from_chars};
use vstd::string::StringSliceAdditionalSpecFns;
use vstd::utf8::{encode_utf8, is_ascii_chars, is_ascii_chars_encode_utf8};

verus! {

/// `char::is_control`: the general category `Cc`.
pub open spec fn is_control(c: char) -> bool {
    (c as u32) <= 0x1f || (0x7f <= (c as u32) && (c as u32) <= 0x9f)
}

/// Lower-case hex digit of `d` (`d < 16`).
pub open spec fn hex_lower(d: int) -> char {
    if d < 10 {
        (48 + d) as char
    } else {
        (87 + d) as char
    }
}

/// Upper-case hex digit of `d` (`d < 16`).
pub open spec fn hex_upper(d: int) -> char {
    if d < 10 {
        (48 + d) as char
    } else {
        (55 + d) as char
    }
}

/// How the server's JSON writer spells one character inside a string literal.
pub open spec fn json_escape_char(c: char) -> Seq<char> {
    if c == '"' {
        seq!['\\', '"']
    } else if c == '\\' {
        seq!['\\', '\\']
    } else if c == '\n' {
        seq!['\\', 'n']
    } else if c == '\r' {
        seq!['\\', 'r']
    } else if c == '\t' {
        seq!['\\', 't']
    } else if is_control(c) {
        let u = c as u32 as int;
        seq![
            '\\',
            'u',
            hex_lower(u / 4096),
            hex_lower((u / 256) % 16),
            hex_lower((u / 16) % 16),
            hex_lower(u % 16),
        ]
    } else {
        seq![c]
    }
}

/// The JSON string-literal body for `s`.
pub open spec fn json_escape_spec(s: Seq<char>) -> Seq<char>
    decreases s.len(),
{
    if s.len() == 0 {
        Seq::empty()
    } else {
        json_escape_char(s[0]) + json_escape_spec(s.drop_first())
    }
}

/// The value of a JSON hex digit (either case).
pub open spec fn json_hex_value(c: char) -> Option<int> {
    if '0' <= c && c <= '9' {
        Some(c as int - 48)
    } else if 'a' <= c && c <= 'f' {
        Some(c as int - 87)
    } else if 'A' <= c && c <= 'F' {
        Some(c as int - 55)
    } else {
        None
    }
}

/// The character a JSON short escape `\e` stands for.
pub open spec fn json_short_escape(e: char) -> Option<char> {
    if e == '"' {
        Some('"')
    } else if e == '\\' {
        Some('\\')
    } else if e == '/' {
        Some('/')
    } else if e == 'b' {
        Some('\u{8}')
    } else if e == 'f' {
        Some('\u{c}')
    } else if e == 'n' {
        Some('\n')
    } else if e == 'r' {
        Some('\r')
    } else if e == 't' {
        Some('\t')
    } else {
        None
    }
}

/// `c` in front of a decoded remainder.
pub open spec fn prepend(c: char, r: Option<Seq<char>>) -> Option<Seq<char>> {
    match r {
        Some(t) => Some(seq![c] + t),
        None => None,
    }
}

/// What a JSON reader makes of the characters between the quotes of a string literal
/// (RFC 8259): short escapes, `\uXXXX` escapes outside the surrogate range (surrogate
/// pairs are not read here), and any other character but `"`, `\` and U+0000..U+001F as
/// itself; `None` when the text is not a valid string body.
pub open spec fn json_unescape(s: Seq<char>) -> Option<Seq<char>>
    decreases s.len(),
{
    if s.len() == 0 {
        Some(Seq::empty())
    } else if s[0] == '\\' {
        if s.len() < 2 {
            None
        } else {
            match json_short_escape(s[1]) {
                Some(c) => prepend(c, json_unescape(s.skip(2))),
                None => if s[1] == 'u' && s.len() >= 6 && json_hex_value(s[2]) is Some
                    && json_hex_value(s[3]) is Some && json_hex_value(s[4]) is Some
                    && json_hex_value(s[5]) is Some {
                    let v = json_hex_value(s[2])->0 * 4096 + json_hex_value(s[3])->0 * 256
                        + json_hex_value(s[4])->0 * 16 + json_hex_value(s[5])->0;
                    if 0xd800 <= v && v <= 0xdfff {
                        None
                    } else {
                        prepend(v as char, json_unescape(s.skip(6)))
                    }
                } else {
                    None
                },
            }
        }
    } else if s[0] == '"' || (s[0] as u32) < 0x20 {
        None
    } else {
        prepend(s[0], json_unescape(s.drop_first()))
    }
}

proof fn lemma_hex_lower_value(d: int)
    requires
        0 <= d < 16,
    ensures
        json_hex_value(hex_lower(d)) == Some(d),
{
}

proof fn lemma_unescape_token(c: char, x: Seq<char>)
    ensures
        json_unescape(json_escape_char(c) + x) == prepend(c, json_unescape(x)),
{
    let t = json_escape_char(c);
    let s = t + x;
    if c == '"' || c == '\\' || c == '\n' || c == '\r' || c == '\t' {
        assert(s[0] == '\\' && s[1] == t[1]);
        assert(s.skip(2) =~= x);
    } else if is_control(c) {
        let u = c as u32 as int;
        assert(u <= 0x9f);
        lemma_hex_lower_value(u / 4096);
        lemma_hex_lower_value((u / 256) % 16);
        lemma_hex_lower_value((u / 16) % 16);
        lemma_hex_lower_value(u % 16);
        assert(s[0] == '\\' && s[1] == 'u');
        assert(s[2] == t[2] && s[3] == t[3] && s[4] == t[4] && s[5] == t[5]);
        assert((u / 4096) * 4096 + ((u / 256) % 16) * 256 + ((u / 16) % 16) * 16 + u % 16 == u);
        assert((u as char) == c);
        assert(s.skip(6) =~= x);
    } else {
        assert(s[0] == c);
        assert(s.drop_first() =~= x);
    }
}

/// A JSON reader reads back exactly the text the server escaped: the characters between
/// the quotes of a string the server writes decode to the text it was given. Text without `"`,
/// `\` and control characters is written unchanged.
pub proof fn json_reader_reads_back_escaped_text(s: Seq<char>)
    ensures
        json_unescape(json_escape_spec(s)) == Some(s),
        (forall|i: int| 0 <= i < s.len() ==> #[trigger] s[i] != '"' && s[i] != '\\' && !is_control(s[i]))
            ==> json_escape_spec(s) == s,
    decreases s.len(),
{
    if s.len() > 0 {
        json_reader_reads_back_escaped_text(s.drop_first());
        lemma_unescape_token(s[0], json_escape_spec(s.drop_first()));
        assert(seq![s[0]] + s.drop_first() =~= s);
        if forall|i: int| 0 <= i < s.len() ==> #[trigger] s[i] != '"' && s[i] != '\\' && !is_control(s[i]) {
            assert(s[0] != '"' && s[0] != '\\' && !is_control(s[0]));
            assert forall|i: int| 0 <= i < s.drop_first().len() implies #[trigger] s.drop_first()[i] != '"'
                && s.drop_first()[i] != '\\' && !is_control(s.drop_first()[i]) by {
                assert(s.drop_first()[i] == s[i + 1]);
            }
        }
    } else {
        assert(json_escape_spec(s) =~= Seq::<char>::empty());
    }
}

fn hex_lower_char(d: u32) -> (c: char)
    requires
        d < 16,
    ensures
        c == hex_lower(d as int),
{
    if d < 10 {
        ((48 + d) as u8) as char
    } else {
        ((87 + d) as u8) as char
    }
}

fn hex_upper_char(d: u8) -> (c: char)
    requires
        d < 16,
    ensures
        c == hex_upper(d as int),
{
    if d < 10 {
        (48 + d) as char
    } else {
        (55 + d) as char
    }
}

/// Escapes `value` for use inside a JSON string literal: quote, backslash, newline,
/// carriage return and tab get their short escapes, other control characters `\u00XX`.
pub fn json_escape(value: &str) -> (r: String)
    ensures
        r@ == json_escape_spec(value@),
{
    let s = chars_of(value);
    let out = json_escape_chars(s.as_slice());
    string_from_chars(out.as_slice())
}

/// `json_escape` on characters.
pub fn json_escape_chars(s: &[char]) -> (r: Vec<char>)
    ensures
        r@ == json_escape_spec(s@),
{
    let n = s.len();
    let mut out: Vec<char> = Vec::new();
    let mut i: usize = 0;
    assert(s@.subrange(0, n as int) =~= s@);
    while i < n
        invariant
            n == s@.len(),
            i <= n,
            out@ + json_escape_spec(s@.subrange(i as int, n as int)) == json_escape_spec(s@),
        decreases n - i,
    {
        let c = s[i];
        let ghost before = out@;
        if c == '"' {
            out.push('\\');
            out.push('"');
        } else if c == '\\' {
            out.push('\\');
            out.push('\\');
        } else if c == '\n' {
            out.push('\\');
            out.push('n');
        } else if c == '\r' {
            out.push('\\');
            out.push('r');
        } else if c == '\t' {
            out.push('\\');
            out.push('t');
        } else if (c as u32) <= 0x1f || (0x7f <= (c as u32) && (c as u32) <= 0x9f) {
            let u = c as u32;
            out.push('\\');
            out.push('u');
            out.push(hex_lower_char(u / 4096));
            out.push(hex_lower_char((u / 256) % 16));
            out.push(hex_lower_char((u / 16) % 16));
            out.push(hex_lower_char(u % 16));
        } else {
            out.push(c);
        }
        assert(out@ =~= before + json_escape_char(c));
        assert(s@.subrange(i as int, n as int).drop_first() =~= s@.subrange(i + 1, n as int));
        assert(out@ + json_escape_spec(s@.subrange(i + 1, n as int)) =~= before
            + json_escape_spec(s@.subrange(i as int, n as int)));
        i = i + 1;
    }
    assert(s@.subrange(n as int, n as int) =~= Seq::<char>::empty());
    assert(out@ =~= json_escape_spec(s@));
    out
}

/// Value of an ASCII hex digit.
pub open spec fn hex_value_spec(b: u8) -> Option<u8> {
    if 48 <= b <= 57 {
        Some((b - 48) as u8)
    } else if 97 <= b <= 102 {
        Some((b - 87) as u8)
    } else if 65 <= b <= 70 {
        Some((b - 55) as u8)
    } else {
        None
    }
}

/// The value of the hex digit `byte`, of either case.
pub fn hex_value(byte: u8) -> (r: Option<u8>)
    ensures
        r == hex_value_spec(byte),
{
    if 48 <= byte && byte <= 57 {
        Some(byte - 48)
    } else if 97 <= byte && byte <= 102 {
        Some(byte - 87)
    } else if 65 <= byte && byte <= 70 {
        Some(byte - 55)
    } else {
        None
    }
}

/// What `url_decode` makes of bytes: `+` is a space, `%HH` with two hex digits is the byte
/// `0xHH`, and every other byte stands for itself; each byte becomes the `char` of that value.
pub open spec fn url_decode_bytes(b: Seq<u8>) -> Seq<char>
    decreases b.len(),
{
    if b.len() == 0 {
        Seq::empty()
    } else if b[0] == 43 {
        seq![' '] + url_decode_bytes(b.drop_first())
    } else if b[0] == 37 && 2 < b.len() && hex_value_spec(b[1]) is Some && hex_value_spec(
        b[2],
    ) is Some {
        seq![
            ((hex_value_spec(b[1])->0 * 16 + hex_value_spec(b[2])->0) as u8) as char,
        ] + url_decode_bytes(b.skip(3))
    } else {
        seq![b[0] as char] + url_decode_bytes(b.drop_first())
    }
}

/// Decodes a URL query component: `+` becomes a space and `%HH` the byte `0xHH`; every byte
/// becomes the character of the same value.
pub fn url_decode(input: &str) -> (r: String)
    ensures
        r@ == url_decode_bytes(input.spec_bytes()),
{
    let bytes = input.as_bytes();
    let n = bytes.len();
    let mut out: Vec<char> = Vec::new();
    let mut index: usize = 0;
    assert(bytes@.subrange(0, n as int) =~= bytes@);
    while index < n
        invariant
            n == bytes@.len(),
            index <= n,
            out@ + url_decode_bytes(bytes@.subrange(index as int, n as int)) == url_decode_bytes(
                bytes@,
            ),
        decreases n - index,
    {
        let ghost rest = bytes@.subrange(index as int, n as int);
        let ghost before = out@;
        let byte = bytes[index];
        if byte == 43 {
            out.push(' ');
            assert(rest.drop_first() =~= bytes@.subrange(index + 1, n as int));
            assert(out@ + url_decode_bytes(bytes@.subrange(index + 1, n as int)) =~= before
                + url_decode_bytes(rest));
            index = index + 1;
        } else {
            let mut done = false;
            if byte == 37 && n - index > 2 {
                let hi = hex_value(bytes[index + 1]);
                let lo = hex_value(bytes[index + 2]);
                match (hi, lo) {
                    (Some(h), Some(l)) => {
                        out.push((h * 16 + l) as char);
                        assert(rest.skip(3) =~= bytes@.subrange(index + 3, n as int));
                        assert(out@ + url_decode_bytes(bytes@.subrange(index + 3, n as int))
                            =~= before + url_decode_bytes(rest));
                        index = index + 3;
                        done = true;
                    },
                    _ => {},
                }
            }
            if !done {
                out.push(byte as char);
                assert(rest.drop_first() =~= bytes@.subrange(index + 1, n as int));
                assert(out@ + url_decode_bytes(bytes@.subrange(index + 1, n as int)) =~= before
                    + url_decode_bytes(rest));
                index = index + 1;
            }
        }
    }
    assert(bytes@.subrange(n as int, n as int) =~= Seq::<u8>::empty());
    assert(out@ =~= url_decode_bytes(bytes@));
    string_from_chars(out.as_slice())
}

/// Bytes that `url_encode_component` leaves as they are.
pub open spec fn is_unreserved(b: u8) -> bool {
    ||| 48 <= b <= 57
    ||| 65 <= b <= 90
    ||| 97 <= b <= 122
    ||| b == 45
    ||| b == 95
    ||| b == 46
    ||| b == 126
}

/// How `url_encode_component` spells one byte.
pub open spec fn url_encode_byte(b: u8) -> Seq<char> {
    if is_unreserved(b) {
        seq![b as char]
    } else {
        seq!['%', hex_upper(b as int / 16), hex_upper(b as int % 16)]
    }
}

/// Percent-encoding of a byte string.
pub open spec fn url_encode_bytes(b: Seq<u8>) -> Seq<char>
    decreases b.len(),
{
    if b.len() == 0 {
        Seq::empty()
    } else {
        url_encode_byte(b[0]) + url_encode_bytes(b.drop_first())
    }
}

/// Percent-encodes the UTF-8 bytes of `value`, keeping letters, digits and `-_.~`.
pub fn url_encode_component(value: &str) -> (r: String)
    ensures
        r@ == url_encode_bytes(value.spec_bytes()),
{
    let bytes = value.as_bytes();
    let n = bytes.len();
    let mut out: Vec<char> = Vec::new();
    let mut i: usize = 0;
    assert(bytes@.subrange(0, n as int) =~= bytes@);
    while i < n
        invariant
            n == bytes@.len(),
            i <= n,
            out@ + url_encode_bytes(bytes@.subrange(i as int, n as int)) == url_encode_bytes(
                bytes@,
            ),
        decreases n - i,
    {
        let ghost before = out@;
        let b = bytes[i];
        if (48 <= b && b <= 57) || (65 <= b && b <= 90) || (97 <= b && b <= 122) || b == 45 || b
            == 95 || b == 46 || b == 126 {
            out.push(b as char);
        } else {
            out.push('%');
            out.push(hex_upper_char(b / 16));
            out.push(hex_upper_char(b % 16));
        }
        assert(out@ =~= before + url_encode_byte(b));
        assert(bytes@.subrange(i as int, n as int).drop_first() =~= bytes@.subrange(
            i + 1,
            n as int,
        ));
        assert(out@ + url_encode_bytes(bytes@.subrange(i + 1, n as int)) =~= before
            + url_encode_bytes(bytes@.subrange(i as int, n as int)));
        i = i + 1;
    }
    assert(bytes@.subrange(n as int, n as int) =~= Seq::<u8>::empty());
    assert(out@ =~= url_encode_bytes(bytes@));
    string_from_chars(out.as_slice())
}

/// The characters of a byte string, one per byte, each of the byte's value.
pub open spec fn bytes_as_chars(b: Seq<u8>) -> Seq<char> {
    b.map_values(|x: u8| x as char)
}

proof fn lemma_url_encode_ascii(b: Seq<u8>)
    ensures
        is_ascii_chars(url_encode_bytes(b)),
    decreases b.len(),
{
    if b.len() > 0 {
        lemma_url_encode_ascii(b.drop_first());
        let t = url_encode_byte(b[0]);
        let r = url_encode_bytes(b.drop_first());
        assert(url_encode_bytes(b) == t + r);
        assert forall|i| 0 <= i < (t + r).len() implies '\0' <= #[trigger] (t + r)[i] <= '\u{7f}' by {
            if i >= t.len() {
                assert((t + r)[i] == r[i - t.len()]);
            }
        }
    }
}

proof fn lemma_ascii_bytes(cs: Seq<char>)
    requires
        is_ascii_chars(cs),
    ensures
        encode_utf8(cs) == cs.map_values(|c: char| c as u8),
{
    is_ascii_chars_encode_utf8(cs);
    assert(encode_utf8(cs) =~= cs.map_values(|c: char| c as u8));
}

proof fn lemma_decode_encoded(b: Seq<u8>)
    ensures
        url_decode_bytes(url_encode_bytes(b).map_values(|c: char| c as u8)) == bytes_as_chars(b),
    decreases b.len(),
{
    let enc = url_encode_bytes(b).map_values(|c: char| c as u8);
    if b.len() == 0 {
        assert(enc =~= Seq::<u8>::empty());
        assert(bytes_as_chars(b) =~= Seq::<char>::empty());
    } else {
        lemma_decode_encoded(b.drop_first());
        let x = b[0];
        let t = url_encode_byte(x);
        let r = url_encode_bytes(b.drop_first());
        let rb = r.map_values(|c: char| c as u8);
        assert(url_encode_bytes(b) == t + r);
        let tb = t.map_values(|c: char| c as u8);
        assert(enc =~= tb + rb);
        assert(bytes_as_chars(b) =~= seq![x as char] + bytes_as_chars(b.drop_first()));
        if is_unreserved(x) {
            assert(tb =~= seq![x]);
            assert(enc.drop_first() =~= rb);
        } else {
            let h = x / 16;
            let l = x % 16;
            assert(tb =~= seq![37u8, hex_upper(h as int) as u8, hex_upper(l as int) as u8]);
            assert(hex_value_spec(hex_upper(h as int) as u8) == Some(h));
            assert(hex_value_spec(hex_upper(l as int) as u8) == Some(l));
            assert(enc.skip(3) =~= rb);
            assert(((h * 16 + l) as u8) == x);
        }
    }
}

/// Decoding what `url_encode_component` made of a text gives back the text's UTF-8 bytes,
/// each as the character of the same value; for ASCII text that is the text itself.
pub proof fn url_decode_undoes_url_encode_component(s: Seq<char>)
    ensures
        url_decode_bytes(encode_utf8(url_encode_bytes(encode_utf8(s)))) == bytes_as_chars(
            encode_utf8(s),
        ),
        is_ascii_chars(s) ==> url_decode_bytes(encode_utf8(url_encode_bytes(encode_utf8(s))))
            == s,
{
    let b = encode_utf8(s);
    lemma_url_encode_ascii(b);
    lemma_ascii_bytes(url_encode_bytes(b));
    lemma_decode_encoded(b);
    if is_ascii_chars(s) {
        lemma_ascii_bytes(s);
        assert forall|i| 0 <= i < s.len() implies #[trigger] bytes_as_chars(b)[i] == s[i] by {
            assert('\0' <= s[i] <= '\u{7f}');
        }
        assert(bytes_as_chars(b) =~= s);
    }
}

} // verus!
