//! The page and the server agree: the URLs the page builds for an upload and for a reference
//! voice are read back by the server's request handlers as the values the page put in them.

use vstd::prelude::*;
use vstd::utf8::{encode_utf8, is_ascii_chars, is_ascii_chars_encode_utf8};
use crate::chars::{has_prefix, lemma_first_index_is, split_char, trim, trim_start, trim_end, is_ws};
use crate::query::{query_part, pair_name, pair_value, find_param, query_param_raw, keep_alnum, at_most, sanitize_extension_spec, is_ascii_alnum, ascii_lower};
use crate::escape::{url_decode_bytes, url_encode_bytes, bytes_as_chars, url_decode_undoes_url_encode_component};
use crate::server::{reference_file_name_spec, decoded_param, upload_extension_spec, clone_reference_spec, StepView};
use crate::ui::{file_extension_spec, last_index, transcribe_upload_url_spec, clone_reference_url_spec};

verus! {

/// A lower-case ASCII letter or a digit.
pub open spec fn is_plain_char(c: char) -> bool {
    ('0' <= c && c <= '9') || ('a' <= c && c <= 'z')
}

/// A non-empty run of at most eight lower-case ASCII letters and digits: the shape of every
/// extension the page sends.
pub open spec fn plain_extension(e: Seq<char>) -> bool {
    &&& 0 < e.len() <= 8
    &&& forall|i: int| 0 <= i < e.len() ==> is_plain_char(#[trigger] e[i])
}

proof fn lemma_keep_alnum(s: Seq<char>)
    ensures
        keep_alnum(s).len() <= s.len(),
        forall|i: int| 0 <= i < keep_alnum(s).len() ==> is_ascii_alnum(#[trigger] keep_alnum(s)[i]),
        (forall|i: int| 0 <= i < s.len() ==> is_ascii_alnum(#[trigger] s[i])) ==> keep_alnum(s) == s,
    decreases s.len(),
{
    if s.len() > 0 {
        lemma_keep_alnum(s.drop_last());
        let k = keep_alnum(s.drop_last());
        if is_ascii_alnum(s.last()) {
            assert forall|i: int| 0 <= i < k.push(s.last()).len() implies is_ascii_alnum(
                #[trigger] k.push(s.last())[i],
            ) by {
                if i < k.len() {
                    assert(k.push(s.last())[i] == k[i]);
                }
            }
        }
        if forall|i: int| 0 <= i < s.len() ==> is_ascii_alnum(#[trigger] s[i]) {
            assert forall|i: int| 0 <= i < s.drop_last().len() implies is_ascii_alnum(
                #[trigger] s.drop_last()[i],
            ) by {
                assert(s.drop_last()[i] == s[i]);
            }
            assert(is_ascii_alnum(s[s.len() - 1]));
            assert(s.drop_last().push(s.last()) =~= s);
        }
    }
}

proof fn lemma_sanitized_plain(s: Seq<char>)
    ensures
        sanitize_extension_spec(s).len() <= 8,
        forall|i: int| 0 <= i < sanitize_extension_spec(s).len() ==> is_plain_char(
            #[trigger] sanitize_extension_spec(s)[i],
        ),
{
    lemma_keep_alnum(s);
    let k = keep_alnum(s);
    let a = at_most(k, 8);
    assert forall|i: int| 0 <= i < a.len() implies is_ascii_alnum(#[trigger] a[i]) by {
        assert(a[i] == k[i]);
    }
    assert forall|i: int| 0 <= i < sanitize_extension_spec(s).len() implies is_plain_char(
        #[trigger] sanitize_extension_spec(s)[i],
    ) by {
        let c = a[i];
        assert(is_ascii_alnum(c));
        assert(sanitize_extension_spec(s)[i] == ascii_lower(c));
        if 'A' <= c && c <= 'Z' {
            assert(((c as u32) + 32) as char == ascii_lower(c));
            assert('a' <= ascii_lower(c) && ascii_lower(c) <= 'z');
        }
    }
}

proof fn lemma_sanitize_keeps_plain(e: Seq<char>)
    requires
        plain_extension(e),
    ensures
        sanitize_extension_spec(e) == e,
{
    assert forall|i: int| 0 <= i < e.len() implies is_ascii_alnum(#[trigger] e[i]) by {
        assert(is_plain_char(e[i]));
    }
    lemma_keep_alnum(e);
    assert(at_most(keep_alnum(e), 8) == e);
    assert forall|i: int| 0 <= i < e.len() implies #[trigger] ascii_lower(e[i]) == e[i] by {
        assert(is_plain_char(e[i]));
    }
    assert(sanitize_extension_spec(e) =~= e);
}

/// Sanitizing an extension that was already sanitized changes nothing.
pub proof fn sanitize_extension_is_idempotent(s: Seq<char>)
    ensures
        sanitize_extension_spec(sanitize_extension_spec(s)) == sanitize_extension_spec(s),
{
    lemma_sanitized_plain(s);
    let e = sanitize_extension_spec(s);
    if e.len() > 0 {
        lemma_sanitize_keeps_plain(e);
    } else {
        assert(keep_alnum(e) =~= Seq::<char>::empty());
        assert(sanitize_extension_spec(e) =~= e);
    }
}

proof fn lemma_file_extension_plain(name: Seq<char>)
    ensures
        plain_extension(file_extension_spec(name)),
{
    reveal_strlit("wav");
    let k = last_index(name, '.');
    let raw = if k < 0 {
        "wav"@
    } else {
        name.skip(k + 1)
    };
    lemma_sanitized_plain(raw);
    let e = sanitize_extension_spec(raw);
    if e.len() == 0 {
        assert(file_extension_spec(name) == "wav"@);
        assert forall|i: int| 0 <= i < 3 implies is_plain_char(#[trigger] "wav"@[i]) by {}
    }
}

proof fn lemma_decode_literal_bytes(b: Seq<u8>)
    requires
        forall|i: int| 0 <= i < b.len() ==> #[trigger] b[i] != 43 && b[i] != 37,
    ensures
        url_decode_bytes(b) == bytes_as_chars(b),
    decreases b.len(),
{
    if b.len() > 0 {
        assert(b[0] != 43 && b[0] != 37);
        assert forall|i: int| 0 <= i < b.drop_first().len() implies #[trigger] b.drop_first()[i]
            != 43 && b.drop_first()[i] != 37 by {
            assert(b.drop_first()[i] == b[i + 1]);
        }
        lemma_decode_literal_bytes(b.drop_first());
        assert(bytes_as_chars(b) =~= seq![b[0] as char] + bytes_as_chars(b.drop_first()));
    }
}

/// Text without `+` and `%` that is ASCII decodes to itself.
proof fn lemma_decode_plain_text(t: Seq<char>)
    requires
        is_ascii_chars(t),
        forall|i: int| 0 <= i < t.len() ==> #[trigger] t[i] != '+' && t[i] != '%',
    ensures
        url_decode_bytes(encode_utf8(t)) == t,
{
    is_ascii_chars_encode_utf8(t);
    let b = encode_utf8(t);
    assert(b =~= t.map_values(|c: char| c as u8));
    assert forall|i: int| 0 <= i < b.len() implies #[trigger] b[i] != 43 && b[i] != 37 by {
        assert(b[i] == t[i] as u8);
        assert('\0' <= t[i] <= '\u{7f}');
    }
    lemma_decode_literal_bytes(b);
    assert forall|i: int| 0 <= i < t.len() implies #[trigger] bytes_as_chars(b)[i] == t[i] by {
        assert('\0' <= t[i] <= '\u{7f}');
    }
    assert(bytes_as_chars(b) =~= t);
}

proof fn lemma_plain_decodes(e: Seq<char>)
    requires
        plain_extension(e),
    ensures
        url_decode_bytes(encode_utf8(e)) == e,
{
    assert forall|i: int| 0 <= i < e.len() implies '\0' <= #[trigger] e[i] <= '\u{7f}' by {
        assert(is_plain_char(e[i]));
    }
    assert forall|i: int| 0 <= i < e.len() implies #[trigger] e[i] != '+' && e[i] != '%' by {
        assert(is_plain_char(e[i]));
    }
    lemma_decode_plain_text(e);
}

/// No `c` in `a`.
pub open spec fn lacks(a: Seq<char>, c: char) -> bool {
    forall|i: int| 0 <= i < a.len() ==> #[trigger] a[i] != c
}

proof fn lemma_split_none(a: Seq<char>, c: char)
    requires
        lacks(a, c),
    ensures
        split_char(a, c) == seq![a],
{
    lemma_first_index_is(a, c, -1);
}

proof fn lemma_split_first(a: Seq<char>, b: Seq<char>, c: char)
    requires
        lacks(a, c),
    ensures
        split_char(a + seq![c] + b, c) == seq![a] + split_char(b, c),
{
    let s = a + seq![c] + b;
    assert(s[a.len() as int] == c);
    assert forall|j: int| 0 <= j < s.len() && j < a.len() implies s[j] != c by {
        assert(s[j] == a[j]);
    }
    lemma_first_index_is(s, c, a.len() as int);
    assert(s.take(a.len() as int) =~= a);
    assert(s.skip(a.len() as int + 1) =~= b);
}

proof fn lemma_pair(k: Seq<char>, v: Seq<char>)
    requires
        lacks(k, '='),
    ensures
        pair_name(k + seq!['='] + v) == k,
        pair_value(k + seq!['='] + v) == v,
{
    let s = k + seq!['='] + v;
    assert(s[k.len() as int] == '=');
    assert forall|j: int| 0 <= j < s.len() && j < k.len() implies s[j] != '=' by {
        assert(s[j] == k[j]);
    }
    lemma_first_index_is(s, '=', k.len() as int);
    assert(s.take(k.len() as int) =~= k);
    assert(s.skip(k.len() as int + 1) =~= v);
}

proof fn lemma_lacks_concat(a: Seq<char>, b: Seq<char>, c: char)
    requires
        lacks(a, c),
        lacks(b, c),
    ensures
        lacks(a + b, c),
{
    assert forall|i: int| 0 <= i < (a + b).len() implies #[trigger] (a + b)[i] != c by {
        if i < a.len() {
            assert((a + b)[i] == a[i]);
        } else {
            assert((a + b)[i] == b[i - a.len()]);
        }
    }
}

proof fn lemma_plain_lacks(e: Seq<char>, c: char)
    requires
        plain_extension(e),
        !is_plain_char(c),
    ensures
        lacks(e, c),
{
    assert forall|i: int| 0 <= i < e.len() implies #[trigger] e[i] != c by {
        assert(is_plain_char(e[i]));
    }
}

/// The server takes the extension of an uploaded file from the upload URL exactly as the
/// page derived it from the file's name.
pub proof fn server_reads_upload_extension(name: Seq<char>)
    ensures
        upload_extension_spec(transcribe_upload_url_spec(name)) == file_extension_spec(name),
{
    reveal_strlit("/api/transcribe-file?ext=");
    reveal_strlit("/api/transcribe-file");
    reveal_strlit("ext");
    let e = file_extension_spec(name);
    lemma_file_extension_plain(name);
    let a = "/api/transcribe-file"@;
    let pair = "ext"@ + seq!['='] + e;
    let path = transcribe_upload_url_spec(name);
    assert(path =~= a + seq!['?'] + pair);
    assert(lacks(a, '?'));
    lemma_split_first(a, pair, '?');
    assert(lacks("ext"@, '?'));
    lemma_plain_lacks(e, '?');
    lemma_lacks_concat("ext"@, seq!['='], '?');
    lemma_lacks_concat("ext"@ + seq!['='], e, '?');
    lemma_split_none(pair, '?');
    assert(query_part(path) == Some(pair));
    assert(lacks("ext"@, '&'));
    lemma_plain_lacks(e, '&');
    lemma_lacks_concat("ext"@, seq!['='], '&');
    lemma_lacks_concat("ext"@ + seq!['='], e, '&');
    lemma_split_none(pair, '&');
    assert(lacks("ext"@, '='));
    lemma_pair("ext"@, e);
    assert(find_param(seq![pair], "ext"@) == Some(e));
    assert(query_param_raw(path, "ext"@) == Some(e));
    lemma_plain_decodes(e);
    assert(decoded_param(path, "ext"@) == Some(e));
    lemma_sanitize_keeps_plain(e);
}


proof fn lemma_trim_start_shape(s: Seq<char>)
    ensures
        trim_start(s).len() == 0 || !is_ws(trim_start(s)[0]),
    decreases s.len(),
{
    if s.len() > 0 && is_ws(s[0]) {
        lemma_trim_start_shape(s.drop_first());
    }
}

proof fn lemma_trim_end_shape(s: Seq<char>)
    ensures
        trim_end(s).len() <= s.len(),
        trim_end(s) == s.take(trim_end(s).len() as int),
        trim_end(s).len() == 0 || !is_ws(trim_end(s).last()),
    decreases s.len(),
{
    if s.len() > 0 && is_ws(s.last()) {
        lemma_trim_end_shape(s.drop_last());
        let r = trim_end(s.drop_last());
        assert(s.drop_last().take(r.len() as int) =~= s.take(r.len() as int));
    } else {
        assert(s.take(s.len() as int) =~= s);
    }
}

/// Trimming twice trims once.
proof fn lemma_trim_twice(s: Seq<char>)
    ensures
        trim(trim(s)) == trim(s),
{
    let x = trim_start(s);
    let y = trim_end(x);
    lemma_trim_start_shape(s);
    lemma_trim_end_shape(x);
    if y.len() > 0 {
        assert(y[0] == x[0]);
    }
    assert(trim_start(y) == y);
    assert(trim_end(y) == y);
}

proof fn lemma_url_encode_lacks(b: Seq<u8>, c: char)
    requires
        c == '?' || c == '&' || c == '=',
    ensures
        lacks(url_encode_bytes(b), c),
    decreases b.len(),
{
    if b.len() > 0 {
        lemma_url_encode_lacks(b.drop_first(), c);
        let x = b[0];
        let head = crate::escape::url_encode_byte(x);
        assert forall|i: int| 0 <= i < head.len() implies #[trigger] head[i] != c by {
            if !crate::escape::is_unreserved(x) {
                assert(head[i] == '%' || head[i] == crate::escape::hex_upper(x as int / 16)
                    || head[i] == crate::escape::hex_upper(x as int % 16));
            }
        }
        lemma_lacks_concat(head, url_encode_bytes(b.drop_first()), c);
    }
}

/// The server saves the reference transcript the page sent, and names the reference file
/// after the extension the page derived from the file's name. The transcript is the trimmed
/// text field; it comes back unchanged when it is ASCII, since the server turns each decoded
/// byte into one character.
pub proof fn server_saves_posted_reference(field: Seq<char>, name: Seq<char>)
    requires
        trim(field).len() > 0,
        is_ascii_chars(trim(field)),
    ensures
        clone_reference_spec(clone_reference_url_spec(trim(field), name), false)
            == StepView::SaveCloneReference(trim(field), "reference."@ + file_extension_spec(name)),
{
    reveal_strlit("/api/clone/reference?text=");
    reveal_strlit("/api/clone/reference");
    reveal_strlit("&ext=");
    reveal_strlit("text");
    reveal_strlit("ext");
    let t = trim(field);
    let u = url_encode_bytes(encode_utf8(t));
    let e = file_extension_spec(name);
    lemma_file_extension_plain(name);
    let a = "/api/clone/reference"@;
    let p1 = "text"@ + seq!['='] + u;
    let p2 = "ext"@ + seq!['='] + e;
    let q = p1 + seq!['&'] + p2;
    let path = clone_reference_url_spec(t, name);
    assert(path =~= a + seq!['?'] + q);
    assert(lacks(a, '?'));
    lemma_split_first(a, q, '?');
    lemma_url_encode_lacks(encode_utf8(t), '?');
    lemma_url_encode_lacks(encode_utf8(t), '&');
    lemma_url_encode_lacks(encode_utf8(t), '=');
    lemma_plain_lacks(e, '?');
    lemma_plain_lacks(e, '&');
    assert(lacks("text"@, '?') && lacks("text"@, '&') && lacks("text"@, '='));
    assert(lacks("ext"@, '?') && lacks("ext"@, '&') && lacks("ext"@, '='));
    assert(lacks(seq!['='], '?') && lacks(seq!['='], '&'));
    assert(lacks(seq!['&'], '?'));
    lemma_lacks_concat("text"@, seq!['='], '?');
    lemma_lacks_concat("text"@ + seq!['='], u, '?');
    lemma_lacks_concat(p1, seq!['&'], '?');
    lemma_lacks_concat("ext"@, seq!['='], '?');
    lemma_lacks_concat("ext"@ + seq!['='], e, '?');
    lemma_lacks_concat(p1 + seq!['&'], p2, '?');
    lemma_split_none(q, '?');
    assert(query_part(path) == Some(q));
    lemma_lacks_concat("text"@, seq!['='], '&');
    lemma_lacks_concat("text"@ + seq!['='], u, '&');
    lemma_lacks_concat("ext"@, seq!['='], '&');
    lemma_lacks_concat("ext"@ + seq!['='], e, '&');
    lemma_split_first(p1, p2, '&');
    lemma_split_none(p2, '&');
    let pairs = seq![p1] + seq![p2];
    assert(split_char(q, '&') == pairs);
    lemma_pair("text"@, u);
    lemma_pair("ext"@, e);
    assert(pairs[0] == p1 && pairs[1] == p2);
    assert(find_param(pairs, "text"@) == Some(u));
    assert("text"@ != "ext"@);
    assert(pairs.drop_first() =~= seq![p2]);
    assert(find_param(pairs, "ext"@) == find_param(seq![p2], "ext"@));
    assert(find_param(pairs, "ext"@) == Some(e));
    url_decode_undoes_url_encode_component(t);
    assert(decoded_param(path, "text"@) == Some(t));
    lemma_plain_decodes(e);
    assert(decoded_param(path, "ext"@) == Some(e));
    lemma_trim_twice(field);
    lemma_sanitize_keeps_plain(e);
}


/// A sanitized extension is at most eight lower-case ASCII letters and digits, so it holds
/// no `.`, `/` or `\` and is safe in a file name.
pub proof fn sanitized_extension_is_plain(s: Seq<char>)
    ensures
        sanitize_extension_spec(s).len() <= 8,
        forall|i: int| 0 <= i < sanitize_extension_spec(s).len() ==> is_plain_char(
            #[trigger] sanitize_extension_spec(s)[i],
        ),
{
    lemma_sanitized_plain(s);
}

/// A saved reference recording is recognised as reference audio afterwards: its file name
/// starts with `reference.` and is not the transcript's `reference.txt`, unless the
/// extension sent sanitizes to `txt`, in which case it is that name.
pub proof fn saved_reference_is_recognised(ext: Seq<char>)
    ensures
        has_prefix(reference_file_name_spec(ext), "reference."@),
        reference_file_name_spec(ext) == "reference.txt"@ <==> sanitize_extension_spec(ext) == "txt"@,
{
    reveal_strlit("reference.");
    reveal_strlit("reference.txt");
    reveal_strlit("txt");
    reveal_strlit("wav");
    let c = sanitize_extension_spec(ext);
    let tail = if c.len() == 0 { "wav"@ } else { c };
    let name = reference_file_name_spec(ext);
    assert(name == "reference."@ + tail);
    assert(name.take(10) =~= "reference."@);
    assert("reference.txt"@ =~= "reference."@ + "txt"@);
    if name == "reference.txt"@ {
        assert(name.skip(10) =~= tail);
        assert(("reference."@ + "txt"@).skip(10) =~= "txt"@);
        assert(tail == "txt"@);
        assert("wav"@ != "txt"@) by {
            assert("wav"@[0] != "txt"@[0]);
        }
    }
}

} // verus!
