//! The small JSON request bodies the page posts, and the escaping the page applies to them.

use vstd::prelude::*;
use crate::chars::{
    chars_of, copy_range, has_prefix, has_suffix, is_ws, matches_at, replace_all, replace_chars, string_from_chars, trim, trim_chars, trim_start,
};

verus! {

/// Why a request body could not be read.
#[derive(Clone, Copy, Debug, PartialEq, Eq, Structural)]
pub enum BodyError {
    /// The body is empty or only white space.
    EmptyBody,
    /// The body is not of the form the route expects.
    InvalidJson,
}

impl BodyError {
    /// The text the server reports for this error.
    pub fn message(&self) -> (r: &'static str)
        ensures
            *self == BodyError::EmptyBody ==> r@ == "empty request body"@,
            *self == BodyError::InvalidJson ==> r@ == "invalid JSON format"@,
    {
        match self {
            BodyError::EmptyBody => "empty request body",
            BodyError::InvalidJson => "invalid JSON format",
        }
    }
}

/// `{"key":"` — how a body carrying a single string value begins.
pub open spec fn string_value_prefix(key: Seq<char>) -> Seq<char> {
    seq!['{', '"'] + key + seq!['"', ':', '"']
}

/// Undoes the page's escaping of a string value: `\"` becomes `"`, then `\\` becomes `\`.
pub open spec fn unescape_string_value(v: Seq<char>) -> Seq<char> {
    replace_all(replace_all(v, seq!['\\', '"'], seq!['"']), seq!['\\', '\\'], seq!['\\'])
}

/// The string value of `key` in a body of the form `{"key":"value"}`.
pub open spec fn parse_string_value_spec(body: Seq<char>, key: Seq<char>) -> Result<
    Seq<char>,
    BodyError,
> {
    let t = trim(body);
    let p = string_value_prefix(key);
    if t.len() == 0 {
        Err(BodyError::EmptyBody)
    } else if has_prefix(t, p) && has_suffix(t.skip(p.len() as int), seq!['"', '}']) {
        let rest = t.skip(p.len() as int);
        Ok(unescape_string_value(rest.take(rest.len() - 2)))
    } else {
        Err(BodyError::InvalidJson)
    }
}

fn string_value_prefix_chars(key: &[char]) -> (r: Vec<char>)
    ensures
        r@ == string_value_prefix(key@),
{
    let mut p: Vec<char> = Vec::new();
    p.push('{');
    p.push('"');
    let mut i: usize = 0;
    while i < key.len()
        invariant
            i <= key@.len(),
            p@ == seq!['{', '"'] + key@.subrange(0, i as int),
        decreases key@.len() - i,
    {
        p.push(key[i]);
        i = i + 1;
    }
    p.push('"');
    p.push(':');
    p.push('"');
    assert(key@.subrange(0, key@.len() as int) =~= key@);
    assert(p@ =~= string_value_prefix(key@));
    p
}

/// Reads the string value of `key` from a body `{"key":"value"}` (surrounding white space
/// allowed), undoing `\"` and `\\`.
pub fn parse_string_value_from_body(body: &str, key: &str) -> (r: Result<String, BodyError>)
    ensures
        r is Ok <==> parse_string_value_spec(body@, key@) is Ok,
        r matches Ok(v) ==> parse_string_value_spec(body@, key@) == Ok::<Seq<char>, BodyError>(
            v@,
        ),
        r matches Err(e) ==> parse_string_value_spec(body@, key@) == Err::<Seq<char>, BodyError>(
            e,
        ),
{
    let b = chars_of(body);
    let t = trim_chars(b.as_slice());
    if t.len() == 0 {
        return Err(BodyError::EmptyBody);
    }
    let k = chars_of(key);
    let p = string_value_prefix_chars(k.as_slice());
    let n = t.len();
    if !matches_at(t.as_slice(), 0, p.as_slice()) {
        assert(t@.subrange(0, p@.len() as int) == t@.take(p@.len() as int));
        return Err(BodyError::InvalidJson);
    }
    assert(t@.subrange(0, p@.len() as int) == t@.take(p@.len() as int));
    let plen = p.len();
    let ghost rest = t@.skip(plen as int);
    if n - plen < 2 || t[n - 2] != '"' || t[n - 1] != '}' {
        proof {
            if n - plen >= 2 {
                assert(rest.skip(rest.len() - 2)[0] == t@[n - 2]);
                assert(rest.skip(rest.len() - 2)[1] == t@[n - 1]);
            }
        }
        return Err(BodyError::InvalidJson);
    }
    assert(rest.skip(rest.len() - 2) =~= seq!['"', '}']);
    let inner = copy_range(t.as_slice(), plen, n - 2);
    assert(inner@ =~= rest.take(rest.len() - 2));
    let quote_pat: Vec<char> = vec!['\\', '"'];
    let quote_rep: Vec<char> = vec!['"'];
    let slash_pat: Vec<char> = vec!['\\', '\\'];
    let slash_rep: Vec<char> = vec!['\\'];
    assert(quote_pat@ =~= seq!['\\', '"']);
    assert(quote_rep@ =~= seq!['"']);
    assert(slash_pat@ =~= seq!['\\', '\\']);
    assert(slash_rep@ =~= seq!['\\']);
    let once = replace_chars(inner.as_slice(), quote_pat.as_slice(), quote_rep.as_slice());
    let twice = replace_chars(once.as_slice(), slash_pat.as_slice(), slash_rep.as_slice());
    Ok(string_from_chars(twice.as_slice()))
}

/// `{"key":` — how a body carrying a single number begins.
pub open spec fn config_value_prefix(key: Seq<char>) -> Seq<char> {
    seq!['{', '"'] + key + seq!['"', ':']
}

/// The texts a numeric setting may be read from: the whole trimmed body, and, when the
/// body has the form `{"key":...}`, the trimmed text between the colon and the brace.
pub struct ConfigValueText {
    pub whole: String,
    pub inner: Option<String>,
}

/// The inner text of a body `{"key":value}`, if it has that form.
pub open spec fn config_inner_spec(t: Seq<char>, key: Seq<char>) -> Option<Seq<char>> {
    let p = config_value_prefix(key);
    if has_prefix(t, p) && has_suffix(t.skip(p.len() as int), seq!['}']) {
        let rest = t.skip(p.len() as int);
        Some(trim(rest.take(rest.len() - 1)))
    } else {
        None
    }
}

/// Splits a numeric-setting body into the texts a number may be read from; an empty or
/// blank body is refused.
pub fn config_value_text(body: &str, key: &str) -> (r: Result<ConfigValueText, BodyError>)
    ensures
        r is Err <==> trim(body@).len() == 0,
        r matches Err(e) ==> e == BodyError::EmptyBody,
        r matches Ok(v) ==> v.whole@ == trim(body@) && match v.inner {
            Some(i) => config_inner_spec(trim(body@), key@) == Some(i@),
            None => config_inner_spec(trim(body@), key@) is None,
        },
{
    let b = chars_of(body);
    let t = trim_chars(b.as_slice());
    if t.len() == 0 {
        return Err(BodyError::EmptyBody);
    }
    let whole = string_from_chars(t.as_slice());
    let k = chars_of(key);
    let mut p: Vec<char> = Vec::new();
    p.push('{');
    p.push('"');
    let mut i: usize = 0;
    while i < k.len()
        invariant
            i <= k@.len(),
            p@ == seq!['{', '"'] + k@.subrange(0, i as int),
        decreases k@.len() - i,
    {
        p.push(k[i]);
        i = i + 1;
    }
    p.push('"');
    p.push(':');
    assert(k@.subrange(0, k@.len() as int) =~= k@);
    assert(p@ =~= config_value_prefix(key@));
    let n = t.len();
    let plen = p.len();
    if !matches_at(t.as_slice(), 0, p.as_slice()) {
        assert(t@.subrange(0, p@.len() as int) == t@.take(p@.len() as int));
        return Ok(ConfigValueText { whole, inner: None });
    }
    assert(t@.subrange(0, p@.len() as int) == t@.take(p@.len() as int));
    let ghost rest = t@.skip(plen as int);
    if n - plen < 1 || t[n - 1] != '}' {
        proof {
            if n - plen >= 1 {
                assert(rest.skip(rest.len() - 1)[0] == t@[n - 1]);
            }
        }
        return Ok(ConfigValueText { whole, inner: None });
    }
    assert(rest.skip(rest.len() - 1) =~= seq!['}']);
    let inner = copy_range(t.as_slice(), plen, n - 1);
    assert(inner@ =~= rest.take(rest.len() - 1));
    let trimmed = trim_chars(inner.as_slice());
    Ok(ConfigValueText { whole, inner: Some(string_from_chars(trimmed.as_slice())) })
}

/// How the page escapes a string value before posting it: `\` becomes `\\`, then `"`
/// becomes `\"`.
pub open spec fn json_string_escape_spec(s: Seq<char>) -> Seq<char> {
    replace_all(replace_all(s, seq!['\\'], seq!['\\', '\\']), seq!['"'], seq!['\\', '"'])
}

/// Escapes backslashes and quotes for a JSON string literal, as the page does for the
/// model names it posts.
pub fn json_string_escape(value: &str) -> (r: String)
    ensures
        r@ == json_string_escape_spec(value@),
{
    let s = chars_of(value);
    let slash_pat: Vec<char> = vec!['\\'];
    let slash_rep: Vec<char> = vec!['\\', '\\'];
    let quote_pat: Vec<char> = vec!['"'];
    let quote_rep: Vec<char> = vec!['\\', '"'];
    assert(slash_pat@ =~= seq!['\\']);
    assert(slash_rep@ =~= seq!['\\', '\\']);
    assert(quote_pat@ =~= seq!['"']);
    assert(quote_rep@ =~= seq!['\\', '"']);
    let once = replace_chars(s.as_slice(), slash_pat.as_slice(), slash_rep.as_slice());
    let twice = replace_chars(once.as_slice(), quote_pat.as_slice(), quote_rep.as_slice());
    string_from_chars(twice.as_slice())
}

/// The body `{"key":"value"}` with `value` escaped as the page escapes it.
pub open spec fn string_value_body(key: Seq<char>, value: Seq<char>) -> Seq<char> {
    string_value_prefix(key) + json_string_escape_spec(value) + seq!['"', '}']
}

/// Replacing a single character `a` by `r` everywhere.
pub open spec fn subst(s: Seq<char>, a: char, r: Seq<char>) -> Seq<char>
    decreases s.len(),
{
    if s.len() == 0 {
        Seq::empty()
    } else {
        (if s[0] == a {
            r
        } else {
            seq![s[0]]
        }) + subst(s.drop_first(), a, r)
    }
}

proof fn lemma_replace_single(s: Seq<char>, a: char, r: Seq<char>)
    ensures
        replace_all(s, seq![a], r) == subst(s, a, r),
    decreases s.len(),
{
    if s.len() > 0 {
        lemma_replace_single(s.drop_first(), a, r);
        assert(s.skip(1) =~= s.drop_first());
        if s[0] == a {
            assert(s.take(1) =~= seq![a]);
        } else {
            assert(s.take(1)[0] != seq![a][0]);
        }
    } else {
        assert(subst(s, a, r) =~= s);
    }
}

proof fn lemma_subst_concat(x: Seq<char>, y: Seq<char>, a: char, r: Seq<char>)
    ensures
        subst(x + y, a, r) == subst(x, a, r) + subst(y, a, r),
    decreases x.len(),
{
    if x.len() == 0 {
        assert(x + y =~= y);
        assert(subst(x, a, r) =~= Seq::<char>::empty());
        assert(subst(x, a, r) + subst(y, a, r) =~= subst(y, a, r));
    } else {
        lemma_subst_concat(x.drop_first(), y, a, r);
        assert((x + y).drop_first() =~= x.drop_first() + y);
        assert((x + y)[0] == x[0]);
        let h = if x[0] == a {
            r
        } else {
            seq![x[0]]
        };
        assert(subst(x + y, a, r) =~= h + (subst(x.drop_first(), a, r) + subst(y, a, r)));
        assert(subst(x, a, r) == h + subst(x.drop_first(), a, r));
    }
}

/// The page's escaping, one character at a time.
spec fn escape_token(c: char) -> Seq<char> {
    if c == '\\' {
        seq!['\\', '\\']
    } else if c == '"' {
        seq!['\\', '"']
    } else {
        seq![c]
    }
}

spec fn escaped(s: Seq<char>) -> Seq<char>
    decreases s.len(),
{
    if s.len() == 0 {
        Seq::empty()
    } else {
        escape_token(s[0]) + escaped(s.drop_first())
    }
}

/// After the first undo step: backslashes still doubled, quotes bare.
spec fn half_token(c: char) -> Seq<char> {
    if c == '\\' {
        seq!['\\', '\\']
    } else {
        seq![c]
    }
}

spec fn half_escaped(s: Seq<char>) -> Seq<char>
    decreases s.len(),
{
    if s.len() == 0 {
        Seq::empty()
    } else {
        half_token(s[0]) + half_escaped(s.drop_first())
    }
}

proof fn lemma_escape_is_tokens(s: Seq<char>)
    ensures
        json_string_escape_spec(s) == escaped(s),
    decreases s.len(),
{
    lemma_replace_single(s, '\\', seq!['\\', '\\']);
    let once = subst(s, '\\', seq!['\\', '\\']);
    lemma_replace_single(once, '"', seq!['\\', '"']);
    lemma_subst_tokens(s);
}

proof fn lemma_subst_tokens(s: Seq<char>)
    ensures
        subst(subst(s, '\\', seq!['\\', '\\']), '"', seq!['\\', '"']) == escaped(s),
    decreases s.len(),
{
    if s.len() == 0 {
        assert(subst(s, '\\', seq!['\\', '\\']) =~= Seq::<char>::empty());
        assert(escaped(s) =~= Seq::<char>::empty());
    } else {
        lemma_subst_tokens(s.drop_first());
        let c = s[0];
        let head = if c == '\\' {
            seq!['\\', '\\']
        } else {
            seq![c]
        };
        let tail = subst(s.drop_first(), '\\', seq!['\\', '\\']);
        assert(subst(s, '\\', seq!['\\', '\\']) == head + tail);
        lemma_subst_concat(head, tail, '"', seq!['\\', '"']);
        reveal_with_fuel(subst, 3);
        if c == '\\' {
            assert(subst(head, '"', seq!['\\', '"']) =~= seq!['\\', '\\']);
        } else if c == '"' {
            assert(subst(head, '"', seq!['\\', '"']) =~= seq!['\\', '"']);
        } else {
            assert(subst(head, '"', seq!['\\', '"']) =~= seq![c]);
        }
    }
}

proof fn lemma_escaped_head(s: Seq<char>)
    requires
        escaped(s).len() > 0,
    ensures
        escaped(s)[0] != '"',
        s.len() > 0,
{
    assert(s.len() > 0);
    assert(escaped(s)[0] == escape_token(s[0])[0]);
}

proof fn lemma_undo_quotes(s: Seq<char>)
    ensures
        replace_all(escaped(s), seq!['\\', '"'], seq!['"']) == half_escaped(s),
    decreases s.len(),
{
    let pat = seq!['\\', '"'];
    let rep = seq!['"'];
    if s.len() == 0 {
        assert(escaped(s) =~= Seq::<char>::empty());
        assert(half_escaped(s) =~= Seq::<char>::empty());
    } else {
        lemma_undo_quotes(s.drop_first());
        let c = s[0];
        let rest = escaped(s.drop_first());
        let e = escaped(s);
        assert(e == escape_token(c) + rest);
        if c == '\\' {
            assert(e.take(2)[1] == '\\');
            assert(e.take(2) != pat);
            assert(e.drop_first() =~= seq!['\\'] + rest);
            let e1 = e.drop_first();
            if rest.len() == 0 {
                assert(s.drop_first().len() == 0) by {
                    if s.drop_first().len() > 0 {
                        assert(escaped(s.drop_first()).len() > 0);
                    }
                }
                assert(replace_all(e1, pat, rep) == e1);
                assert(half_escaped(s.drop_first()) =~= Seq::<char>::empty());
                assert(replace_all(e, pat, rep) =~= half_escaped(s));
            } else {
                lemma_escaped_head(s.drop_first());
                assert(e1.take(2)[1] == rest[0]);
                assert(e1.take(2) != pat);
                assert(e1.drop_first() =~= rest);
                assert(replace_all(e1, pat, rep) == seq![e1[0]] + replace_all(rest, pat, rep));
                assert(replace_all(e, pat, rep) == seq![e[0]] + replace_all(e1, pat, rep));
                assert(replace_all(e, pat, rep) =~= half_escaped(s));
            }
        } else if c == '"' {
            assert(e.take(2) =~= pat);
            assert(e.skip(2) =~= rest);
            assert(replace_all(e, pat, rep) =~= half_escaped(s));
        } else {
            assert(e.drop_first() =~= rest);
            if e.len() < 2 {
                assert(rest.len() == 0);
                assert(half_escaped(s.drop_first()) =~= Seq::<char>::empty());
                assert(replace_all(rest, pat, rep) == rest);
                assert(replace_all(e, pat, rep) =~= half_escaped(s));
            } else {
                assert(e.take(2)[0] == c);
                assert(e.take(2) != pat);
                assert(replace_all(e, pat, rep) =~= half_escaped(s));
            }
        }
    }
}

proof fn lemma_undo_backslashes(s: Seq<char>)
    ensures
        replace_all(half_escaped(s), seq!['\\', '\\'], seq!['\\']) == s,
    decreases s.len(),
{
    let pat = seq!['\\', '\\'];
    let rep = seq!['\\'];
    if s.len() == 0 {
        assert(half_escaped(s) =~= Seq::<char>::empty());
    } else {
        lemma_undo_backslashes(s.drop_first());
        let c = s[0];
        let rest = half_escaped(s.drop_first());
        let e = half_escaped(s);
        assert(e == half_token(c) + rest);
        if c == '\\' {
            assert(e.take(2) =~= pat);
            assert(e.skip(2) =~= rest);
            assert(replace_all(e, pat, rep) =~= s);
        } else {
            assert(e.drop_first() =~= rest);
            if e.len() < 2 {
                assert(rest.len() == 0);
                assert(s.drop_first().len() == 0) by {
                    if s.drop_first().len() > 0 {
                        assert(half_escaped(s.drop_first()).len() > 0);
                    }
                }
                assert(replace_all(e, pat, rep) =~= s);
            } else {
                assert(e.take(2)[0] == c);
                assert(e.take(2) != pat);
                assert(replace_all(e, pat, rep) =~= s);
            }
        }
    }
}

proof fn lemma_trim_braced(s: Seq<char>)
    requires
        s.len() > 0,
        s[0] == '{',
        s.last() == '}',
    ensures
        trim(s) == s,
{
    assert(!is_ws(s[0]));
    assert(trim_start(s) == s);
    assert(!is_ws(s.last()));
}

/// The server reads back exactly the value the page posted: parsing the body that the page
/// builds for `key` and `value` gives `value`.
pub proof fn parse_string_value_reads_posted_value(key: Seq<char>, value: Seq<char>)
    ensures
        parse_string_value_spec(string_value_body(key, value), key) == Ok::<
            Seq<char>,
            BodyError,
        >(value),
{
    let body = string_value_body(key, value);
    let p = string_value_prefix(key);
    let esc = json_string_escape_spec(value);
    assert(body[0] == '{');
    assert(body.last() == '}');
    lemma_trim_braced(body);
    assert(body.take(p.len() as int) =~= p);
    let rest = body.skip(p.len() as int);
    assert(rest =~= esc + seq!['"', '}']);
    assert(rest.skip(rest.len() - 2) =~= seq!['"', '}']);
    assert(rest.take(rest.len() - 2) =~= esc);
    lemma_escape_is_tokens(value);
    lemma_undo_quotes(value);
    lemma_undo_backslashes(value);
}

} // verus!
