//! Query strings and file extensions taken from request paths and upload names.

use vstd::prelude::*;
use vstd::string::StringSliceAdditionalSpecFns;
use vstd::utf8::encode_utf8;
use crate::chars::{chars_of, find_char, first_index, lemma_first_index, matches_at, split_char, string_from_chars};
use crate::escape::{url_decode, url_decode_bytes};

verus! {

/// The part of a path between its first `?` and the next one (or the end).
pub open spec fn query_part(path: Seq<char>) -> Option<Seq<char>> {
    let parts = split_char(path, '?');
    if parts.len() >= 2 {
        Some(parts[1])
    } else {
        None
    }
}

/// The name of a `name=value` pair: all of it when there is no `=`.
pub open spec fn pair_name(pair: Seq<char>) -> Seq<char> {
    let k = first_index(pair, '=');
    if k < 0 {
        pair
    } else {
        pair.take(k)
    }
}

/// The raw value of a `name=value` pair: empty when there is no `=`.
pub open spec fn pair_value(pair: Seq<char>) -> Seq<char> {
    let k = first_index(pair, '=');
    if k < 0 {
        Seq::empty()
    } else {
        pair.skip(k + 1)
    }
}

/// The raw value of the first pair named `key`.
pub open spec fn find_param(pairs: Seq<Seq<char>>, key: Seq<char>) -> Option<Seq<char>>
    decreases pairs.len(),
{
    if pairs.len() == 0 {
        None
    } else if pair_name(pairs[0]) == key {
        Some(pair_value(pairs[0]))
    } else {
        find_param(pairs.drop_first(), key)
    }
}

/// The still-encoded value of query parameter `key` in `path`.
pub open spec fn query_param_raw(path: Seq<char>, key: Seq<char>) -> Option<Seq<char>> {
    match query_part(path) {
        None => None,
        Some(q) => find_param(split_char(q, '&'), key),
    }
}

proof fn lemma_split_once(s: Seq<char>, c: char, k: int)
    requires
        first_index(s, c) == k,
    ensures
        k < 0 ==> split_char(s, c) == seq![s],
        k >= 0 ==> split_char(s, c) == seq![s.take(k)] + split_char(s.skip(k + 1), c),
{
    lemma_first_index(s, c);
}

/// The URL-decoded value of query parameter `key` in `path`, if the path has a query
/// string and a pair with that name.
pub fn parse_query_param(path: &str, key: &str) -> (r: Option<String>)
    ensures
        r is Some <==> query_param_raw(path@, key@) is Some,
        r matches Some(v) ==> v@ == url_decode_bytes(encode_utf8(query_param_raw(path@, key@)->0)),
{
    let p = chars_of(path);
    let k = chars_of(key);
    let n = p.len();
    assert(p@.subrange(0, n as int) =~= p@);
    let q0 = match find_char(p.as_slice(), 0, n, '?') {
        Some(i) => i,
        None => {
            proof {
                lemma_split_once(p@, '?', -1);
            }
            return None;
        },
    };
    let qs = q0 + 1;
    let qe = match find_char(p.as_slice(), qs, n, '?') {
        Some(i) => i,
        None => n,
    };
    let ghost q = p@.subrange(qs as int, qe as int);
    proof {
        lemma_split_once(p@, '?', q0 as int);
        let tail = p@.skip(qs as int);
        assert(tail =~= p@.subrange(qs as int, n as int));
        let k1 = first_index(tail, '?');
        lemma_split_once(tail, '?', k1);
        if k1 >= 0 {
            assert(tail.take(k1) =~= q);
        } else {
            assert(tail =~= q);
        }
        assert(query_part(p@) == Some(q));
    }
    let mut j = qs;
    assert(p@.subrange(j as int, qe as int) =~= q);
    loop
        invariant
            qs <= j <= qe <= n,
            n == p@.len(),
            p@ == path@,
            k@ == key@,
            query_param_raw(path@, key@) == find_param(
                split_char(p@.subrange(j as int, qe as int), '&'),
                key@,
            ),
        decreases qe - j,
    {
        let ghost rem = p@.subrange(j as int, qe as int);
        let e = match find_char(p.as_slice(), j, qe, '&') {
            Some(i) => i,
            None => qe,
        };
        let ghost pair = p@.subrange(j as int, e as int);
        proof {
            let ka = first_index(rem, '&');
            lemma_split_once(rem, '&', ka);
            if ka >= 0 {
                assert(rem.take(ka) =~= pair);
                assert(rem.skip(ka + 1) =~= p@.subrange(e + 1, qe as int));
            } else {
                assert(rem =~= pair);
            }
            assert(split_char(rem, '&')[0] == pair);
        }
        let eq = find_char(p.as_slice(), j, e, '=');
        let name_end = match eq {
            Some(i) => i,
            None => e,
        };
        let name_matches = name_end - j == k.len() && matches_at(p.as_slice(), j, k.as_slice());
        proof {
            if eq is Some {
                assert(pair_name(pair) =~= p@.subrange(j as int, name_end as int));
            } else {
                assert(pair_name(pair) =~= p@.subrange(j as int, name_end as int));
            }
            if name_end - j == k@.len() {
                assert(p@.subrange(j as int, j + k@.len()) == p@.subrange(
                    j as int,
                    name_end as int,
                ));
            }
            if name_matches {
                assert(pair_name(pair) =~= k@);
            } else if pair_name(pair) == k@ {
                assert(name_end - j == k@.len());
                assert(p@.subrange(j as int, j + k@.len()) =~= k@);
            }
            assert(name_matches == (pair_name(pair) == k@));
        }
        if name_matches {
            let (vs, ve) = match eq {
                Some(i) => (i + 1, e),
                None => (e, e),
            };
            proof {
                if eq is Some {
                    assert(pair_value(pair) =~= p@.subrange(vs as int, ve as int));
                } else {
                    assert(pair_value(pair) =~= p@.subrange(vs as int, ve as int));
                }
            }
            let value = path.substring_char(vs, ve);
            return Some(url_decode(value));
        }
        proof {
            let ss = split_char(rem, '&');
            assert(ss[0] == pair);
            if !name_matches {
                assert(find_param(ss, k@) == find_param(ss.drop_first(), k@));
            }
        }
        if e == qe {
            proof {
                let ka = first_index(rem, '&');
                if ka >= 0 {
                    lemma_first_index(rem, '&');
                }
                assert(split_char(rem, '&').drop_first() =~= Seq::<Seq<char>>::empty());
            }
            return None;
        }
        proof {
            let ka = first_index(rem, '&');
            lemma_first_index(rem, '&');
            assert(ka >= 0);
            assert(split_char(rem, '&').drop_first() =~= split_char(p@.subrange(e + 1, qe as int), '&'));
        }
        j = e + 1;
    }
}

/// ASCII letters and digits.
pub open spec fn is_ascii_alnum(c: char) -> bool {
    ('0' <= c && c <= '9') || ('a' <= c && c <= 'z') || ('A' <= c && c <= 'Z')
}

/// ASCII lower-casing of one character.
pub open spec fn ascii_lower(c: char) -> char {
    if 'A' <= c && c <= 'Z' {
        ((c as u32) + 32) as char
    } else {
        c
    }
}

/// The ASCII letters and digits of `s`, in order.
pub open spec fn keep_alnum(s: Seq<char>) -> Seq<char>
    decreases s.len(),
{
    if s.len() == 0 {
        Seq::empty()
    } else if is_ascii_alnum(s.last()) {
        keep_alnum(s.drop_last()).push(s.last())
    } else {
        keep_alnum(s.drop_last())
    }
}

/// The first `n` elements of `s`, or all of them.
pub open spec fn at_most(s: Seq<char>, n: nat) -> Seq<char> {
    if s.len() <= n {
        s
    } else {
        s.take(n as int)
    }
}

/// The first eight ASCII letters and digits of `s`, lower-cased.
pub open spec fn sanitize_extension_spec(s: Seq<char>) -> Seq<char> {
    at_most(keep_alnum(s), 8).map_values(|c: char| ascii_lower(c))
}

/// Makes a file extension safe to use in a file name: keeps the first eight ASCII letters
/// and digits, lower-cased.
pub fn sanitize_extension(value: &str) -> (r: String)
    ensures
        r@ == sanitize_extension_spec(value@),
{
    let s = chars_of(value);
    let n = s.len();
    let mut out: Vec<char> = Vec::new();
    let mut i: usize = 0;
    while i < n
        invariant
            n == s@.len(),
            i <= n,
            out@ == sanitize_extension_spec(s@.subrange(0, i as int)),
        decreases n - i,
    {
        let c = s[i];
        let ghost prev = s@.subrange(0, i as int);
        let ghost next = s@.subrange(0, i + 1);
        assert(next.drop_last() =~= prev);
        assert(next.last() == c);
        let alnum = ('0' <= c && c <= '9') || ('a' <= c && c <= 'z') || ('A' <= c && c <= 'Z');
        if alnum && out.len() < 8 {
            let lower = if 'A' <= c && c <= 'Z' {
                ((c as u8) + 32) as char
            } else {
                c
            };
            out.push(lower);
            assert(keep_alnum(next) == keep_alnum(prev).push(c));
            assert(out@ =~= sanitize_extension_spec(next));
        } else if alnum {
            assert(keep_alnum(next) == keep_alnum(prev).push(c));
            assert(at_most(keep_alnum(next), 8) =~= at_most(keep_alnum(prev), 8));
        } else {
            assert(keep_alnum(next) == keep_alnum(prev));
        }
        i = i + 1;
    }
    assert(s@.subrange(0, n as int) =~= s@);
    string_from_chars(out.as_slice())
}

} // verus!
