//! URL parsing and resolution, done by the `url` crate.
//!
//! A URL is held in this library as its serialization: the text that
//! `url::Url` prints, which parses back to the same URL.

use vstd::prelude::*;

verus! {

#[verifier::external_type_specification]
#[verifier::external_body]
pub struct ExParseError(url::ParseError);

/// The serialization of the URL that `url::Url::parse` reads from `input`,
/// or `None` where it refuses the text.
pub uninterp spec fn parsed_url(input: Seq<char>) -> Option<Seq<char>>;

/// The serialization of the URL that `url::Url::join` resolves from `input`
/// against the URL `base` (a serialization), or `None` where `base` does not
/// parse or the join is refused.
pub uninterp spec fn joined_url(base: Seq<char>, input: Seq<char>) -> Option<Seq<char>>;

/// Parses an absolute URL.
///
/// Trusted: calls `url::Url::parse` and hands back the parsed URL's
/// serialization (`String::from(Url)`), or the crate's error.  The contract
/// only names the outcome: it succeeds exactly where `parsed_url` is `Some`,
/// with that text.
#[verifier::external_body]
pub(crate) fn url_parse(input: &str) -> (res: Result<String, url::ParseError>)
    ensures
        res is Ok <==> parsed_url(input@) is Some,
        res matches Ok(s) ==> s@ == parsed_url(input@)->0,
{
    match url::Url::parse(input) {
        Ok(url) => Ok(String::from(url)),
        Err(e) => Err(e),
    }
}

/// Resolves `input` against the URL whose serialization is `base`.
///
/// Trusted: reads `base` back into a `url::Url` with `url::Url::parse`,
/// calls `url::Url::join` on it, and hands back the serialization of the
/// result, or the crate's error.  The contract only names the outcome: it
/// succeeds exactly where `joined_url` is `Some`, with that text.
#[verifier::external_body]
pub(crate) fn url_join(base: &str, input: &str) -> (res: Result<String, url::ParseError>)
    ensures
        res is Ok <==> joined_url(base@, input@) is Some,
        res matches Ok(s) ==> s@ == joined_url(base@, input@)->0,
{
    match url::Url::parse(base) {
        Ok(base_url) => match base_url.join(input) {
            Ok(url) => Ok(String::from(url)),
            Err(e) => Err(e),
        },
        Err(e) => Err(e),
    }
}

/// The serialization of the URL `url` (parsed with `url::Url::parse`) after
/// `url::form_urlencoded::Serializer::append_pair(key, value)` on its query
/// (from `url::Url::query_pairs_mut`), or `None` where `url` does not parse.
pub uninterp spec fn with_query_pair(url: Seq<char>, key: Seq<char>, value: Seq<char>) -> Option<
    Seq<char>,
>;

/// The number of UTF-8 bytes of the character `c`.
pub open spec fn utf8_width(c: char) -> nat {
    let n = c as u32;
    if n < 0x80 {
        1
    } else if n < 0x800 {
        2
    } else if n < 0x10000 {
        3
    } else {
        4
    }
}

/// The number of UTF-8 bytes of `s`.
pub open spec fn utf8_size(s: Seq<char>) -> nat
    decreases s.len(),
{
    if s.len() == 0 {
        0
    } else {
        utf8_size(s.drop_last()) + utf8_width(s.last())
    }
}

/// Whether form-urlencoding leaves the character as it is.
pub open spec fn form_unchanged(c: char) -> bool {
    c == '*' || c == '-' || c == '.' || c == '_' || ('0' <= c && c <= '9') || ('A' <= c && c
        <= 'Z') || ('a' <= c && c <= 'z')
}

/// The number of bytes form-urlencoding makes of `c`: itself, `+` for a
/// space, or `%XX` for each of its UTF-8 bytes.
pub open spec fn form_width(c: char) -> nat {
    if form_unchanged(c) || c == ' ' {
        1
    } else {
        3 * utf8_width(c)
    }
}

/// The number of bytes of `s` form-urlencoded.
pub open spec fn form_size(s: Seq<char>) -> nat
    decreases s.len(),
{
    if s.len() == 0 {
        0
    } else {
        form_size(s.drop_last()) + form_width(s.last())
    }
}

/// The position of the first `c` in `s`, or the length of `s` where there
/// is none.
pub open spec fn first_pos(s: Seq<char>, c: char) -> nat
    decreases s.len(),
{
    if s.len() == 0 {
        0
    } else if s[0] == c {
        0
    } else {
        1 + first_pos(s.skip(1), c)
    }
}

/// Whether appending `key=value` to the query of the URL with the
/// serialization `s` stays within the `url` crate's `u32` offsets, exactly
/// where it does not panic.  The first `#` of a serialization starts its
/// fragment and the first `?` before it starts its query.  Without a query,
/// the query's start (the length before the fragment) must fit; with a
/// fragment, so must the fragment's new start: the text before it, a `?` or
/// `&` (none after an empty query), the encoded key, `=`, and the encoded
/// value.
pub open spec fn query_pair_fits(s: Seq<char>, key: Seq<char>, value: Seq<char>) -> bool {
    let f = first_pos(s, '#');
    let pre = s.take(f as int);
    let q = first_pos(pre, '?');
    let has_query = q < pre.len();
    let sep: nat = if has_query && q + 1 == pre.len() {
        0
    } else {
        1
    };
    &&& (has_query || utf8_size(pre) <= u32::MAX)
    &&& (f < s.len() ==> utf8_size(pre) + sep + form_size(key) + 1 + form_size(value)
        <= u32::MAX)
}

proof fn lemma_first_pos_bound(s: Seq<char>, c: char)
    ensures
        first_pos(s, c) <= s.len(),
    decreases s.len(),
{
    if s.len() > 0 && s[0] != c {
        lemma_first_pos_bound(s.skip(1), c);
    }
}

fn first_pos_exec(cs: &Vec<char>, end: usize, c: char) -> (res: usize)
    requires
        end <= cs.len(),
    ensures
        res == first_pos(cs@.take(end as int), c),
        res <= end,
{
    let ghost s = cs@.take(end as int);
    let mut i: usize = 0;
    assert(s.skip(0) =~= s);
    while i < end && cs[i] != c
        invariant
            end <= cs.len(),
            s == cs@.take(end as int),
            i <= end,
            first_pos(s, c) == i + first_pos(s.skip(i as int), c),
        decreases end - i,
    {
        assert(s.skip(i as int).skip(1) =~= s.skip(i + 1));
        i = i + 1;
    }
    proof {
        lemma_first_pos_bound(s, c);
    }
    i
}

fn utf8_width_exec(c: char) -> (res: u128)
    ensures
        res == utf8_width(c),
{
    let n = c as u32;
    if n < 0x80 {
        1
    } else if n < 0x800 {
        2
    } else if n < 0x10000 {
        3
    } else {
        4
    }
}

fn utf8_size_exec(cs: &Vec<char>, end: usize) -> (res: u128)
    requires
        end <= cs.len(),
    ensures
        res == utf8_size(cs@.take(end as int)),
        res <= 4 * end,
{
    let mut total: u128 = 0;
    let mut i: usize = 0;
    while i < end
        invariant
            end <= cs.len(),
            i <= end,
            total == utf8_size(cs@.take(i as int)),
            total <= 4 * i,
        decreases end - i,
    {
        assert(cs@.take(i + 1).drop_last() =~= cs@.take(i as int));
        total = total + utf8_width_exec(cs[i]);
        i = i + 1;
    }
    total
}

fn form_size_exec(s: &str) -> (res: u128)
    ensures
        res == form_size(s@),
        res <= 12 * (usize::MAX as int),
{
    let cs = crate::text::chars_of(s);
    let mut total: u128 = 0;
    let mut i: usize = 0;
    while i < cs.len()
        invariant
            i <= cs.len(),
            total == form_size(cs@.take(i as int)),
            total <= 12 * i,
        decreases cs.len() - i,
    {
        assert(cs@.take(i + 1).drop_last() =~= cs@.take(i as int));
        let c = cs[i];
        let unchanged = c == '*' || c == '-' || c == '.' || c == '_' || ('0' <= c && c <= '9') || (
        'A' <= c && c <= 'Z') || ('a' <= c && c <= 'z');
        let w = if unchanged || c == ' ' {
            1
        } else {
            3 * utf8_width_exec(c)
        };
        total = total + w;
        i = i + 1;
    }
    assert(cs@.take(i as int) =~= s@);
    total
}

/// Whether appending `key=value` to the query of the URL with the
/// serialization `s` stays within the `url` crate's `u32` offsets.
pub fn query_pair_fits_exec(s: &str, key: &str, value: &str) -> (res: bool)
    ensures
        res == query_pair_fits(s@, key@, value@),
{
    let cs = crate::text::chars_of(s);
    let f = first_pos_exec(&cs, cs.len(), '#');
    assert(cs@.take(cs.len() as int) =~= s@);
    let q = first_pos_exec(&cs, f, '?');
    let ghost pre = s@.take(f as int);
    assert(cs@.take(f as int) =~= pre);
    let has_query = q < f;
    let sep: u128 = if has_query && q + 1 == f {
        0
    } else {
        1
    };
    let pre_size = utf8_size_exec(&cs, f);
    if !has_query && pre_size > 0xffff_ffff {
        return false;
    }
    if f < cs.len() {
        let k = form_size_exec(key);
        let v = form_size_exec(value);
        if pre_size + sep + k + 1 + v > 0xffff_ffff {
            return false;
        }
    }
    true
}

/// Appends the query pair `key=value`, form-urlencoded, to the URL `url`.
///
/// Trusted: parses `url` with `url::Url::parse`, calls
/// `append_pair(key, value)` on `url::Url::query_pairs_mut`, and hands back
/// the serialization.  The `url` crate unwraps offsets that must fit in a
/// `u32` (the query's start, and the fragment's start after the append);
/// the `requires` keeps to URLs that parse and to the inputs on which those
/// offsets fit (`query_pair_fits`).  The contract only names the result.
#[verifier::external_body]
pub(crate) fn url_append_query_pair(url: &str, key: &str, value: &str) -> (res: String)
    requires
        parsed_url(url@) is Some,
        query_pair_fits(parsed_url(url@)->0, key@, value@),
    ensures
        with_query_pair(url@, key@, value@) == Some(res@),
{
    let mut parsed = url::Url::parse(url).expect("the url parses");
    parsed.query_pairs_mut().append_pair(key, value);
    String::from(parsed)
}

} // verus!
