//! Text normalisation: trimming, lower-casing and removal of surrounding quotes.

use vstd::prelude::*;
use vstd::string::*;

verus! {

/// Whether `c` has the Unicode property `White_Space`, as `char::is_whitespace` reports it.
pub uninterp spec fn whitespace(c: char) -> bool;

/// The lower-case equivalent of a text, as `str::to_lowercase` computes it.
pub uninterp spec fn lowercased(s: Seq<char>) -> Seq<char>;

/// The class of characters that is removed from both ends of a text.
#[derive(Clone, Copy, Debug, PartialEq, Eq, Structural)]
pub enum Strip {
    /// Unicode white space.
    Whitespace,
    /// The double and the single quote.
    Quotes,
}

/// Whether `c` belongs to the class `kind`.
pub open spec fn strips(kind: Strip, c: char) -> bool {
    match kind {
        Strip::Whitespace => whitespace(c),
        Strip::Quotes => c == '"' || c == '\'',
    }
}

/// `s` without its longest prefix made of characters of `kind`.
pub open spec fn skip_front(s: Seq<char>, kind: Strip) -> Seq<char>
    decreases s.len(),
{
    if s.len() > 0 && strips(kind, s.first()) {
        skip_front(s.drop_first(), kind)
    } else {
        s
    }
}

/// `s` without its longest suffix made of characters of `kind`.
pub open spec fn skip_back(s: Seq<char>, kind: Strip) -> Seq<char>
    decreases s.len(),
{
    if s.len() > 0 && strips(kind, s.last()) {
        skip_back(s.drop_last(), kind)
    } else {
        s
    }
}

/// `s` with the characters of `kind` removed from both ends.
pub open spec fn stripped(s: Seq<char>, kind: Strip) -> Seq<char> {
    skip_back(skip_front(s, kind), kind)
}

/// `s` without leading and trailing white space.
pub open spec fn trimmed(s: Seq<char>) -> Seq<char> {
    stripped(s, Strip::Whitespace)
}

/// `s` without surrounding quote characters.
pub open spec fn unquoted(s: Seq<char>) -> Seq<char> {
    stripped(s, Strip::Quotes)
}

/// The normal form of a name: trimmed, then lower-cased.
pub open spec fn normalized(s: Seq<char>) -> Seq<char> {
    lowercased(trimmed(s))
}

/// Calls `char::is_whitespace`: the result is the `White_Space` property of `c`.
#[verifier::external_body]
fn is_whitespace(c: char) -> (b: bool)
    ensures
        b == whitespace(c),
{
    c.is_whitespace()
}

/// Calls `str::to_lowercase`: the result is the lower-case equivalent of `s`.
#[verifier::external_body]
fn to_lowercase(s: &str) -> (r: String)
    ensures
        r@ == lowercased(s@),
{
    s.to_lowercase()
}

/// Calls `String::from_utf8`: it succeeds on exactly the byte sequences that
/// are valid UTF-8, and the text then holds the characters that they encode.
#[verifier::external_body]
pub(crate) fn from_utf8(bytes: Vec<u8>) -> (r: Option<String>)
    ensures
        match r {
            Some(s) => vstd::utf8::valid_utf8(bytes@) && s@ == vstd::utf8::decode_utf8(bytes@),
            None => !vstd::utf8::valid_utf8(bytes@),
        },
{
    String::from_utf8(bytes).ok()
}

fn in_class(kind: Strip, c: char) -> (b: bool)
    ensures
        b == strips(kind, c),
{
    match kind {
        Strip::Whitespace => is_whitespace(c),
        Strip::Quotes => c == '"' || c == '\'',
    }
}

/// Removes the characters of `kind` from both ends of `s`.
pub fn strip<'a>(s: &'a str, kind: Strip) -> (r: &'a str)
    ensures
        r@ == stripped(s@, kind),
{
    let n: usize = s.unicode_len();
    let mut i: usize = 0;
    assert(s@.subrange(0, n as int) =~= s@);
    while i < n && in_class(kind, s.get_char(i))
        invariant
            n == s@.len(),
            i <= n,
            skip_front(s@, kind) == skip_front(s@.subrange(i as int, n as int), kind),
        decreases n - i,
    {
        assert(s@.subrange(i as int, n as int).drop_first() =~= s@.subrange(i + 1, n as int));
        i = i + 1;
    }
    let mut j: usize = n;
    while j > i && in_class(kind, s.get_char(j - 1))
        invariant
            n == s@.len(),
            i <= j <= n,
            stripped(s@, kind) == skip_back(s@.subrange(i as int, j as int), kind),
        decreases j,
    {
        assert(s@.subrange(i as int, j as int).drop_last() =~= s@.subrange(i as int, j - 1));
        j = j - 1;
    }
    s.substring_char(i, j)
}

/// Trims `s`, then lower-cases it.
pub fn normalize(s: &str) -> (r: String)
    ensures
        r@ == normalized(s@),
{
    to_lowercase(strip(s, Strip::Whitespace))
}

/// Whether two texts hold the same characters.
pub fn same_text(a: &str, b: &str) -> (r: bool)
    ensures
        r == (a@ == b@),
{
    let n: usize = a.unicode_len();
    if n != b.unicode_len() {
        return false;
    }
    let mut i: usize = 0;
    while i < n
        invariant
            n == a@.len(),
            n == b@.len(),
            i <= n,
            a@.subrange(0, i as int) == b@.subrange(0, i as int),
        decreases n - i,
    {
        if a.get_char(i) != b.get_char(i) {
            return false;
        }
        assert(a@.subrange(0, i + 1) =~= a@.subrange(0, i as int).push(a@[i as int]));
        assert(b@.subrange(0, i + 1) =~= b@.subrange(0, i as int).push(b@[i as int]));
        i = i + 1;
    }
    assert(a@ =~= a@.subrange(0, n as int));
    assert(b@ =~= b@.subrange(0, n as int));
    true
}

} // verus!
