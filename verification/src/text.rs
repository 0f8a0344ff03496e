//! Character-sequence helpers.
//!
//! Formula text is processed as `Vec<char>`.  This module converts
//! between strings and character vectors, decides substring and ASCII
//! questions, and specifies word-boundary substitution: replacing every
//! occurrence of an identifier that is not flanked by word characters.
//! The substitution itself is delegated to the `regex` crate through a
//! trusted wrapper whose contract is the spec function defined here.

use vstd::prelude::*;
use vstd::string::StrSliceExecFns;
use vstd::utf8::is_ascii_chars;

verus! {

/// The characters of a string slice, in order.
pub fn str_to_chars(s: &str) -> (r: Vec<char>)
    ensures
        r@ == s@,
{
    let n: usize = s.unicode_len();
    let mut r: Vec<char> = Vec::new();
    let mut i: usize = 0;
    while i < n
        invariant
            n == s@.len(),
            i <= n,
            r@ == s@.subrange(0, i as int),
        decreases n - i,
    {
        r.push(s.get_char(i));
        i = i + 1;
        proof {
            assert(r@ =~= s@.subrange(0, i as int));
        }
    }
    proof {
        assert(r@ =~= s@);
    }
    r
}

/// Relies on `String: FromIterator<char>`: collecting characters yields
/// the string of exactly those characters, in order.
#[verifier::external_body]
pub fn chars_to_string(v: &Vec<char>) -> (r: String)
    ensures
        r@ == v@,
{
    v.iter().collect()
}

/// Whether a string's characters are exactly those of a literal.
pub fn eq_lit(s: &String, lit: &str) -> (r: bool)
    ensures
        r == (s@ == lit@),
{
    *s == lit.to_owned()
}

/// A word character: ASCII letter, digit or underscore.
pub open spec fn is_word_char(c: char) -> bool {
    ('0' <= c && c <= '9') || ('a' <= c && c <= 'z') || ('A' <= c && c <= 'Z') || c == '_'
}

fn is_word_char_x(c: char) -> (r: bool)
    ensures
        r == is_word_char(c),
{
    ('0' <= c && c <= '9') || ('a' <= c && c <= 'z') || ('A' <= c && c <= 'Z') || c == '_'
}

/// A usable identifier: nonempty and made of word characters only.
pub open spec fn is_word_name(n: Seq<char>) -> bool {
    n.len() > 0 && (forall|i: int| 0 <= i < n.len() ==> is_word_char(#[trigger] n[i]))
}

/// Whether the identifier `n` stands at position `i` of `t`, flanked on
/// neither side by a word character.
pub open spec fn word_match_at(t: Seq<char>, n: Seq<char>, i: int) -> bool {
    &&& n.len() > 0
    &&& 0 <= i
    &&& i + n.len() <= t.len()
    &&& t.subrange(i, i + n.len()) == n
    &&& (i == 0 || !is_word_char(t[i - 1]))
    &&& (i + n.len() == t.len() || !is_word_char(t[i + n.len()]))
}

/// The text from position `i` on, with every word-boundary occurrence
/// of `n` replaced by `v`, leftmost first, without overlap.  Boundaries
/// are judged against the text as it stood before any replacement.
pub open spec fn word_replaced_from(t: Seq<char>, n: Seq<char>, v: Seq<char>, i: int) -> Seq<char>
    decreases t.len() - i,
{
    if i < 0 || i >= t.len() {
        Seq::empty()
    } else if word_match_at(t, n, i) {
        v + word_replaced_from(t, n, v, i + n.len())
    } else {
        seq![t[i]] + word_replaced_from(t, n, v, i + 1)
    }
}

/// The text with every word-boundary occurrence of `n` replaced by `v`.
pub open spec fn word_replaced(t: Seq<char>, n: Seq<char>, v: Seq<char>) -> Seq<char> {
    word_replaced_from(t, n, v, 0)
}

/// Longest identifier [`replace_word`] accepts: far below the size at
/// which the regex compiler would refuse a literal pattern.
pub const MAX_BINDING_NAME: usize = 1024;

/// Relies on `regex::Regex::new` and `Regex::replace_all`: the pattern
/// `\b<name>\b` matches exactly the word-boundary occurrences of the
/// identifier, and `replace_all` rewrites the leftmost, non-overlapping
/// ones.  `NoExpand` keeps the replacement text literal.  All three
/// inputs being ASCII, the crate's Unicode word boundary coincides with
/// the ASCII one of [`word_replaced`].  The length bound keeps the
/// compiled pattern far under the compiler's size limit, so building
/// the pattern cannot fail.
#[verifier::external_body]
pub fn replace_word(text: &str, name: &str, value: &str) -> (r: String)
    requires
        is_word_name(name@),
        name@.len() <= MAX_BINDING_NAME as nat,
        is_ascii_chars(text@),
        is_ascii_chars(name@),
        is_ascii_chars(value@),
    ensures
        r@ == word_replaced(text@, name@, value@),
{
    let pattern = format!("\\b{}\\b", name);
    let re = regex::Regex::new(&pattern).unwrap();
    re.replace_all(text, regex::NoExpand(value)).into_owned()
}

/// Whether every character is ASCII.
pub fn all_ascii(v: &Vec<char>) -> (r: bool)
    ensures
        r == is_ascii_chars(v@),
{
    let mut i: usize = 0;
    while i < v.len()
        invariant
            i <= v@.len(),
            forall|j: int| 0 <= j < i ==> '\0' <= #[trigger] v@[j] <= '\u{7f}',
        decreases v@.len() - i,
    {
        let c: char = v[i];
        if !('\0' <= c && c <= '\u{7f}') {
            return false;
        }
        i = i + 1;
    }
    true
}

/// Whether the characters form a usable identifier.
pub fn word_name_ok(v: &Vec<char>) -> (r: bool)
    ensures
        r == is_word_name(v@),
{
    if v.len() == 0 {
        return false;
    }
    let mut i: usize = 0;
    while i < v.len()
        invariant
            i <= v@.len(),
            forall|j: int| 0 <= j < i ==> is_word_char(#[trigger] v@[j]),
        decreases v@.len() - i,
    {
        if !is_word_char_x(v[i]) {
            return false;
        }
        i = i + 1;
    }
    true
}

/// Whether `n` occurs as a contiguous substring of `h`.
pub open spec fn has_substring(h: Seq<char>, n: Seq<char>) -> bool {
    exists|i: int| 0 <= i && i + n.len() <= h.len() && #[trigger] h.subrange(i, i + n.len()) == n
}

fn match_at(h: &Vec<char>, n: &Vec<char>, at: usize) -> (r: bool)
    requires
        at + n@.len() <= h@.len(),
    ensures
        r == (h@.subrange(at as int, at + n@.len()) == n@),
{
    let hl: usize = h.len();
    let mut j: usize = 0;
    while j < n.len()
        invariant
            j <= n@.len(),
            at + n@.len() <= h@.len(),
            hl == h@.len(),
            forall|k: int| 0 <= k < j ==> h@[at + k] == n@[k],
        decreases n@.len() - j,
    {
        if h[at + j] != n[j] {
            proof {
                assert(h@.subrange(at as int, at + n@.len())[j as int] == h@[at + j]);
            }
            return false;
        }
        j = j + 1;
    }
    proof {
        assert(h@.subrange(at as int, at + n@.len()) =~= n@);
    }
    true
}

/// Whether `n` occurs as a contiguous substring of `h`.
pub fn contains_chars(h: &Vec<char>, n: &Vec<char>) -> (r: bool)
    ensures
        r == has_substring(h@, n@),
{
    if n.len() > h.len() {
        proof {
            assert(!has_substring(h@, n@));
        }
        return false;
    }
    if n.len() == 0 {
        proof {
            assert(h@.subrange(0, 0 + n@.len() as int) =~= n@);
        }
        return true;
    }
    let last: usize = h.len() - n.len();
    let mut i: usize = 0;
    loop
        invariant
            i <= last + 1,
            last <= usize::MAX - 1,
            last + n@.len() == h@.len(),
            forall|k: int|
                0 <= k < i ==> #[trigger] h@.subrange(k, k + n@.len()) != n@,
        decreases last + 1 - i,
    {
        if i > last {
            return false;
        }
        if match_at(h, n, i) {
            return true;
        }
        i = i + 1;
    }
}

} // verus!
