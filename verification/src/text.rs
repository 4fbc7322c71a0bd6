//! Character-level text utilities: substring search, whitespace/control
//! classification, sanitization, and lower-casing of arbitrary text.

use vstd::prelude::*;

verus! {

/// `needle` occurs contiguously somewhere in `hay`.
pub open spec fn contains_seq(hay: Seq<char>, needle: Seq<char>) -> bool {
    exists|i: int|
        0 <= i && i + needle.len() <= hay.len() && #[trigger] hay.subrange(
            i,
            i + needle.len() as int,
        ) == needle
}

/// A control character in the Unicode `Cc` category,
/// as `char::is_control` reports it.
pub open spec fn is_control_char(c: char) -> bool {
    (c as u32) < 0x20 || (0x7f <= (c as u32) && (c as u32) <= 0x9f)
}

/// What one character of a log message is replaced by: control characters
/// other than tab, newline and carriage return become `'?'`.
pub open spec fn sanitize_char(c: char) -> char {
    if is_control_char(c) && c != '\t' && c != '\n' && c != '\r' {
        '?'
    } else {
        c
    }
}

/// A message after sanitization, character by character.
pub open spec fn sanitize_seq(s: Seq<char>) -> Seq<char> {
    Seq::new(s.len(), |i: int| sanitize_char(s[i]))
}

/// The characters of a string, as a vector.
pub fn chars_vec(s: &str) -> (v: Vec<char>)
    ensures
        v@ == s@,
{
    let n = s.unicode_len();
    let mut v: Vec<char> = Vec::new();
    let mut i: usize = 0;
    while i < n
        invariant
            i <= n,
            n == s@.len(),
            v@ == s@.subrange(0, i as int),
        decreases n - i,
    {
        let c = s.get_char(i);
        v.push(c);
        proof {
            assert(s@.subrange(0, i + 1 as int) =~= s@.subrange(0, i as int).push(s@[i as int]));
        }
        i += 1;
    }
    proof {
        assert(s@.subrange(0, n as int) =~= s@);
    }
    v
}

/// Whether `needle` occurs in `hay` starting exactly at index `at`.
fn match_at(hay: &Vec<char>, needle: &Vec<char>, at: usize) -> (r: bool)
    requires
        at + needle@.len() <= hay@.len(),
    ensures
        r == (hay@.subrange(at as int, at as int + needle@.len() as int) == needle@),
{
    let m = needle.len();
    let hl = hay.len();
    let mut j: usize = 0;
    while j < m
        invariant
            j <= m,
            m == needle@.len(),
            hl == hay@.len(),
            at + m <= hl,
            forall|t: int| 0 <= t < j ==> hay@[at + t] == needle@[t],
        decreases m - j,
    {
        if hay[at + j] != needle[j] {
            proof {
                let sub = hay@.subrange(at as int, at as int + m as int);
                assert(sub[j as int] == hay@[at + j]);
            }
            return false;
        }
        j += 1;
    }
    proof {
        assert(hay@.subrange(at as int, at as int + m as int) =~= needle@);
    }
    true
}

/// Substring search over character vectors.
pub fn contains_chars(hay: &Vec<char>, needle: &Vec<char>) -> (r: bool)
    ensures
        r == contains_seq(hay@, needle@),
{
    let n = hay.len();
    let m = needle.len();
    if m > n {
        return false;
    }
    if m == 0 {
        proof {
            assert(hay@.subrange(0, 0 + needle@.len() as int) =~= needle@);
        }
        return true;
    }
    let mut i: usize = 0;
    while i <= n - m
        invariant
            1 <= m <= n,
            n == hay@.len(),
            m == needle@.len(),
            i <= n - m + 1,
            forall|k: int|
                0 <= k < i ==> #[trigger] hay@.subrange(k, k + needle@.len() as int) != needle@,
        decreases n - m + 1 - i,
    {
        if match_at(hay, needle, i) {
            return true;
        }
        i += 1;
    }
    false
}

/// Whether the text begins with a literal prefix.
pub fn starts_with_lit(hay: &Vec<char>, prefix: &str) -> (r: bool)
    ensures
        r == (prefix@.len() <= hay@.len() && hay@.subrange(0, prefix@.len() as int) == prefix@),
{
    let p = chars_vec(prefix);
    if p.len() <= hay.len() {
        match_at(hay, &p, 0)
    } else {
        false
    }
}

/// Character-for-character equality of two pieces of text.
pub fn str_eq(a: &str, b: &str) -> (r: bool)
    ensures
        r == (a@ == b@),
{
    let va = chars_vec(a);
    let vb = chars_vec(b);
    if va.len() != vb.len() {
        return false;
    }
    let r = match_at(&va, &vb, 0);
    proof {
        assert(va@.subrange(0, vb@.len() as int) =~= va@);
        if va@ == vb@ {
            assert(va@.subrange(0, vb@.len() as int) == vb@);
        }
    }
    r
}

/// Substring search with a literal needle.
pub fn contains_lit(hay: &Vec<char>, needle: &str) -> (r: bool)
    ensures
        r == contains_seq(hay@, needle@),
{
    let nv = chars_vec(needle);
    contains_chars(hay, &nv)
}

/// A phrase found in a text carries every piece of itself along: if `phrase`
/// occurs in `hay` and `word` stands inside `phrase` at offset `at`, then
/// `word` occurs in `hay` as well.
pub proof fn lemma_contains_within(hay: Seq<char>, phrase: Seq<char>, word: Seq<char>, at: int)
    requires
        contains_seq(hay, phrase),
        0 <= at,
        at + word.len() <= phrase.len(),
        phrase.subrange(at, at + word.len() as int) == word,
    ensures
        contains_seq(hay, word),
{
    let i = choose|i: int|
        0 <= i && i + phrase.len() <= hay.len() && #[trigger] hay.subrange(
            i,
            i + phrase.len() as int,
        ) == phrase;
    assert forall|t: int| 0 <= t < word.len() implies hay[i + at + t] == word[t] by {
        assert(phrase[at + t] == hay.subrange(i, i + phrase.len() as int)[at + t]);
        assert(word[t] == phrase.subrange(at, at + word.len() as int)[t]);
    }
    let j = i + at;
    assert(hay.subrange(j, j + word.len() as int) =~= word);
}

/// Appends one character to a string.
///
/// Relies on `String::push`: the character is appended at the end.
#[verifier::external_body]
fn push_char(s: &mut String, c: char)
    ensures
        final(s)@ == old(s)@.push(c),
{
    s.push(c);
}

/// Builds a string out of a vector of characters.
pub fn string_from_chars(v: &Vec<char>) -> (r: String)
    ensures
        r@ == v@,
{
    let mut s = String::new();
    let n = v.len();
    let mut i: usize = 0;
    while i < n
        invariant
            i <= n,
            n == v@.len(),
            s@ == v@.subrange(0, i as int),
        decreases n - i,
    {
        push_char(&mut s, v[i]);
        proof {
            assert(v@.subrange(0, i + 1 as int) =~= v@.subrange(0, i as int).push(v@[i as int]));
        }
        i += 1;
    }
    proof {
        assert(v@.subrange(0, n as int) =~= v@);
    }
    s
}

/// The lower-cased form of a piece of text. Unicode case mapping is involved,
/// so the result is only named here; it is fixed by the text alone.
pub uninterp spec fn lower_of(s: Seq<char>) -> Seq<char>;

/// Lower-cases a message before classification.
///
/// Relies on `str::to_lowercase`: the result depends on the characters alone.
#[verifier::external_body]
pub fn lowercase(s: &str) -> (r: String)
    ensures
        r@ == lower_of(s@),
{
    s.to_lowercase()
}

/// Whether `c` is a control character, exactly as `sanitize_char` sees it.
fn is_control_exec(c: char) -> (r: bool)
    ensures
        r == is_control_char(c),
{
    let u = c as u32;
    u < 0x20 || (0x7f <= u && u <= 0x9f)
}

/// Replaces every control character except tab, newline and carriage return
/// with `?`, so that untrusted text cannot inject terminal escapes or fake
/// log lines.
pub fn sanitize_log_message(message: &str) -> (r: String)
    ensures
        r@ == sanitize_seq(message@),
{
    let v = chars_vec(message);
    let n = v.len();
    let mut out: Vec<char> = Vec::new();
    let mut i: usize = 0;
    while i < n
        invariant
            i <= n,
            n == v@.len(),
            v@ == message@,
            out@.len() == i,
            forall|j: int| 0 <= j < i ==> out@[j] == sanitize_char(message@[j]),
        decreases n - i,
    {
        let c = v[i];
        if is_control_exec(c) && c != '\t' && c != '\n' && c != '\r' {
            out.push('?');
        } else {
            out.push(c);
        }
        i += 1;
    }
    proof {
        assert(out@ =~= sanitize_seq(message@));
    }
    string_from_chars(&out)
}

/// Sanitizing a message twice changes nothing beyond the first pass.
pub proof fn lemma_sanitize_idempotent(s: Seq<char>)
    ensures
        sanitize_seq(sanitize_seq(s)) == sanitize_seq(s),
{
    assert forall|i: int| 0 <= i < s.len() implies sanitize_char(sanitize_char(s[i]))
        == sanitize_char(s[i]) by {
        assert(!is_control_char('?'));
    }
    assert(sanitize_seq(sanitize_seq(s)) =~= sanitize_seq(s));
}

/// Sanitization keeps length, keeps tab, newline and carriage return as they
/// are, and replaces every other control character with `?`.
pub proof fn lemma_sanitize_pointwise(s: Seq<char>)
    ensures
        sanitize_seq(s).len() == s.len(),
        forall|i: int|
            0 <= i < s.len() && (s[i] == '\t' || s[i] == '\n' || s[i] == '\r') ==> sanitize_seq(
                s,
            )[i] == s[i],
        forall|i: int|
            0 <= i < s.len() && is_control_char(s[i]) && s[i] != '\t' && s[i] != '\n' && s[i]
                != '\r' ==> sanitize_seq(s)[i] == '?',
        forall|i: int| 0 <= i < s.len() && !is_control_char(s[i]) ==> sanitize_seq(s)[i] == s[i],
{
}

} // verus!
