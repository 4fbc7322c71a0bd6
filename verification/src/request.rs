//! Request-side helpers: the header collection the proxy reads, client-IP
//! extraction from proxy headers, and the protected-endpoint check.

use vstd::prelude::*;

use crate::text::chars_vec;
use crate::text::str_eq;
use crate::text::string_from_chars;

verus! {

/// One request header: a (lower-cased) name and its value. A header whose
/// value is not readable as text does not appear at all.
#[derive(Clone, Debug)]
pub struct HeaderEntry {
    pub name: String,
    pub value: String,
}

/// The headers of one inbound request, in arrival order.
#[derive(Clone, Debug)]
pub struct Headers {
    pub entries: Vec<HeaderEntry>,
}

/// The value of the first entry at or after `from` whose name is `name`.
pub open spec fn lookup_from(
    entries: Seq<HeaderEntry>,
    from: int,
    name: Seq<char>,
) -> Option<Seq<char>>
    decreases entries.len() - from,
{
    if from < 0 || from >= entries.len() {
        None
    } else if entries[from].name@ == name {
        Some(entries[from].value@)
    } else {
        lookup_from(entries, from + 1, name)
    }
}

/// The value of the first entry named `name`, if any.
pub open spec fn lookup(entries: Seq<HeaderEntry>, name: Seq<char>) -> Option<Seq<char>> {
    lookup_from(entries, 0, name)
}

/// A character with the Unicode `White_Space` property, as
/// `char::is_whitespace` reports it.
pub open spec fn is_space_char(c: char) -> bool {
    let u = c as u32;
    ||| u == 0x09
    ||| u == 0x0a
    ||| u == 0x0b
    ||| u == 0x0c
    ||| u == 0x0d
    ||| u == 0x20
    ||| u == 0x85
    ||| u == 0xa0
    ||| u == 0x1680
    ||| (0x2000 <= u && u <= 0x200a)
    ||| u == 0x2028
    ||| u == 0x2029
    ||| u == 0x202f
    ||| u == 0x205f
    ||| u == 0x3000
}

/// The first position at or after `from` that holds a non-space character,
/// or the end of the text.
pub open spec fn space_run(s: Seq<char>, from: int) -> int
    recommends
        0 <= from <= s.len(),
    decreases s.len() - from,
{
    if from < 0 || from >= s.len() {
        s.len() as int
    } else if is_space_char(s[from]) {
        space_run(s, from + 1)
    } else {
        from
    }
}

/// The position just after the last non-space character strictly before
/// `till`, or zero if there is none.
pub open spec fn nonspace_end(s: Seq<char>, till: int) -> int
    recommends
        0 <= till <= s.len(),
    decreases till,
{
    if till <= 0 {
        0
    } else if is_space_char(s[till - 1]) {
        nonspace_end(s, till - 1)
    } else {
        till
    }
}

/// The text with leading and trailing whitespace removed.
pub open spec fn trim_spaces(t: Seq<char>) -> Seq<char> {
    let a = space_run(t, 0);
    let b = nonspace_end(t, t.len() as int);
    if a < b {
        t.subrange(a, b)
    } else {
        Seq::<char>::empty()
    }
}

/// The first position at or after `from` that holds a comma, or the end of
/// the text.
pub open spec fn comma_pos(s: Seq<char>, from: int) -> int
    recommends
        0 <= from <= s.len(),
    decreases s.len() - from,
{
    if from < 0 || from >= s.len() {
        s.len() as int
    } else if s[from] == ',' {
        from
    } else {
        comma_pos(s, from + 1)
    }
}

/// The part of the text before its first comma.
pub open spec fn before_comma(v: Seq<char>) -> Seq<char> {
    v.subrange(0, comma_pos(v, 0))
}

/// The client address a header value yields: the part before the first
/// comma, trimmed of whitespace.
pub open spec fn ip_of_value(v: Seq<char>) -> Seq<char> {
    trim_spaces(before_comma(v))
}

/// What one header name contributes: its value's client address, unless the
/// header is absent or the address comes out empty.
pub open spec fn hit(entries: Seq<HeaderEntry>, name: Seq<char>) -> Option<Seq<char>> {
    match lookup(entries, name) {
        Some(v) => if ip_of_value(v).len() > 0 {
            Some(ip_of_value(v))
        } else {
            None
        },
        None => None,
    }
}

/// The client address the header collection yields: the first of the four
/// proxy headers, in their fixed order, that contributes one.
pub open spec fn client_ip(entries: Seq<HeaderEntry>) -> Option<Seq<char>> {
    if hit(entries, "x-forwarded-for"@) is Some {
        hit(entries, "x-forwarded-for"@)
    } else if hit(entries, "x-real-ip"@) is Some {
        hit(entries, "x-real-ip"@)
    } else if hit(entries, "cf-connecting-ip"@) is Some {
        hit(entries, "cf-connecting-ip"@)
    } else {
        hit(entries, "x-client-ip"@)
    }
}

/// Whether `c` is a space character, exactly as `trim_spaces` sees it.
fn is_space_exec(c: char) -> (r: bool)
    ensures
        r == is_space_char(c),
{
    let u = c as u32;
    u == 0x09 || u == 0x0a || u == 0x0b || u == 0x0c || u == 0x0d || u == 0x20 || u == 0x85 || u
        == 0xa0 || u == 0x1680 || (0x2000 <= u && u <= 0x200a) || u == 0x2028 || u == 0x2029 || u
        == 0x202f || u == 0x205f || u == 0x3000
}

/// The client address a raw header value yields.
fn ip_candidate(value: &str) -> (r: String)
    ensures
        r@ == ip_of_value(value@),
{
    let v = chars_vec(value);
    let n = v.len();
    let mut c: usize = 0;
    while c < n && v[c] != ','
        invariant
            0 <= c <= n,
            n == v@.len(),
            v@ == value@,
            comma_pos(v@, 0) == comma_pos(v@, c as int),
        decreases n - c,
    {
        c += 1;
    }
    proof {
        assert(comma_pos(v@, c as int) == c);
    }
    let ghost t = v@.subrange(0, c as int);
    let mut a: usize = 0;
    while a < c && is_space_exec(v[a])
        invariant
            0 <= a <= c <= n,
            n == v@.len(),
            t == v@.subrange(0, c as int),
            space_run(t, 0) == space_run(t, a as int),
        decreases c - a,
    {
        a += 1;
    }
    proof {
        assert(space_run(t, a as int) == a);
    }
    let mut b: usize = c;
    while b > 0 && is_space_exec(v[b - 1])
        invariant
            0 <= b <= c <= n,
            n == v@.len(),
            t == v@.subrange(0, c as int),
            nonspace_end(t, c as int) == nonspace_end(t, b as int),
        decreases b,
    {
        b -= 1;
    }
    proof {
        assert(nonspace_end(t, b as int) == b);
    }
    let mut out: Vec<char> = Vec::new();
    if a < b {
        let mut k: usize = a;
        while k < b
            invariant
                a <= k <= b <= c <= n,
                n == v@.len(),
                out@.len() == k - a,
                forall|j: int| 0 <= j < out@.len() ==> out@[j] == v@[a + j],
            decreases b - k,
        {
            out.push(v[k]);
            k += 1;
        }
    }
    proof {
        assert(out@ =~= ip_of_value(value@));
    }
    string_from_chars(&out)
}

impl Headers {
    /// An empty header collection.
    pub fn new() -> (h: Headers)
        ensures
            h.entries@.len() == 0,
    {
        Headers { entries: Vec::new() }
    }

    /// Appends one header at the end.
    pub fn add(&mut self, name: String, value: String)
        ensures
            final(self).entries@.len() == old(self).entries@.len() + 1,
            final(self).entries@.last().name@ == name@,
            final(self).entries@.last().value@ == value@,
            final(self).entries@.subrange(0, old(self).entries@.len() as int) == old(
                self,
            ).entries@,
    {
        self.entries.push(HeaderEntry { name, value });
        proof {
            assert(self.entries@.subrange(0, old(self).entries@.len() as int) =~= old(
                self,
            ).entries@);
        }
    }

    /// The value of the first header named `name`, if any.
    pub fn get(&self, name: &str) -> (r: Option<String>)
        ensures
            r is Some <==> lookup(self.entries@, name@) is Some,
            r matches Some(v) ==> lookup(self.entries@, name@) == Some(v@),
    {
        let n = self.entries.len();
        let mut i: usize = 0;
        while i < n
            invariant
                0 <= i <= n,
                n == self.entries@.len(),
                lookup(self.entries@, name@) == lookup_from(self.entries@, i as int, name@),
            decreases n - i,
        {
            if str_eq(self.entries[i].name.as_str(), name) {
                return Some(self.entries[i].value.clone());
            }
            i += 1;
        }
        None
    }
}

/// Extracts the client address from proxy headers: the fixed, ordered list
/// `x-forwarded-for`, `x-real-ip`, `cf-connecting-ip`, `x-client-ip` is
/// tried; the first header whose value yields a non-empty address (the part
/// before the first comma, trimmed) wins. The value is not checked to be a
/// well-formed address.
pub fn extract_client_ip(headers: &Headers) -> (r: Option<String>)
    ensures
        r is Some <==> client_ip(headers.entries@) is Some,
        r matches Some(s) ==> client_ip(headers.entries@) == Some(s@),
{
    match headers.get("x-forwarded-for") {
        Some(v) => {
            let ip = ip_candidate(v.as_str());
            if !ip.as_str().is_empty() {
                return Some(ip);
            }
        },
        None => {},
    }
    match headers.get("x-real-ip") {
        Some(v) => {
            let ip = ip_candidate(v.as_str());
            if !ip.as_str().is_empty() {
                return Some(ip);
            }
        },
        None => {},
    }
    match headers.get("cf-connecting-ip") {
        Some(v) => {
            let ip = ip_candidate(v.as_str());
            if !ip.as_str().is_empty() {
                return Some(ip);
            }
        },
        None => {},
    }
    match headers.get("x-client-ip") {
        Some(v) => {
            let ip = ip_candidate(v.as_str());
            if !ip.as_str().is_empty() {
                return Some(ip);
            }
        },
        None => {},
    }
    None
}

/// Whether a path belongs to the endpoints that require authentication.
pub fn is_protected_endpoint(path: &str) -> (r: bool)
    ensures
        r == (path@ == "/admin/*"@ || path@ == "/config/*"@),
{
    str_eq(path, "/admin/*") || str_eq(path, "/config/*")
}

} // verus!
