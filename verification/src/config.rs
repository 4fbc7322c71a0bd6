//! Configuration syntax checks: the listen address must be a socket
//! address (a dotted quad with a port, or a bracketed hexadecimal address
//! with an optional numeric scope and a port), and the backend URL must
//! carry an `http://` or `https://` scheme and parse as a URL.

use vstd::prelude::*;

use crate::text::chars_vec;
use crate::text::starts_with_lit;

verus! {

/// The configuration record the proxy starts from.
#[derive(Clone, Debug)]
pub struct Config {
    pub listen: String,
    pub lmstudio_url: String,
}

/// An ASCII decimal digit.
pub open spec fn is_digit_char(c: char) -> bool {
    0x30 <= (c as u32) <= 0x39
}

/// Every character of the text is a decimal digit.
pub open spec fn all_digits(t: Seq<char>) -> bool {
    forall|i: int| 0 <= i < t.len() ==> is_digit_char(#[trigger] t[i])
}

/// The first position at or after `from` that does not hold a digit, or the
/// end of the text.
pub open spec fn digit_run(s: Seq<char>, from: int) -> int
    recommends
        0 <= from <= s.len(),
    decreases s.len() - from,
{
    if from < 0 || from >= s.len() {
        s.len() as int
    } else if is_digit_char(s[from]) {
        digit_run(s, from + 1)
    } else {
        from
    }
}

/// The first position at or after `from` that does not hold `'0'`, or the
/// end of the text.
pub open spec fn zero_run(s: Seq<char>, from: int) -> int
    recommends
        0 <= from <= s.len(),
    decreases s.len() - from,
{
    if from < 0 || from >= s.len() {
        s.len() as int
    } else if s[from] == '0' {
        zero_run(s, from + 1)
    } else {
        from
    }
}

/// Three digits spelling a value of at most 255.
pub open spec fn octet_le_255(t: Seq<char>) -> bool
    recommends
        t.len() == 3,
        all_digits(t),
{
    ||| (t[0] as u32) < 0x32
    ||| ((t[0] as u32) == 0x32 && (t[1] as u32) < 0x35)
    ||| ((t[0] as u32) == 0x32 && (t[1] as u32) == 0x35 && (t[2] as u32) <= 0x35)
}

/// One address octet: one to three digits, no leading zero, at most 255.
pub open spec fn valid_octet(t: Seq<char>) -> bool {
    &&& all_digits(t)
    &&& 1 <= t.len() <= 3
    &&& (t.len() > 1 ==> t[0] != '0')
    &&& (t.len() == 3 ==> octet_le_255(t))
}

/// Five digits spelling a value of at most 65535.
pub open spec fn port_le_65535(t: Seq<char>) -> bool
    recommends
        t.len() == 5,
        all_digits(t),
{
    ||| (t[0] as u32) < 0x36
    ||| ((t[0] as u32) == 0x36 && (t[1] as u32) < 0x35)
    ||| ((t[0] as u32) == 0x36 && (t[1] as u32) == 0x35 && (t[2] as u32) < 0x35)
    ||| ((t[0] as u32) == 0x36 && (t[1] as u32) == 0x35 && (t[2] as u32) == 0x35 && (t[3] as u32)
        < 0x33)
    ||| ((t[0] as u32) == 0x36 && (t[1] as u32) == 0x35 && (t[2] as u32) == 0x35 && (t[3] as u32)
        == 0x33 && (t[4] as u32) <= 0x35)
}

/// A port: one or more digits, leading zeros allowed, value at most 65535.
pub open spec fn valid_port(t: Seq<char>) -> bool {
    &&& all_digits(t)
    &&& t.len() >= 1
    &&& {
        let r = t.subrange(zero_run(t, 0), t.len() as int);
        r.len() <= 5 && (r.len() == 5 ==> port_le_65535(r))
    }
}

/// A dotted-quad IPv4 socket address, `a.b.c.d:port`: four octets separated
/// by dots, a colon, and a port.
pub open spec fn is_socket_addr_v4(s: Seq<char>) -> bool {
    let e1 = digit_run(s, 0);
    let e2 = digit_run(s, e1 + 1);
    let e3 = digit_run(s, e2 + 1);
    let e4 = digit_run(s, e3 + 1);
    let ep = digit_run(s, e4 + 1);
    &&& e1 < s.len() && s[e1] == '.' && valid_octet(s.subrange(0, e1))
    &&& e2 < s.len() && s[e2] == '.' && valid_octet(s.subrange(e1 + 1, e2))
    &&& e3 < s.len() && s[e3] == '.' && valid_octet(s.subrange(e2 + 1, e3))
    &&& e4 < s.len() && s[e4] == ':' && valid_octet(s.subrange(e3 + 1, e4))
    &&& ep == s.len() && valid_port(s.subrange(e4 + 1, s.len() as int))
}

/// An ASCII hexadecimal digit.
pub open spec fn is_hex_digit_char(c: char) -> bool {
    ||| is_digit_char(c)
    ||| (0x61 <= (c as u32) <= 0x66)
    ||| (0x41 <= (c as u32) <= 0x46)
}

/// The first position at or after `from` that does not hold a hexadecimal
/// digit, or the end of the text.
pub open spec fn hex_run(s: Seq<char>, from: int) -> int
    recommends
        0 <= from <= s.len(),
    decreases s.len() - from,
{
    if from < 0 || from >= s.len() {
        s.len() as int
    } else if is_hex_digit_char(s[from]) {
        hex_run(s, from + 1)
    } else {
        from
    }
}

/// The first position at or after `from` that holds `']'`, or the end of
/// the text.
pub open spec fn rbracket_pos(s: Seq<char>, from: int) -> int
    recommends
        0 <= from <= s.len(),
    decreases s.len() - from,
{
    if from < 0 || from >= s.len() {
        s.len() as int
    } else if s[from] == ']' {
        from
    } else {
        rbracket_pos(s, from + 1)
    }
}

/// The first position at or after `from` that holds `'%'`, or the end of
/// the text.
pub open spec fn percent_pos(s: Seq<char>, from: int) -> int
    recommends
        0 <= from <= s.len(),
    decreases s.len() - from,
{
    if from < 0 || from >= s.len() {
        s.len() as int
    } else if s[from] == '%' {
        from
    } else {
        percent_pos(s, from + 1)
    }
}

/// A bare dotted quad, `a.b.c.d`, covering the whole text.
pub open spec fn is_dotted_quad(s: Seq<char>) -> bool {
    let e1 = digit_run(s, 0);
    let e2 = digit_run(s, e1 + 1);
    let e3 = digit_run(s, e2 + 1);
    &&& e1 < s.len() && s[e1] == '.' && valid_octet(s.subrange(0, e1))
    &&& e2 < s.len() && s[e2] == '.' && valid_octet(s.subrange(e1 + 1, e2))
    &&& e3 < s.len() && s[e3] == '.' && valid_octet(s.subrange(e2 + 1, e3))
    &&& digit_run(s, e3 + 1) == s.len() && valid_octet(s.subrange(e3 + 1, s.len() as int))
}

/// Ten digits spelling a value of at most 4294967295.
pub open spec fn scope_le_u32_max(t: Seq<char>) -> bool
    recommends
        t.len() == 10,
        all_digits(t),
{
    ||| (t[0] as u32) < 0x34
    ||| ((t[0] as u32) == 0x34 && ((t[1] as u32) < 0x32 || ((t[1] as u32) == 0x32 && ((
    t[2] as u32) < 0x39 || ((t[2] as u32) == 0x39 && ((t[3] as u32) < 0x34 || ((t[3] as u32)
        == 0x34 && ((t[4] as u32) < 0x39 || ((t[4] as u32) == 0x39 && ((t[5] as u32) < 0x36 || ((
    t[5] as u32) == 0x36 && ((t[6] as u32) < 0x37 || ((t[6] as u32) == 0x37 && ((t[7] as u32)
        < 0x32 || ((t[7] as u32) == 0x32 && ((t[8] as u32) < 0x39 || ((t[8] as u32) == 0x39 && (
    t[9] as u32) <= 0x35)))))))))))))))))
}

/// A numeric scope id: one or more digits, leading zeros allowed, value at
/// most the largest 32-bit value.
pub open spec fn valid_scope(t: Seq<char>) -> bool {
    &&& all_digits(t)
    &&& t.len() >= 1
    &&& {
        let r = t.subrange(zero_run(t, 0), t.len() as int);
        r.len() <= 10 && (r.len() == 10 ==> scope_le_u32_max(r))
    }
}

/// The tail of a hexadecimal address from position `i` on, where a group
/// must start: `groups` groups lie behind, and `dc` says whether the `::`
/// compression was already used. A group is one to four hex digits; a
/// trailing dotted quad counts as two groups; without compression exactly
/// eight groups must come together, with it at most seven.
pub open spec fn v6_rest(t: Seq<char>, i: int, groups: int, dc: bool) -> bool
    recommends
        0 <= i <= t.len(),
    decreases t.len() - i,
{
    let h = hex_run(t, i);
    if h <= i || h > t.len() {
        false
    } else if h < t.len() && t[h] == '.' {
        is_dotted_quad(t.subrange(i, t.len() as int)) && (if dc {
            groups + 2 <= 7
        } else {
            groups + 2 == 8
        })
    } else if h - i > 4 {
        false
    } else if h == t.len() {
        if dc {
            groups + 1 <= 7
        } else {
            groups + 1 == 8
        }
    } else if t[h] == ':' {
        if h + 1 < t.len() && t[h + 1] == ':' {
            if dc {
                false
            } else if h + 2 == t.len() {
                groups + 1 <= 7
            } else {
                v6_rest(t, h + 2, groups + 1, true)
            }
        } else {
            v6_rest(t, h + 1, groups + 1, dc)
        }
    } else {
        false
    }
}

/// A hexadecimal IPv6 address without brackets or scope.
pub open spec fn valid_ipv6(t: Seq<char>) -> bool {
    if t.len() >= 2 && t[0] == ':' && t[1] == ':' {
        if t.len() == 2 {
            true
        } else {
            v6_rest(t, 2, 0, true)
        }
    } else {
        v6_rest(t, 0, 0, false)
    }
}

/// A bracketed IPv6 socket address, `[addr]:port` or `[addr%scope]:port`.
pub open spec fn is_socket_addr_v6(s: Seq<char>) -> bool {
    let rb = rbracket_pos(s, 0);
    let pct = percent_pos(s, 0);
    &&& s.len() >= 1 && s[0] == '['
    &&& rb < s.len()
    &&& (if pct < rb {
        valid_ipv6(s.subrange(1, pct)) && valid_scope(s.subrange(pct + 1, rb))
    } else {
        valid_ipv6(s.subrange(1, rb))
    })
    &&& rb + 1 < s.len() && s[rb + 1] == ':'
    &&& digit_run(s, rb + 2) == s.len() && valid_port(s.subrange(rb + 2, s.len() as int))
}

/// A socket address: a dotted quad with a port, or a bracketed hexadecimal
/// address with a port.
pub open spec fn is_socket_addr(s: Seq<char>) -> bool {
    is_socket_addr_v4(s) || is_socket_addr_v6(s)
}

/// The URL starts with `http://` or `https://`.
pub open spec fn has_http_prefix(u: Seq<char>) -> bool {
    ||| (7 <= u.len() && u.subrange(0, 7) == "http://"@)
    ||| (8 <= u.len() && u.subrange(0, 8) == "https://"@)
}

/// What `url::Url::parse` makes of a piece of text: nothing when it parses,
/// or the rendering of its parse error. The outcome is fixed by the text
/// alone, so it is only named here.
pub uninterp spec fn url_parse_error(s: Seq<char>) -> Option<Seq<char>>;

/// Checks that a piece of text is a well-formed URL.
///
/// Relies on `url::Url::parse`: the result depends on the text alone; on
/// failure the parse error's rendering is handed back.
#[verifier::external_body]
fn check_url(s: &str) -> (r: Result<(), String>)
    ensures
        r is Ok <==> url_parse_error(s@) is None,
        r matches Err(e) ==> url_parse_error(s@) matches Some(m) && e@ == m,
{
    match url::Url::parse(s) {
        Ok(_) => Ok(()),
        Err(e) => Err(format!("{}", e)),
    }
}

/// Scans the digit run that starts at `from`.
fn scan_digits(v: &Vec<char>, from: usize) -> (e: usize)
    requires
        from <= v@.len(),
    ensures
        from <= e <= v@.len(),
        e == digit_run(v@, from as int),
        forall|k: int| from <= k < e ==> is_digit_char(#[trigger] v@[k]),
{
    let n = v.len();
    let mut i: usize = from;
    while i < n
        invariant
            from <= i <= n,
            n == v@.len(),
            digit_run(v@, from as int) == digit_run(v@, i as int),
            forall|k: int| from <= k < i ==> is_digit_char(#[trigger] v@[k]),
        decreases n - i,
    {
        let c = v[i];
        let u = c as u32;
        if !(0x30 <= u && u <= 0x39) {
            return i;
        }
        i += 1;
    }
    i
}

/// Checks one octet of a dotted quad, sitting in `v` at `[b, e)`.
fn check_octet(v: &Vec<char>, b: usize, e: usize) -> (r: bool)
    requires
        b <= e <= v@.len(),
        all_digits(v@.subrange(b as int, e as int)),
    ensures
        r == valid_octet(v@.subrange(b as int, e as int)),
{
    let len = e - b;
    if len < 1 || len > 3 {
        return false;
    }
    if len > 1 && v[b] == '0' {
        return false;
    }
    if len == 3 {
        let c0 = v[b] as u32;
        let c1 = v[b + 1] as u32;
        let c2 = v[b + 2] as u32;
        c0 < 0x32 || (c0 == 0x32 && c1 < 0x35) || (c0 == 0x32 && c1 == 0x35 && c2 <= 0x35)
    } else {
        true
    }
}

/// Checks the port digits sitting in `v` at `[b, e)`.
fn check_port(v: &Vec<char>, b: usize, e: usize) -> (r: bool)
    requires
        b <= e <= v@.len(),
        all_digits(v@.subrange(b as int, e as int)),
    ensures
        r == valid_port(v@.subrange(b as int, e as int)),
{
    let ghost t = v@.subrange(b as int, e as int);
    if e == b {
        return false;
    }
    let mut z: usize = b;
    while z < e && v[z] == '0'
        invariant
            b <= z <= e <= v@.len(),
            t == v@.subrange(b as int, e as int),
            zero_run(t, 0) == zero_run(t, z - b),
        decreases e - z,
    {
        z += 1;
    }
    proof {
        assert(zero_run(t, z - b) == z - b);
    }
    let rest = e - z;
    if rest > 5 {
        return false;
    }
    if rest == 5 {
        let c0 = v[z] as u32;
        let c1 = v[z + 1] as u32;
        let c2 = v[z + 2] as u32;
        let c3 = v[z + 3] as u32;
        let c4 = v[z + 4] as u32;
        c0 < 0x36 || (c0 == 0x36 && c1 < 0x35) || (c0 == 0x36 && c1 == 0x35 && c2 < 0x35) || (c0
            == 0x36 && c1 == 0x35 && c2 == 0x35 && c3 < 0x33) || (c0 == 0x36 && c1 == 0x35 && c2
            == 0x35 && c3 == 0x33 && c4 <= 0x35)
    } else {
        true
    }
}

/// Copies the characters at `[b, e)` into a vector of their own.
fn copy_range(v: &Vec<char>, b: usize, e: usize) -> (r: Vec<char>)
    requires
        b <= e <= v@.len(),
    ensures
        r@ == v@.subrange(b as int, e as int),
{
    let mut out: Vec<char> = Vec::new();
    let mut k: usize = b;
    while k < e
        invariant
            b <= k <= e <= v@.len(),
            out@.len() == k - b,
            forall|j: int| 0 <= j < out@.len() ==> out@[j] == v@[b + j],
        decreases e - k,
    {
        out.push(v[k]);
        k += 1;
    }
    proof {
        assert(out@ =~= v@.subrange(b as int, e as int));
    }
    out
}

/// Scans the run of hexadecimal digits that starts at `from`.
fn scan_hex(v: &Vec<char>, from: usize) -> (e: usize)
    requires
        from <= v@.len(),
    ensures
        from <= e <= v@.len(),
        e == hex_run(v@, from as int),
    decreases v@.len() - from,
{
    let n = v.len();
    let mut i: usize = from;
    while i < n
        invariant
            from <= i <= n,
            n == v@.len(),
            hex_run(v@, from as int) == hex_run(v@, i as int),
        decreases n - i,
    {
        let u = v[i] as u32;
        if !((0x30 <= u && u <= 0x39) || (0x61 <= u && u <= 0x66) || (0x41 <= u && u <= 0x46)) {
            return i;
        }
        i += 1;
    }
    i
}

/// Checks a whole vector as a bare dotted quad.
fn is_quad_vec(v: &Vec<char>) -> (r: bool)
    ensures
        r == is_dotted_quad(v@),
{
    let n = v.len();
    let e1 = scan_digits(v, 0);
    if e1 >= n || v[e1] != '.' || !check_octet(v, 0, e1) {
        return false;
    }
    let e2 = scan_digits(v, e1 + 1);
    if e2 >= n || v[e2] != '.' || !check_octet(v, e1 + 1, e2) {
        return false;
    }
    let e3 = scan_digits(v, e2 + 1);
    if e3 >= n || v[e3] != '.' || !check_octet(v, e2 + 1, e3) {
        return false;
    }
    let e4 = scan_digits(v, e3 + 1);
    if e4 != n {
        return false;
    }
    check_octet(v, e3 + 1, n)
}

/// Checks the scope-id digits sitting in `v` at `[b, e)`.
fn check_scope(v: &Vec<char>, b: usize, e: usize) -> (r: bool)
    requires
        b <= e <= v@.len(),
    ensures
        r == valid_scope(v@.subrange(b as int, e as int)),
{
    let ghost t = v@.subrange(b as int, e as int);
    if e == b {
        return false;
    }
    let mut k: usize = b;
    while k < e
        invariant
            b <= k <= e <= v@.len(),
            t == v@.subrange(b as int, e as int),
            forall|j: int| 0 <= j < k - b ==> is_digit_char(#[trigger] t[j]),
        decreases e - k,
    {
        let u = v[k] as u32;
        if !(0x30 <= u && u <= 0x39) {
            proof {
                assert(!is_digit_char(t[k - b]));
            }
            return false;
        }
        k += 1;
    }
    let mut z: usize = b;
    while z < e && v[z] == '0'
        invariant
            b <= z <= e <= v@.len(),
            t == v@.subrange(b as int, e as int),
            zero_run(t, 0) == zero_run(t, z - b),
        decreases e - z,
    {
        z += 1;
    }
    proof {
        assert(zero_run(t, z - b) == z - b);
    }
    let rest = e - z;
    if rest > 10 {
        return false;
    }
    if rest == 10 {
        let c0 = v[z] as u32;
        let c1 = v[z + 1] as u32;
        let c2 = v[z + 2] as u32;
        let c3 = v[z + 3] as u32;
        let c4 = v[z + 4] as u32;
        let c5 = v[z + 5] as u32;
        let c6 = v[z + 6] as u32;
        let c7 = v[z + 7] as u32;
        let c8 = v[z + 8] as u32;
        let c9 = v[z + 9] as u32;
        c0 < 0x34 || (c0 == 0x34 && (c1 < 0x32 || (c1 == 0x32 && (c2 < 0x39 || (c2 == 0x39 && (c3
            < 0x34 || (c3 == 0x34 && (c4 < 0x39 || (c4 == 0x39 && (c5 < 0x36 || (c5 == 0x36 && (c6
            < 0x37 || (c6 == 0x37 && (c7 < 0x32 || (c7 == 0x32 && (c8 < 0x39 || (c8 == 0x39 && c9
            <= 0x35)))))))))))))))))
    } else {
        true
    }
}

/// Checks the tail of a hexadecimal address from `i` on, with `groups`
/// groups behind and `dc` saying whether `::` was already used.
fn v6_rest_exec(v: &Vec<char>, i: usize, groups: usize, dc: bool) -> (r: bool)
    requires
        2 * groups <= i <= v@.len(),
    ensures
        r == v6_rest(v@, i as int, groups as int, dc),
    decreases v@.len() - i,
{
    let n = v.len();
    let h = scan_hex(v, i);
    if h <= i {
        return false;
    }
    if h < n && v[h] == '.' {
        let q = copy_range(v, i, n);
        let quad = is_quad_vec(&q);
        return quad && (if dc {
            groups + 2 <= 7
        } else {
            groups + 2 == 8
        });
    }
    if h - i > 4 {
        return false;
    }
    if h == n {
        if dc {
            groups + 1 <= 7
        } else {
            groups + 1 == 8
        }
    } else if v[h] == ':' {
        if h + 1 < n && v[h + 1] == ':' {
            if dc {
                false
            } else if h + 2 == n {
                groups + 1 <= 7
            } else {
                v6_rest_exec(v, h + 2, groups + 1, true)
            }
        } else {
            v6_rest_exec(v, h + 1, groups + 1, dc)
        }
    } else {
        false
    }
}

/// Checks a whole vector as a bare hexadecimal address.
fn v6_addr_vec(v: &Vec<char>) -> (r: bool)
    ensures
        r == valid_ipv6(v@),
{
    let n = v.len();
    if n >= 2 && v[0] == ':' && v[1] == ':' {
        if n == 2 {
            true
        } else {
            v6_rest_exec(v, 2, 0, true)
        }
    } else {
        v6_rest_exec(v, 0, 0, false)
    }
}

/// Checks that the text is a socket address, in either form.
fn is_socket_addr_str(s: &str) -> (r: bool)
    ensures
        r == is_socket_addr(s@),
{
    let v = chars_vec(s);
    let n = v.len();
    if n >= 1 && v[0] == '[' {
        let mut rb: usize = 0;
        while rb < n && v[rb] != ']'
            invariant
                0 <= rb <= n,
                n == v@.len(),
                rbracket_pos(v@, 0) == rbracket_pos(v@, rb as int),
            decreases n - rb,
        {
            rb += 1;
        }
        proof {
            assert(rbracket_pos(v@, rb as int) == rb);
        }
        if rb >= n {
            return false;
        }
        let mut pct: usize = 0;
        while pct < n && v[pct] != '%'
            invariant
                0 <= pct <= n,
                n == v@.len(),
                percent_pos(v@, 0) == percent_pos(v@, pct as int),
            decreases n - pct,
        {
            pct += 1;
        }
        proof {
            assert(percent_pos(v@, pct as int) == pct);
        }
        let addr_ok = if pct < rb {
            let inner = copy_range(&v, 1, pct);
            let sc = check_scope(&v, pct + 1, rb);
            v6_addr_vec(&inner) && sc
        } else {
            let inner = copy_range(&v, 1, rb);
            v6_addr_vec(&inner)
        };
        if !addr_ok {
            return false;
        }
        if rb + 1 >= n || v[rb + 1] != ':' {
            return false;
        }
        let ep = scan_digits(&v, rb + 2);
        if ep != n {
            return false;
        }
        check_port(&v, rb + 2, n)
    } else {
        let e1 = scan_digits(&v, 0);
        if e1 >= n || v[e1] != '.' || !check_octet(&v, 0, e1) {
            return false;
        }
        let e2 = scan_digits(&v, e1 + 1);
        if e2 >= n || v[e2] != '.' || !check_octet(&v, e1 + 1, e2) {
            return false;
        }
        let e3 = scan_digits(&v, e2 + 1);
        if e3 >= n || v[e3] != '.' || !check_octet(&v, e2 + 1, e3) {
            return false;
        }
        let e4 = scan_digits(&v, e3 + 1);
        if e4 >= n || v[e4] != ':' || !check_octet(&v, e3 + 1, e4) {
            return false;
        }
        let ep = scan_digits(&v, e4 + 1);
        if ep != n {
            return false;
        }
        check_port(&v, e4 + 1, n)
    }
}

/// Validates a configuration: the listen address must be a socket address,
/// and the backend URL must carry an `http://`/`https://` scheme and parse
/// as a URL. The first failing check names the field in its error text.
pub fn validate_config(config: &Config) -> (r: Result<(), String>)
    ensures
        r is Ok <==> (is_socket_addr(config.listen@) && has_http_prefix(config.lmstudio_url@)
            && url_parse_error(config.lmstudio_url@) is None),
        !is_socket_addr(config.listen@) ==> (r matches Err(e) && e@
            == "Invalid listen address: "@ + config.listen@),
        (is_socket_addr(config.listen@) && !has_http_prefix(config.lmstudio_url@)) ==> (
        r matches Err(e) && e@ == "Invalid LM Studio URL (must start with http:// or https://): "@
            + config.lmstudio_url@),
        (is_socket_addr(config.listen@) && has_http_prefix(config.lmstudio_url@)) ==> (
        url_parse_error(config.lmstudio_url@) matches Some(m) ==> (r matches Err(e) && e@
            == "Invalid LM Studio URL format: "@ + m)),
{
    if !is_socket_addr_str(config.listen.as_str()) {
        let mut msg = String::from_str("Invalid listen address: ");
        msg.append(config.listen.as_str());
        return Err(msg);
    }
    proof {
        reveal_strlit("http://");
        reveal_strlit("https://");
    }
    let u = chars_vec(config.lmstudio_url.as_str());
    if !starts_with_lit(&u, "http://") && !starts_with_lit(&u, "https://") {
        let mut msg = String::from_str(
            "Invalid LM Studio URL (must start with http:// or https://): ",
        );
        msg.append(config.lmstudio_url.as_str());
        return Err(msg);
    }
    match check_url(config.lmstudio_url.as_str()) {
        Ok(_) => Ok(()),
        Err(e) => {
            let mut msg = String::from_str("Invalid LM Studio URL format: ");
            msg.append(e.as_str());
            Err(msg)
        },
    }
}

} // verus!
