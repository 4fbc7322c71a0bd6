//! Decimal rendering: integers as decimal text, and elapsed durations with
//! adaptive units (microseconds below one millisecond, milliseconds below one
//! second, seconds above), each with a fixed number of decimals, rounded to
//! the nearest.

use vstd::prelude::*;

use crate::text::string_from_chars;

verus! {

/// The decimal digit character for a value below ten.
pub open spec fn digit_char(d: nat) -> char
    recommends
        d < 10,
{
    if d == 0 {
        '0'
    } else if d == 1 {
        '1'
    } else if d == 2 {
        '2'
    } else if d == 3 {
        '3'
    } else if d == 4 {
        '4'
    } else if d == 5 {
        '5'
    } else if d == 6 {
        '6'
    } else if d == 7 {
        '7'
    } else if d == 8 {
        '8'
    } else {
        '9'
    }
}

/// The decimal digits of `n`, most significant first, with no leading zero
/// except for `n == 0` itself.
pub open spec fn dec_str(n: nat) -> Seq<char>
    decreases n,
{
    if n < 10 {
        seq![digit_char(n)]
    } else {
        dec_str(n / 10).push(digit_char(n % 10))
    }
}

/// `n` rounded to the nearest multiple of `unit`, counted in units; halves
/// round up.
pub open spec fn rounded_units(n: nat, unit: nat) -> nat
    recommends
        unit >= 2,
{
    n / unit + if n % unit >= unit / 2 {
        1nat
    } else {
        0nat
    }
}

/// The adaptive rendering of an elapsed duration of `nanos` nanoseconds.
pub open spec fn duration_text(nanos: u128) -> Seq<char> {
    if nanos < 1_000_000 {
        let t = rounded_units(nanos as nat, 100);
        dec_str(t / 10) + seq!['.', digit_char(t % 10)] + seq!['\u{b5}', 's']
    } else if nanos < 1_000_000_000 {
        let h = rounded_units(nanos as nat, 10_000);
        dec_str(h / 100) + seq!['.', digit_char(h / 10 % 10), digit_char(h % 10)] + seq!['m', 's']
    } else {
        let h = rounded_units(nanos as nat, 10_000_000);
        dec_str(h / 100) + seq!['.', digit_char(h / 10 % 10), digit_char(h % 10)] + seq!['s']
    }
}

/// The digit character of a small value.
fn digit_char_exec(d: u128) -> (r: char)
    requires
        d < 10,
    ensures
        r == digit_char(d as nat),
{
    if d == 0 {
        '0'
    } else if d == 1 {
        '1'
    } else if d == 2 {
        '2'
    } else if d == 3 {
        '3'
    } else if d == 4 {
        '4'
    } else if d == 5 {
        '5'
    } else if d == 6 {
        '6'
    } else if d == 7 {
        '7'
    } else if d == 8 {
        '8'
    } else {
        '9'
    }
}

/// Appends the decimal digits of `n` to `out`.
fn push_dec(n: u128, out: &mut Vec<char>)
    ensures
        final(out)@ == old(out)@ + dec_str(n as nat),
    decreases n,
{
    if n < 10 {
        let c = digit_char_exec(n);
        out.push(c);
        proof {
            assert(out@ =~= old(out)@ + dec_str(n as nat));
        }
    } else {
        push_dec(n / 10, out);
        let c = digit_char_exec(n % 10);
        out.push(c);
        proof {
            assert(out@ =~= old(out)@ + dec_str(n as nat));
        }
    }
}

/// The decimal rendering of an unsigned value.
pub fn u128_to_string(n: u128) -> (r: String)
    ensures
        r@ == dec_str(n as nat),
{
    let mut v: Vec<char> = Vec::new();
    push_dec(n, &mut v);
    string_from_chars(&v)
}

/// The decimal rendering of a status code.
pub fn u16_to_string(n: u16) -> (r: String)
    ensures
        r@ == dec_str(n as nat),
{
    u128_to_string(n as u128)
}

/// Rounds `nanos` to the nearest `unit` nanoseconds, counted in units.
fn rounded_units_exec(nanos: u128, unit: u128) -> (r: u128)
    requires
        2 <= unit,
    ensures
        r == rounded_units(nanos as nat, unit as nat),
{
    let q = nanos / unit;
    if nanos % unit >= unit / 2 {
        proof {
            vstd::arithmetic::div_mod::lemma_div_is_ordered_by_denominator(nanos as int, 2, unit as int);
        }
        q + 1
    } else {
        q
    }
}

/// Renders an elapsed duration of `nanos` nanoseconds: microseconds with one
/// decimal below one millisecond, milliseconds with two decimals below one
/// second, seconds with two decimals otherwise.
pub fn format_duration(nanos: u128) -> (r: String)
    ensures
        r@ == duration_text(nanos),
{
    let mut v: Vec<char> = Vec::new();
    if nanos < 1_000_000 {
        let t = rounded_units_exec(nanos, 100);
        push_dec(t / 10, &mut v);
        v.push('.');
        let d = digit_char_exec(t % 10);
        v.push(d);
        v.push('\u{b5}');
        v.push('s');
    } else if nanos < 1_000_000_000 {
        let h = rounded_units_exec(nanos, 10_000);
        push_dec(h / 100, &mut v);
        v.push('.');
        let d1 = digit_char_exec(h / 10 % 10);
        v.push(d1);
        let d0 = digit_char_exec(h % 10);
        v.push(d0);
        v.push('m');
        v.push('s');
    } else {
        let h = rounded_units_exec(nanos, 10_000_000);
        push_dec(h / 100, &mut v);
        v.push('.');
        let d1 = digit_char_exec(h / 10 % 10);
        v.push(d1);
        let d0 = digit_char_exec(h % 10);
        v.push(d0);
        v.push('s');
    }
    proof {
        assert(v@ =~= duration_text(nanos));
    }
    string_from_chars(&v)
}

} // verus!
