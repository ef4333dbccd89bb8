//! Rendering of byte counts for display: plain bytes below one KiB, then
//! two-decimal KB/MB/GB with binary unit boundaries. The fractional part is
//! rounded to the nearest hundredth, ties to the even neighbour.

use vstd::prelude::*;
use crate::strings::{dec_of, dec_digit, dec_digit_exec, push_dec_u64, string_of};

verus! {

/// 100·n/d rounded to the nearest integer, ties to the even neighbour.
pub open spec fn rounded_centi(n: nat, d: nat) -> nat
    recommends
        d > 0,
{
    let q = (100 * n) / d;
    let r = (100 * n) % d;
    if 2 * r > d || (2 * r == d && q % 2 == 1) {
        q + 1
    } else {
        q
    }
}

/// The quotient n/d rendered with exactly two decimals, e.g. `3.50`.
pub open spec fn fixed2(n: nat, d: nat) -> Seq<char>
    recommends
        d > 0,
{
    let c = rounded_centi(n, d);
    dec_of(c / 100) + seq!['.', dec_digit((c / 10) % 10), dec_digit(c % 10)]
}

/// The display form of a byte count `b`: `B` below 1024, two-decimal `KB`
/// below 1 Mi, `MB` below 1 Gi, otherwise `GB`.
pub open spec fn spec_format_size(b: u64) -> Seq<char> {
    if b < 1024 {
        dec_of(b as nat) + seq![' ', 'B']
    } else if b < 1048576 {
        fixed2(b as nat, 1024) + seq![' ', 'K', 'B']
    } else if b < 1073741824 {
        fixed2(b as nat, 1048576) + seq![' ', 'M', 'B']
    } else {
        fixed2(b as nat, 1073741824) + seq![' ', 'G', 'B']
    }
}

/// The display form of an optional byte count: a known count renders as
/// `spec_format_size`, an unknown one as the word `Unknown`.
pub open spec fn spec_format_size_opt(size: Option<u64>) -> Seq<char> {
    match size {
        Some(b) => spec_format_size(b),
        None => seq!['U', 'n', 'k', 'n', 'o', 'w', 'n'],
    }
}

/// Appends the two-decimal rendering of n/d to `out`.
fn push_fixed2(n: u64, d: u64, out: &mut Vec<char>)
    requires
        1024 <= d,
    ensures
        final(out)@ == old(out)@ + fixed2(n as nat, d as nat),
{
    let num: u128 = (n as u128) * 100;
    let dd: u128 = d as u128;
    let q0: u128 = num / dd;
    let r: u128 = num % dd;
    proof {
        vstd::arithmetic::div_mod::lemma_div_is_ordered_by_denominator(num as int, 1024, dd as int);
        vstd::arithmetic::div_mod::lemma_div_is_ordered(
            num as int,
            0xffff_ffff_ffff_ffff as int * 100,
            1024,
        );
    }
    let round_up: bool = 2 * r > dd || (2 * r == dd && q0 % 2 == 1);
    let c: u128 = if round_up {
        q0 + 1
    } else {
        q0
    };
    let c64: u64 = c as u64;
    push_dec_u64(c64 / 100, out);
    out.push('.');
    out.push(dec_digit_exec((c64 / 10) % 10));
    out.push(dec_digit_exec(c64 % 10));
    proof {
        assert(final(out)@ =~= old(out)@ + fixed2(n as nat, d as nat));
    }
}

/// The display characters for a byte count.
pub fn format_size_chars(b: u64) -> (r: Vec<char>)
    ensures
        r@ == spec_format_size(b),
{
    let mut out: Vec<char> = Vec::new();
    if b < 1024 {
        push_dec_u64(b, &mut out);
        out.push(' ');
        out.push('B');
    } else if b < 1048576 {
        push_fixed2(b, 1024, &mut out);
        out.push(' ');
        out.push('K');
        out.push('B');
    } else if b < 1073741824 {
        push_fixed2(b, 1048576, &mut out);
        out.push(' ');
        out.push('M');
        out.push('B');
    } else {
        push_fixed2(b, 1073741824, &mut out);
        out.push(' ');
        out.push('G');
        out.push('B');
    }
    proof {
        assert(out@ =~= spec_format_size(b));
    }
    out
}

/// The display form of a byte count as a `String`.
pub fn format_size_string(b: u64) -> (r: String)
    ensures
        r@ == spec_format_size(b),
{
    let chars = format_size_chars(b);
    string_of(&chars)
}

/// The display form of an optional byte count as a `String`.
pub fn format_size_opt_string(size: Option<u64>) -> (r: String)
    ensures
        r@ == spec_format_size_opt(size),
{
    match size {
        Some(b) => format_size_string(b),
        None => {
            let mut out: Vec<char> = Vec::new();
            out.push('U');
            out.push('n');
            out.push('k');
            out.push('n');
            out.push('o');
            out.push('w');
            out.push('n');
            proof {
                assert(out@ =~= spec_format_size_opt(size));
            }
            string_of(&out)
        },
    }
}

} // verus!
