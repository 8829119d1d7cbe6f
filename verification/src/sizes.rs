//! Byte counts and transfer rates as the user reads them.

use crate::double::{double_of, lemma_double_bounds, lemma_rounded_at_most, nearest_double, round_half_even, rounded};
use crate::text::{decimal, push_decimal};
use vstd::prelude::*;
use vstd::string::*;

verus! {

/// A number of tenths with one place after the point.
pub open spec fn tenths_text(n: nat) -> Seq<char> {
    decimal(n / 10) + "."@ + decimal(n % 10)
}

/// A byte count in the largest unit that it reaches: tera- and gigabytes with one
/// place, mega- and kilobytes whole, each as double-precision arithmetic rounds it.
/// No bytes at all are shown as a dash.
pub open spec fn size_text(b: nat) -> Seq<char> {
    if b >= 0x100_0000_0000 {
        tenths_text(rounded(10 * double_of(b), 0x100_0000_0000)) + "T"@
    } else if b >= 0x4000_0000 {
        tenths_text(rounded(10 * double_of(b), 0x4000_0000)) + "G"@
    } else if b >= 0x10_0000 {
        decimal(rounded(double_of(b), 0x10_0000)) + "M"@
    } else if b >= 0x400 {
        decimal(rounded(double_of(b), 0x400)) + "K"@
    } else if b > 0 {
        decimal(b) + "B"@
    } else {
        "-"@
    }
}

/// A rate in bytes per second: its size and `/s`, and nothing at all when it is nought.
pub open spec fn speed_text(bps: nat) -> Seq<char> {
    if bps == 0 {
        Seq::<char>::empty()
    } else {
        size_text(bps) + "/s"@
    }
}

fn push_tenths(s: &mut String, n: u64)
    ensures
        final(s)@ == old(s)@ + tenths_text(n as nat),
{
    push_decimal(s, n / 10);
    s.append(".");
    push_decimal(s, n % 10);
    proof {
        assert(s@ =~= old(s)@ + tenths_text(n as nat));
    }
}

/// `b` bytes in units of `unit` bytes, `scale` to the unit.
fn in_units(b: u64, scale: u64, unit: u64) -> (r: u64)
    requires
        1 <= scale <= 10,
        unit >= 0x400,
    ensures
        r as nat == rounded(scale as nat * double_of(b as nat), unit as nat),
{
    let d: u128 = nearest_double(b as u128);
    proof {
        lemma_double_bounds(b as nat);
        let n = scale as nat * double_of(b as nat);
        assert(0 <= n <= 0x14_0000_0000_0000_0000) by (nonlinear_arith)
            requires
                n == scale as nat * double_of(b as nat),
                double_of(b as nat) <= 0x2_0000_0000_0000_0000,
                scale <= 10,
        ;
        let k = 0x1000_0000_0000_0000nat;
        assert(n <= k * unit as nat) by (nonlinear_arith)
            requires
                n <= 0x14_0000_0000_0000_0000,
                k == 0x1000_0000_0000_0000,
                unit >= 0x400,
        ;
        lemma_rounded_at_most(n, unit as nat, k);
    }
    round_half_even(scale as u128 * d, unit as u128) as u64
}

/// A byte count in the largest unit that it reaches.
pub fn fmt_b(b: u64) -> (s: String)
    ensures
        s@ == size_text(b as nat),
{
    let mut s = String::new();
    if b >= 1_099_511_627_776 {
        push_tenths(&mut s, in_units(b, 10, 1_099_511_627_776));
        s.append("T");
    } else if b >= 1_073_741_824 {
        push_tenths(&mut s, in_units(b, 10, 1_073_741_824));
        s.append("G");
    } else if b >= 1_048_576 {
        push_decimal(&mut s, in_units(b, 1, 1_048_576));
        s.append("M");
    } else if b >= 1_024 {
        push_decimal(&mut s, in_units(b, 1, 1_024));
        s.append("K");
    } else if b > 0 {
        push_decimal(&mut s, b);
        s.append("B");
    } else {
        s.append("-");
    }
    proof {
        assert(s@ =~= size_text(b as nat));
    }
    s
}

/// A rate in bytes per second, or nothing when it is nought.
pub fn fmt_spd(bps: u64) -> (s: String)
    ensures
        s@ == speed_text(bps as nat),
{
    if bps == 0 {
        String::new()
    } else {
        let mut s = fmt_b(bps);
        s.append("/s");
        s
    }
}

}
