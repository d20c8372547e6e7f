//! Wire form of a positioning command: `P <az> <el>`, each angle in degrees
//! with exactly one fractional digit.

use vstd::prelude::*;

verus! {

/// Microdegrees in one tenth of a degree.
const MICRODEG_PER_TENTH: i128 = 100_000;

/// An angle given in microdegrees, rounded to the nearest tenth of a degree;
/// a value halfway between two tenths goes away from zero.
pub open spec fn rounded_tenths(udeg: int) -> int {
    if udeg >= 0 {
        (udeg + 50_000) / 100_000
    } else {
        -((-udeg + 50_000) / 100_000)
    }
}

/// The ASCII decimal digits of `n`, most significant first, without leading zeros.
pub open spec fn digits_of(n: nat) -> Seq<u8>
    decreases n,
{
    if n < 10 {
        seq![(48 + n) as u8]
    } else {
        digits_of(n / 10).push((48 + n % 10) as u8)
    }
}

/// A count of tenths written as a decimal number with one fractional digit,
/// with a leading `-` when it is negative.
pub open spec fn tenths_text(t: int) -> Seq<u8> {
    let a = if t < 0 { -t } else { t };
    let sign: Seq<u8> = if t < 0 { seq![45u8] } else { seq![] };
    sign + digits_of((a / 10) as nat) + seq![46u8, (48 + a % 10) as u8]
}

/// The command that points the rotor at the given azimuth and elevation
/// (both in microdegrees).
pub open spec fn command_text(az_udeg: int, el_udeg: int) -> Seq<u8> {
    seq![80u8, 32u8] + tenths_text(rounded_tenths(az_udeg)) + seq![32u8] + tenths_text(
        rounded_tenths(el_udeg),
    )
}

/// Appends the decimal digits of `n` to `out`.
fn push_digits(out: &mut Vec<u8>, n: u64)
    ensures
        final(out)@ == old(out)@ + digits_of(n as nat),
    decreases n,
{
    if n >= 10 {
        push_digits(out, n / 10);
    }
    let d: u8 = (n % 10) as u8;
    out.push(48u8 + d);
    proof {
        if n >= 10 {
            assert(old(out)@ + digits_of(n as nat) =~= old(out)@ + digits_of((n / 10) as nat)
                + seq![(48 + n % 10) as u8]);
        } else {
            assert(old(out)@ + digits_of(n as nat) =~= old(out)@.push((48 + n) as u8));
        }
    }
}

/// Appends `udeg` (microdegrees) rounded to tenths of a degree.
fn push_angle(out: &mut Vec<u8>, udeg: i64)
    ensures
        final(out)@ == old(out)@ + tenths_text(rounded_tenths(udeg as int)),
{
    let u: i128 = udeg as i128;
    let mag: i128 = if u < 0 { -u } else { u };
    let a: i128 = (mag + MICRODEG_PER_TENTH / 2) / MICRODEG_PER_TENTH;
    let ghost t: int = rounded_tenths(udeg as int);
    assert(a == if t < 0 { -t } else { t }) by {
        if udeg < 0 {
            assert((-udeg + 50_000) / 100_000 >= 0);
        }
    }
    let start: Ghost<Seq<u8>> = Ghost(out@);
    let sign: Ghost<Seq<u8>> = Ghost(if t < 0 { seq![45u8] } else { seq![] });
    if a > 0 && u < 0 {
        out.push(45u8);
    }
    assert(out@ == start@ + sign@);
    push_digits(out, (a / 10) as u64);
    let f: u8 = (a % 10) as u8;
    out.push(46u8);
    out.push(48u8 + f);
    assert(out@ =~= start@ + tenths_text(t));
}

/// The bytes of the command that points the rotor at azimuth `az_udeg` and
/// elevation `el_udeg`, both in microdegrees: the letter `P`, a space, the
/// azimuth in degrees to one decimal, a space, the elevation in degrees to one
/// decimal. No line terminator is added.
pub fn format_command(az_udeg: i64, el_udeg: i64) -> (r: Vec<u8>)
    ensures
        r@ == command_text(az_udeg as int, el_udeg as int),
{
    let mut out: Vec<u8> = Vec::new();
    out.push(80u8);
    out.push(32u8);
    push_angle(&mut out, az_udeg);
    out.push(32u8);
    push_angle(&mut out, el_udeg);
    assert(out@ =~= command_text(az_udeg as int, el_udeg as int));
    out
}

} // verus!
