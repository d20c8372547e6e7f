//! The wall clock, as nanoseconds since the Unix epoch.

use vstd::prelude::*;

verus! {

/// Nanoseconds in one second.
pub const NS_PER_SEC: i64 = 1_000_000_000;

/// The instant `sec` seconds and `nsec` nanoseconds after the epoch, in
/// nanoseconds, held to the range of `i64` (reached in the year 2262).
pub open spec fn epoch_ns(sec: int, nsec: int) -> int {
    let t = sec * NS_PER_SEC + nsec;
    if t > i64::MAX {
        i64::MAX as int
    } else if t < i64::MIN {
        i64::MIN as int
    } else {
        t
    }
}

/// Relies on `time::get_time`: the wall-clock time as whole seconds since
/// the epoch and a nanosecond part, which `Timespec::new` keeps below one
/// second and not negative.
#[verifier::external_body]
fn wall_clock() -> (r: (i64, i32))
    ensures
        0 <= r.1 < NS_PER_SEC,
{
    let t = time::get_time();
    (t.sec, t.nsec)
}

/// Converts seconds and nanoseconds since the epoch into nanoseconds.
pub fn timespec_to_ns(sec: i64, nsec: i32) -> (r: i64)
    requires
        0 <= nsec < NS_PER_SEC,
    ensures
        r == epoch_ns(sec as int, nsec as int),
{
    let t: i128 = (sec as i128) * (NS_PER_SEC as i128) + (nsec as i128);
    assert(t == sec * NS_PER_SEC + nsec) by (nonlinear_arith)
        requires
            t == (sec as i128) * (NS_PER_SEC as i128) + (nsec as i128),
    ;
    if t > i64::MAX as i128 {
        i64::MAX
    } else if t < i64::MIN as i128 {
        i64::MIN
    } else {
        t as i64
    }
}

/// The wall-clock time now, in nanoseconds since the epoch. Two readings
/// may go backwards when the system clock is set back.
pub fn now_ns() -> (r: i64)
    ensures
        exists|sec: i64, nsec: i32|
            0 <= nsec < NS_PER_SEC && r == #[trigger] epoch_ns(sec as int, nsec as int),
{
    let (sec, nsec) = wall_clock();
    timespec_to_ns(sec, nsec)
}

} // verus!
