use vstd::prelude::*;

verus! {

/// One second, in microseconds; also the fixed-point scale of every
/// fractional setting (speed, quality, crop).
pub const MICROS: u64 = 1_000_000;

/// `ceil(a / b)` over the naturals.
pub open spec fn ceil_div(a: nat, b: nat) -> nat
    recommends
        b > 0,
{
    if a % b == 0 {
        a / b
    } else {
        a / b + 1
    }
}

/// Frames a segment yields: `ceil(((end - start) / speed) * fps)`, with the
/// times in microseconds and the speed in millionths.
pub open spec fn spec_expected_frames(start_us: nat, end_us: nat, speed_micro: nat, fps: nat) -> nat {
    ceil_div(((end_us - start_us) * fps) as nat, speed_micro)
}

/// Frames a timeline of `n` forward frames plays: `2n - 1` when bounced.
pub open spec fn spec_with_bounce(n: nat, bounce: bool) -> nat {
    if bounce && n > 1 {
        (2 * n - 1) as nat
    } else {
        n
    }
}

/// Number of frames extracted from `[start_us, end_us)` at `fps`, played at
/// `speed_micro` millionths of normal speed.
pub fn expected_frame_count(start_us: u64, end_us: u64, speed_micro: u64, fps: u32) -> (r: u128)
    requires
        start_us < end_us,
        speed_micro > 0,
    ensures
        r == spec_expected_frames(start_us as nat, end_us as nat, speed_micro as nat, fps as nat),
        r <= u64::MAX as u128 * u32::MAX as u128 + 1,
{
    let d: u128 = (end_us - start_us) as u128;
    assert(d * (fps as u128) <= u64::MAX as int * u32::MAX as int) by (nonlinear_arith)
        requires
            d <= u64::MAX,
            fps <= u32::MAX,
    ;
    let num: u128 = d * (fps as u128);
    let s: u128 = speed_micro as u128;
    proof {
        vstd::arithmetic::div_mod::lemma_div_nonincreasing(num as int, s as int);
    }
    if num % s == 0 {
        num / s
    } else {
        num / s + 1
    }
}

/// Frames a segment contributes once bounce is applied.
pub fn with_bounce(n: u128, bounce: bool) -> (r: u128)
    requires
        n <= u64::MAX as u128 * u32::MAX as u128 + 1,
    ensures
        r == spec_with_bounce(n as nat, bounce),
{
    if bounce && n > 1 {
        2 * n - 1
    } else {
        n
    }
}

} // verus!
