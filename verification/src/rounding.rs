//! How the server's numbers are printed. The silence tail and download progress are kept as
//! whole numbers (milliseconds, hundredths of a percent), and printed with one decimal the
//! way Rust prints an `f32` holding them: the value is first rounded to the nearest `f32`,
//! and that `f32`'s exact value is then rounded to tenths, halves to the even tenth.

use vstd::prelude::*;

verus! {

/// `2^k`.
pub open spec fn two_pow(k: nat) -> nat
    decreases k,
{
    if k == 0 {
        1
    } else {
        2 * two_pow((k - 1) as nat)
    }
}

/// `n / d` rounded to the nearest whole number, halves to the even one.
pub open spec fn round_half_even(n: nat, d: nat) -> nat {
    let q = n / d;
    let r = n % d;
    if 2 * r < d {
        q
    } else if 2 * r > d {
        q + 1
    } else if q % 2 == 0 {
        q
    } else {
        q + 1
    }
}

/// The scale `2^k` of the `f32` binade that holds `n / d`: the least `k >= from` (at most
/// 80) with `n * 2^k >= 2^23 * d`. An `f32` there is a whole number of `1 / 2^k`.
pub open spec fn f32_scale(n: nat, d: nat, from: nat) -> nat
    decreases 80 - from,
{
    if from >= 80 || n * two_pow(from) >= 8388608 * d {
        two_pow(from)
    } else {
        f32_scale(n, d, from + 1)
    }
}

/// The `f32` nearest to `n / d`, in units of `1 / f32_scale(n, d, 0)` (ties to even).
pub open spec fn f32_units(n: nat, d: nat) -> nat {
    round_half_even(n * f32_scale(n, d, 0), d)
}

/// The tenths that `{:.1}` prints for the `f32` nearest to `n / d`.
#[verifier::opaque]
pub open spec fn f32_tenths(n: nat, d: nat) -> nat {
    if n == 0 {
        0
    } else {
        round_half_even(10 * f32_units(n, d), f32_scale(n, d, 0))
    }
}

/// The `f32` value of `0.95`, in units of `2^-24`.
pub const F32_NINETY_FIVE_HUNDREDTHS: u64 = 15938355;

/// `n / d` rounded, halves to even.
fn round_half_even_u128(n: u128, d: u128) -> (r: u128)
    requires
        d > 0,
        d < 0x1_0000_0000_0000_0000_0000_0000,
        n < 0x1_0000_0000_0000_0000_0000_0000,
    ensures
        r == round_half_even(n as nat, d as nat),
        r <= n / d + 1,
{
    let q = n / d;
    let r = n % d;
    if 2 * r < d {
        q
    } else if 2 * r > d {
        q + 1
    } else if q % 2 == 0 {
        q
    } else {
        q + 1
    }
}

proof fn lemma_two_pow_pos(k: nat)
    ensures
        two_pow(k) >= 1,
    decreases k,
{
    if k > 0 {
        lemma_two_pow_pos((k - 1) as nat);
    }
}

/// The nearest `f32` to `n / d` (`0 < n / d < 2^24`) as units and scale.
fn f32_nearest(n: u128, d: u128) -> (r: (u128, u128))
    requires
        1 <= n,
        1 <= d <= 0x100_0000_0000_0000,
        n < 16777216 * d,
    ensures
        r.1 == f32_scale(n as nat, d as nat, 0),
        r.0 == f32_units(n as nat, d as nat),
        1 <= r.1 <= 16777216 * d,
        r.0 <= 16777216,
{
    let mut k: u128 = 0;
    let mut p: u128 = 1;
    let mut np: u128 = n;
    while k < 80 && np < 8388608 * d
        invariant
            k <= 80,
            p == two_pow(k as nat),
            np == n * p,
            1 <= n,
            1 <= d <= 0x100_0000_0000_0000,
            1 <= p <= 16777216 * d,
            np < 16777216 * d,
            f32_scale(n as nat, d as nat, 0) == f32_scale(n as nat, d as nat, k as nat),
        decreases 80 - k,
    {
        assert(p <= np) by (nonlinear_arith)
            requires
                np == n * p,
                1 <= n,
                1 <= p,
        ;
        assert(two_pow((k + 1) as nat) == 2 * two_pow(k as nat));
        assert(n * (2 * p) == 2 * (n * p)) by (nonlinear_arith);
        p = 2 * p;
        np = 2 * np;
        k = k + 1;
    }
    proof {
        lemma_two_pow_pos(k as nat);
        if k < 80 {
            assert(np >= 8388608 * d);
        } else {
            assert(two_pow(80) == 0x1_0000_0000_0000_0000_0000) by {
                reveal_with_fuel(two_pow, 81);
            }
            assert(np >= 8388608 * d) by (nonlinear_arith)
                requires
                    np == n * p,
                    p == two_pow(80),
                    1 <= n,
                    d <= 0x100_0000_0000_0000,
                    two_pow(80) == 0x1_0000_0000_0000_0000_0000,
            {
            }
        }
        assert(f32_scale(n as nat, d as nat, k as nat) == two_pow(k as nat));
    }
    let units = round_half_even_u128(np, d);
    assert(np / d < 16777216) by (nonlinear_arith)
        requires
            np < 16777216 * d,
            d >= 1,
    ;
    assert(units <= 16777216) by {
        if units == np / d + 1 {
            let q = np / d;
            let r = np % d;
            assert(np == q * d + r) by (nonlinear_arith)
                requires
                    q == np / d,
                    r == np % d,
                    d >= 1,
            ;
        }
    }
    (units, p)
}

/// The tenths `{:.1}` prints for the `f32` nearest to `n / d`.
fn f32_tenths_exec(n: u128, d: u128) -> (r: u128)
    requires
        1 <= d <= 0x100_0000_0000_0000,
        n < 16777216 * d,
    ensures
        r == f32_tenths(n as nat, d as nat),
        r <= 167772161,
{
    reveal(f32_tenths);
    if n == 0 {
        return 0;
    }
    let (units, scale) = f32_nearest(n, d);
    let t = round_half_even_u128(10 * units, scale);
    assert(((10 * units) as int) / (scale as int) <= 10 * units) by (nonlinear_arith)
        requires
            scale >= 1,
    ;
    t
}

/// The tenths `{:.1}` prints for `ms` milliseconds held as seconds in an `f32`.
pub fn seconds_tenths(ms: u32) -> (r: u64)
    ensures
        r == f32_tenths(ms as nat, 1000),
{
    let t = f32_tenths_exec(ms as u128, 1000);
    t as u64
}

/// Progress, in tenths of a percent, of a checkpoint download that reported
/// `download_hundredths` hundredths of a percent: the tenths `{:.1}` prints for that
/// percentage held in an `f32`.
pub fn checkpoint_progress(download_hundredths: u32) -> (r: u32)
    requires
        download_hundredths <= 10000,
    ensures
        r == f32_tenths(download_hundredths as nat, 100),
{
    let t = f32_tenths_exec(download_hundredths as u128, 100);
    t as u32
}

/// The percentage a voice's model-file download reports: the download's own percentage
/// (in hundredths) held in an `f32` and multiplied, in `f32`, by `0.95`.
pub open spec fn voice_progress_tenths(h: nat) -> nat {
    if h == 0 {
        0
    } else {
        f32_tenths(
            f32_units(h, 100) * (F32_NINETY_FIVE_HUNDREDTHS as nat),
            f32_scale(h, 100, 0) * 16777216,
        )
    }
}

/// Progress, in tenths of a percent, reported while a voice's model file downloads: the
/// download's own progress scaled to 95% as `f32` arithmetic does, printed with one
/// decimal.
pub fn voice_model_progress(download_hundredths: u32) -> (r: u32)
    requires
        download_hundredths <= 10000,
    ensures
        r == voice_progress_tenths(download_hundredths as nat),
{
    if download_hundredths == 0 {
        return 0;
    }
    let (units, scale) = f32_nearest(download_hundredths as u128, 100);
    let n = units * (F32_NINETY_FIVE_HUNDREDTHS as u128);
    let d = scale * 16777216;
    assert(n < 16777216 * d) by (nonlinear_arith)
        requires
            n == units * F32_NINETY_FIVE_HUNDREDTHS,
            d == scale * 16777216,
            scale >= 1,
            units <= 16777216,
    ;
    f32_tenths_exec(n, d) as u32
}

} // verus!
