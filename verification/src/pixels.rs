use vstd::prelude::*;

verus! {

/// Fractional pixel quantities are carried as whole numbers of *milliunits*
/// (thousandths of a pixel), so that every length the demo reasons about is an
/// exact integer.
///
/// `spec_round_half_away(v)` is the whole number of pixels nearest to
/// `v / 1000`, with a half rounded away from zero.  Away-from-zero is the
/// convention of the host toolkit's rounding primitive, so the derived
/// viewport lands on the same pixels the host lays the canvas out on.
pub open spec fn spec_round_half_away(v: int) -> int {
    if v >= 0 {
        (v + 500) / 1000
    } else {
        -(((-v) + 500) / 1000)
    }
}

/// Rounds a milliunit quantity to the nearest whole unit, a half away from
/// zero.  The bounds only keep the intermediate sum inside `i64`.
pub fn round_milli(v: i64) -> (r: i64)
    requires
        -(i64::MAX - 500) <= v <= i64::MAX - 500,
    ensures
        r == spec_round_half_away(v as int),
{
    if v >= 0 {
        (v + 500) / 1000
    } else {
        let m: i64 = -v;
        -((m + 500) / 1000)
    }
}

/// The rounded value is within half a unit of the exact quotient, and an
/// exact half lands on the side away from zero: for `v >= 0` the error
/// `1000 * r - v` can reach `+500` but never `-500`, and symmetrically for
/// `v <= 0`.
pub proof fn lemma_round_is_nearest(v: int)
    ensures
        v >= 0 ==> -499 <= 1000 * spec_round_half_away(v) - v <= 500,
        v <= 0 ==> -500 <= 1000 * spec_round_half_away(v) - v <= 499,
{
    if v >= 0 {
        vstd::arithmetic::div_mod::lemma_fundamental_div_mod(v + 500, 1000);
        vstd::arithmetic::div_mod::lemma_mod_bound(v + 500, 1000);
    } else {
        vstd::arithmetic::div_mod::lemma_fundamental_div_mod((-v) + 500, 1000);
        vstd::arithmetic::div_mod::lemma_mod_bound((-v) + 500, 1000);
    }
}

} // verus!
