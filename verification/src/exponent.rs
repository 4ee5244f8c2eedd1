use vstd::prelude::*;
use vstd::arithmetic::power2::pow2;

verus! {

/// `floor(log2(m))` for a positive integer `m` (and `0` for `0`).
pub open spec fn floor_log2(m: nat) -> nat
    decreases m,
{
    if m <= 1 {
        0
    } else {
        1 + floor_log2(m / 2)
    }
}

/// `2^floor_log2(m) <= m < 2^(floor_log2(m) + 1)` for every positive `m`.
pub proof fn lemma_floor_log2_bounds(m: nat)
    requires
        m > 0,
    ensures
        pow2(floor_log2(m)) <= m < pow2(floor_log2(m) + 1),
    decreases m,
{
    vstd::arithmetic::power2::lemma_pow2_unfold(floor_log2(m) + 1);
    if m <= 1 {
        vstd::arithmetic::power2::lemma2_to64();
    } else {
        lemma_floor_log2_bounds(m / 2);
        vstd::arithmetic::power2::lemma_pow2_unfold(floor_log2(m));
    }
}

/// The number of leading zero bits of a non-zero `u64` is `63 - floor_log2`.
proof fn lemma_leading_zeros_is_floor_log2(m: u64)
    requires
        m != 0,
    ensures
        vstd::std_specs::bits::u64_leading_zeros(m) == 63 - floor_log2(m as nat),
    decreases m,
{
    reveal(vstd::std_specs::bits::u64_leading_zeros);
    if m == 1 {
        assert(vstd::std_specs::bits::u64_leading_zeros(0) == 64);
    } else {
        lemma_leading_zeros_is_floor_log2(m / 2);
    }
}

/// The binary exponent `floor(log2(|value|))` of the finite, non-zero float
/// whose integer decoding is `value == ±mantissa * 2^exponent`. A zero
/// mantissa (a zero value, which has no binary exponent) gives
/// `exponent - 1`, as counting 64 leading zeros does.
pub open spec fn binary_exponent_spec(mantissa: u64, exponent: i16) -> int {
    if mantissa == 0 {
        exponent - 1
    } else {
        exponent + floor_log2(mantissa as nat)
    }
}

/// `floor(log2(|value|))`, computed exactly from the representation
/// `|value| == mantissa * 2^exponent` of a finite, non-zero float (the
/// mantissa and exponent that `integer_decode` gives). The value must be
/// non-zero for the result to be its binary exponent.
pub fn binary_exponent(mantissa: u64, exponent: i16) -> (e: i32)
    ensures
        e == binary_exponent_spec(mantissa, exponent),
{
    proof {
        if mantissa == 0 {
            reveal(vstd::std_specs::bits::u64_leading_zeros);
        } else {
            lemma_leading_zeros_is_floor_log2(mantissa);
        }
    }
    exponent as i32 + (63 - mantissa.leading_zeros() as i32)
}

/// The exponent of the power of two that scales a value of binary exponent
/// `value_exponent` to `target_exponent`, clamped to
/// `[-max_exponent, max_exponent]` so that the scale stays representable.
pub open spec fn power_of_two_shift_spec(
    value_exponent: int,
    target_exponent: int,
    max_exponent: int,
) -> int {
    let shift = target_exponent - value_exponent;
    if shift < -max_exponent {
        -max_exponent
    } else if shift > max_exponent {
        max_exponent
    } else {
        shift
    }
}

/// The exponent of the power of two by which a value with binary exponent
/// `value_exponent` is scaled towards `target_exponent`, clamped by
/// `±max_exponent` so that `2^shift` is representable.
pub fn power_of_two_shift(value_exponent: i32, target_exponent: i32, max_exponent: i32) -> (s: i32)
    requires
        max_exponent >= 0,
        i32::MIN <= target_exponent - value_exponent <= i32::MAX,
    ensures
        s == power_of_two_shift_spec(
            value_exponent as int,
            target_exponent as int,
            max_exponent as int,
        ),
{
    let shift = target_exponent - value_exponent;
    let min = -max_exponent;
    if shift < min {
        min
    } else if shift > max_exponent {
        max_exponent
    } else {
        shift
    }
}


/// The binary exponent brackets the value: with `r` the binary exponent of
/// `mantissa * 2^exponent`, `2^r <= mantissa * 2^exponent < 2^(r + 1)`, that
/// is `2^(r - exponent) <= mantissa < 2^(r - exponent + 1)`.
pub proof fn law_binary_exponent_brackets_value(mantissa: u64, exponent: i16)
    requires
        mantissa != 0,
    ensures
        binary_exponent_spec(mantissa, exponent) >= exponent,
        pow2((binary_exponent_spec(mantissa, exponent) - exponent) as nat) <= mantissa,
        mantissa < pow2((binary_exponent_spec(mantissa, exponent) - exponent + 1) as nat),
{
    lemma_floor_log2_bounds(mantissa as nat);
}

/// `floor_log2(2^j) == j`.
proof fn lemma_floor_log2_of_pow2(j: nat)
    ensures
        floor_log2(pow2(j)) == j,
    decreases j,
{
    vstd::arithmetic::power2::lemma2_to64();
    if j > 0 {
        vstd::arithmetic::power2::lemma_pow2_unfold(j);
        vstd::arithmetic::power2::lemma_pow2_pos((j - 1) as nat);
        lemma_floor_log2_of_pow2((j - 1) as nat);
        assert(pow2(j) / 2 == pow2((j - 1) as nat));
    }
}

/// The binary exponent of a power of two is exact: a value
/// `2^j * 2^exponent` has binary exponent `exponent + j`.
pub proof fn law_binary_exponent_of_power_of_two(j: nat, exponent: i16)
    requires
        j < 64,
    ensures
        pow2(j) <= u64::MAX,
        binary_exponent_spec(pow2(j) as u64, exponent) == exponent + j,
{
    vstd::arithmetic::power2::lemma2_to64();
    vstd::arithmetic::power2::lemma_pow2_strictly_increases(j, 64);
    lemma_floor_log2_of_pow2(j);
}

/// The shift never exceeds `max_exponent` in size, and when the target is
/// within reach it lands the exponent exactly on the target.
pub proof fn law_shift_is_capped_and_exact(
    value_exponent: int,
    target_exponent: int,
    max_exponent: int,
)
    requires
        max_exponent >= 0,
    ensures
        -max_exponent <= power_of_two_shift_spec(value_exponent, target_exponent, max_exponent)
            <= max_exponent,
        -max_exponent <= target_exponent - value_exponent <= max_exponent ==> value_exponent
            + power_of_two_shift_spec(value_exponent, target_exponent, max_exponent)
            == target_exponent,
        target_exponent - value_exponent > max_exponent ==> power_of_two_shift_spec(
            value_exponent,
            target_exponent,
            max_exponent,
        ) == max_exponent,
        target_exponent - value_exponent < -max_exponent ==> power_of_two_shift_spec(
            value_exponent,
            target_exponent,
            max_exponent,
        ) == -max_exponent,
{
}

} // verus!
