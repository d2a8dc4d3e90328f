use vstd::arithmetic::logarithm::{lemma_log_pow, log};
use vstd::arithmetic::power::pow;
use vstd::arithmetic::power2::{
    is_pow2, is_pow2_equiv, is_pow2_exists, lemma2_to64, lemma_pow2, lemma_pow2_strictly_increases,
    pow2,
};
use vstd::bits::{lemma_u32_pow2_no_overflow, lemma_u32_shl_is_mul};
use vstd::prelude::*;

verus! {

/// The rule for the operands of a shift or a rotate: the shifted operand is
/// `2^k` bits wide, for the width `k` of the operand that gives the amount.
/// So the shifted width is a power of two, and the amount's width is its
/// base-two logarithm.
pub open spec fn shift_widths_match(value_width: u32, amount_width: u32) -> bool {
    value_width as nat == pow2(amount_width as nat)
}

/// The lengths match exactly when the shifted length is a power of two, and
/// the amount's length is its base-two logarithm.
pub proof fn lemma_shift_widths_match(value_width: u32, amount_width: u32)
    ensures
        shift_widths_match(value_width, amount_width) <==> is_pow2(value_width as int) && log(
            2,
            value_width as int,
        ) == amount_width,
{
    is_pow2_equiv(value_width as int);
    if shift_widths_match(value_width, amount_width) {
        lemma_pow2(amount_width as nat);
        lemma_log_pow(2, amount_width as nat);
        assert(pow(2, amount_width as nat) == value_width as int);
        assert(is_pow2_exists(value_width as int));
    }
    if is_pow2(value_width as int) && log(2, value_width as int) == amount_width {
        let i = choose|i: nat| pow(2, i) == value_width as int;
        lemma_log_pow(2, i);
        lemma_pow2(i);
    }
}

/// Test the rule for the operands of a shift or a rotate.
pub fn check_shift_widths(value_width: u32, amount_width: u32) -> (ok: bool)
    ensures
        ok == shift_widths_match(value_width, amount_width),
{
    if amount_width >= 32 {
        proof {
            lemma2_to64();
            if amount_width > 32 {
                lemma_pow2_strictly_increases(32, amount_width as nat);
            }
        }
        false
    } else {
        proof {
            lemma_u32_pow2_no_overflow(amount_width as nat);
            lemma_u32_shl_is_mul(1u32, amount_width);
        }
        value_width == 1u32 << amount_width
    }
}

} // verus!
