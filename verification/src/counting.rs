//! Bean counting: how many beans of a given weight fit in a portion.
//!
//! The same quotient is offered twice, to keep partial and total functions
//! apart: `count_beans_partial` is defined only for a non-zero bean weight
//! (the caller owes the precondition), while `count_beans_total` accepts
//! every input and reports an undefined quotient as `None`.

use vstd::arithmetic::div_mod::{
    lemma_div_basics, lemma_div_by_multiple, lemma_div_is_ordered,
    lemma_div_is_ordered_by_denominator, lemma_div_nonincreasing, lemma_div_pos_is_pos,
};
use vstd::prelude::*;

verus! {

/// Rust's truncating integer division, written over mathematical integers.
/// Meaningful only for a non-zero divisor.
pub open spec fn quotient_toward_zero(x: int, d: int) -> int
    recommends
        d != 0,
{
    if x == 0 {
        0
    } else if x > 0 && d > 0 {
        x / d
    } else if x < 0 && d < 0 {
        (x * -1) / (d * -1)
    } else if x < 0 {
        ((x * -1) / d) * -1
    } else {
        (x / (d * -1)) * -1
    }
}

/// What counting beans returns on every input: `None` exactly when the
/// quotient is undefined (zero bean weight) or does not fit in an `i32`.
pub open spec fn beans_of(portion_weight_mg: i32, bean_weight_mg: i32) -> Option<i32> {
    if bean_weight_mg == 0 || (portion_weight_mg == i32::MIN && bean_weight_mg == -1) {
        None
    } else {
        Some(quotient_toward_zero(portion_weight_mg as int, bean_weight_mg as int) as i32)
    }
}

/// On every defined input the quotient of two `i32` values fits in an `i32`;
/// the one exception, dividing `i32::MIN` by `-1`, is excluded here.
proof fn lemma_quotient_fits(x: int, d: int)
    requires
        i32::MIN <= x <= i32::MAX,
        i32::MIN <= d <= i32::MAX,
        d != 0,
        !(x == i32::MIN && d == -1),
    ensures
        i32::MIN <= quotient_toward_zero(x, d) <= i32::MAX,
{
    if x == 0 {
    } else if x > 0 && d > 0 {
        lemma_div_pos_is_pos(x, d);
        lemma_div_nonincreasing(x, d);
    } else if x < 0 && d < 0 {
        lemma_div_pos_is_pos(x * -1, d * -1);
        if d == -1 {
            lemma_div_basics(x * -1);
        } else {
            lemma_div_is_ordered_by_denominator(x * -1, 2, d * -1);
            lemma_div_is_ordered(x * -1, 0x8000_0000, 2);
            lemma_div_by_multiple(0x4000_0000, 2);
        }
    } else if x < 0 {
        lemma_div_pos_is_pos(x * -1, d);
        lemma_div_nonincreasing(x * -1, d);
    } else {
        lemma_div_pos_is_pos(x, d * -1);
        lemma_div_nonincreasing(x, d * -1);
    }
}

/// Dividing `i32::MIN` by `-1` is the one quotient of two `i32` values that
/// overflows: it equals `i32::MAX + 1`.
proof fn lemma_min_by_minus_one_overflows()
    ensures
        quotient_toward_zero(i32::MIN as int, -1) == i32::MAX + 1,
{
    lemma_div_basics(i32::MIN as int * -1);
}

/// Counts the beans in a portion of the given weight.
///
/// A partial function: it is undefined for a zero bean weight (and for the
/// one quotient that overflows `i32`), so the caller owes the precondition.
/// A violation is a fault, never an error value: verified callers are held
/// to the precondition, and an unverified call with a zero bean weight
/// panics on the absent checked quotient instead of returning a number.
pub fn count_beans_partial(portion_weight_mg: i32, bean_weight_mg: i32) -> (count: i32)
    requires
        bean_weight_mg != 0,
        !(portion_weight_mg == i32::MIN && bean_weight_mg == -1),
    ensures
        count == quotient_toward_zero(portion_weight_mg as int, bean_weight_mg as int),
{
    proof {
        lemma_quotient_fits(portion_weight_mg as int, bean_weight_mg as int);
    }
    portion_weight_mg.checked_div(bean_weight_mg).unwrap()
}

/// Counts the beans in a portion of the given weight.
///
/// A total function: defined for every input, with absence of a quotient
/// made explicit as `None` instead of a fault.
pub fn count_beans_total(portion_weight_mg: i32, bean_weight_mg: i32) -> (count: Option<i32>)
    ensures
        count == beans_of(portion_weight_mg, bean_weight_mg),
        bean_weight_mg == 0 ==> count is None,
{
    proof {
        if bean_weight_mg != 0 {
            if portion_weight_mg == i32::MIN && bean_weight_mg == -1 {
                lemma_min_by_minus_one_overflows();
            } else {
                lemma_quotient_fits(portion_weight_mg as int, bean_weight_mg as int);
            }
        }
    }
    portion_weight_mg.checked_div(bean_weight_mg)
}

/// For every non-zero bean weight on which the partial function is defined,
/// the total function returns `Some` of exactly the partial function's value.
pub proof fn lemma_total_matches_partial(portion_weight_mg: i32, bean_weight_mg: i32)
    requires
        bean_weight_mg != 0,
        !(portion_weight_mg == i32::MIN && bean_weight_mg == -1),
    ensures
        beans_of(portion_weight_mg, bean_weight_mg) == Some(
            quotient_toward_zero(portion_weight_mg as int, bean_weight_mg as int) as i32,
        ),
{
}

/// A zero bean weight never yields a count: the total function answers
/// `None` for every portion weight.
pub proof fn lemma_zero_weight_counts_nothing(portion_weight_mg: i32)
    ensures
        beans_of(portion_weight_mg, 0) is None,
{
}

} // verus!
