//! Integer statistics: a product, and an average that rounds toward zero.

use vstd::prelude::*;

verus! {

/// The absolute value of `x`.
pub open spec fn magnitude(x: int) -> int {
    if x < 0 {
        -x
    } else {
        x
    }
}

/// The quotient of `a` by a non-zero `b`, rounded toward zero: the quotient
/// of the magnitudes, negative when the signs differ.
pub open spec fn quotient_toward_zero(a: int, b: int) -> int {
    if (a < 0) == (b < 0) {
        magnitude(a) / magnitude(b)
    } else {
        -(magnitude(a) / magnitude(b))
    }
}

/// The sum of the values.
pub open spec fn sum_of(values: Seq<i32>) -> int
    decreases values.len(),
{
    if values.len() == 0 {
        0
    } else {
        sum_of(values.drop_last()) + values.last()
    }
}

/// Whether adding up the first `count` values, one after the other, stays
/// within `i32` at every step.
pub open spec fn running_sums_fit(values: Seq<i32>, count: int) -> bool {
    forall|k: int| 0 <= k <= count ==> i32::MIN <= #[trigger] sum_of(values.take(k)) <= i32::MAX
}

/// The product of `a` and `b`.
pub fn rust_calculate_product(a: i32, b: i32) -> (product: i32)
    requires
        i32::MIN <= a * b <= i32::MAX,
    ensures
        product == a * b,
{
    a * b
}

/// The quotient of `a` by `b` rounded toward zero, or zero where `b` is zero.
pub fn internal_divide(a: i32, b: i32) -> (quotient: i32)
    requires
        !(a == i32::MIN && b == -1),
    ensures
        b == 0 ==> quotient == 0,
        b != 0 ==> quotient == quotient_toward_zero(a as int, b as int),
{
    proof {
        if b != 0 {
            lemma_quotient_is_no_larger(a as int, b as int);
        }
    }
    // With the one overflowing pair left out, only a zero divisor gives `None`.
    match a.checked_div(b) {
        Some(quotient) => quotient,
        None => 0,
    }
}

/// How large a quotient can be: its magnitude is that of the dividend where
/// the divisor is one or minus one, and at most half of it otherwise.
pub proof fn lemma_quotient_is_no_larger(a: int, b: int)
    requires
        b != 0,
    ensures
        magnitude(quotient_toward_zero(a, b)) == magnitude(a) / magnitude(b),
        magnitude(b) == 1 ==> magnitude(quotient_toward_zero(a, b)) == magnitude(a),
        magnitude(b) >= 2 ==> 2 * magnitude(quotient_toward_zero(a, b)) <= magnitude(a),
{
    let x = magnitude(a);
    let d = magnitude(b);
    assert(0 <= x / d && (d == 1 ==> x / d == x) && (d >= 2 ==> 2 * (x / d) <= x))
        by (nonlinear_arith)
        requires
            0 <= x,
            0 < d,
    ;
}

/// Tells whether `rust_calculate_average` can be asked for the average of the
/// first `count` values: there are that many, and their running sums fit.
pub fn can_average(values: &[i32], count: i32) -> (can: bool)
    ensures
        can == (count <= values.len() && running_sums_fit(values@, count as int)),
{
    assert(values@.take(0).len() == 0);
    if count <= 0 {
        return true;
    }
    if count as usize > values.len() {
        return false;
    }
    let mut sum: i32 = 0;
    let mut i: i32 = 0;
    while i < count
        invariant
            0 <= i <= count <= values.len(),
            sum == sum_of(values@.take(i as int)),
            running_sums_fit(values@, i as int),
        decreases count - i,
    {
        proof {
            assert(values@.take(i + 1).drop_last() == values@.take(i as int));
            assert(values@.take(i + 1).last() == values@[i as int]);
        }
        match sum.checked_add(values[i as usize]) {
            Some(next) => {
                sum = next;
            },
            None => {
                assert(!(i32::MIN <= sum_of(values@.take(i + 1)) <= i32::MAX));
                return false;
            },
        }
        i = i + 1;
    }
    true
}

/// The average of the first `count` values, rounded toward zero; zero where
/// `count` is not positive.
pub fn rust_calculate_average(values: &[i32], count: i32) -> (average: i32)
    requires
        count <= values.len(),
        running_sums_fit(values@, count as int),
    ensures
        count <= 0 ==> average == 0,
        count > 0 ==> average == quotient_toward_zero(
            sum_of(values@.take(count as int)),
            count as int,
        ),
{
    if count == 0 {
        return 0;
    }
    let mut sum: i32 = 0;
    let mut i: i32 = 0;
    while i < count
        invariant
            0 <= i,
            i <= count || i == 0,
            count <= values.len(),
            running_sums_fit(values@, count as int),
            sum == sum_of(values@.take(i as int)),
        decreases count - i,
    {
        proof {
            assert(values@.take(i + 1).drop_last() == values@.take(i as int));
            assert(values@.take(i + 1).last() == values@[i as int]);
            assert(i32::MIN <= sum_of(values@.take(i + 1)) <= i32::MAX);
        }
        sum = sum + values[i as usize];
        i = i + 1;
    }
    internal_divide(sum, count)
}

} // verus!
