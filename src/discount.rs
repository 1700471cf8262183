use vstd::prelude::*;

verus! {

/// A reduction of a price: a percentage of it, or a fixed amount in cents.
#[derive(Debug, Clone, Copy, PartialEq, Eq)]
pub enum DiscountValue {
    Percentage(u8),
    Fixed(u64),
}

/// The price left after `discount` is taken off `amount`.
///
/// A percentage above one hundred takes the whole price; a fixed amount above
/// the price leaves nothing. Percentages round down to the cent.
pub open spec fn discounted(discount: DiscountValue, amount: int) -> int {
    match discount {
        DiscountValue::Percentage(p) => if p <= 100 {
            amount * (100 - p) / 100
        } else {
            0
        },
        DiscountValue::Fixed(f) => if amount - f > 0 {
            amount - f
        } else {
            0
        },
    }
}

/// A discount never raises a price nor takes it below zero.
pub proof fn lemma_discounted_bounds(discount: DiscountValue, amount: int)
    requires
        amount >= 0,
    ensures
        0 <= discounted(discount, amount) <= amount,
{
    match discount {
        DiscountValue::Percentage(p) => {
            if p <= 100 {
                let k = 100 - p;
                assert(0 <= amount * k <= amount * 100) by (nonlinear_arith)
                    requires
                        0 <= k <= 100,
                        amount >= 0,
                ;
                assert(0 <= (amount * k) / 100 <= amount) by (nonlinear_arith)
                    requires
                        0 <= amount * k <= amount * 100,
                ;
            }
        },
        DiscountValue::Fixed(_) => {},
    }
}

/// Applies a discount to an amount of cents.
pub fn apply_discount(discount: DiscountValue, amount: u64) -> (r: u64)
    ensures
        r == discounted(discount, amount as int),
{
    proof {
        lemma_discounted_bounds(discount, amount as int);
    }
    match discount {
        DiscountValue::Percentage(p) => {
            if p <= 100 {
                let k: u128 = (100 - p) as u128;
                let a: u128 = amount as u128;
                assert(a * k <= 100 * 0xffff_ffff_ffff_ffffu128) by (nonlinear_arith)
                    requires
                        a <= 0xffff_ffff_ffff_ffffu128,
                        k <= 100,
                ;
                ((a * k) / 100) as u64
            } else {
                0
            }
        },
        DiscountValue::Fixed(f) => {
            if amount > f {
                amount - f
            } else {
                0
            }
        },
    }
}

/// Taking a percentage off a price leaves the price scaled by what remains of a
/// hundred, rounded down, and never more than the price.
pub proof fn lemma_percentage_discount(p: int, k: u8)
    requires
        p >= 0,
        k <= 100,
    ensures
        discounted(DiscountValue::Percentage(k), p) == p * (100 - k) / 100,
        discounted(DiscountValue::Percentage(k), p) <= p,
{
    lemma_discounted_bounds(DiscountValue::Percentage(k), p);
}

/// Taking a fixed amount off a price leaves the difference, and never less than nothing.
pub proof fn lemma_fixed_discount(p: int, f: u64)
    requires
        p >= 0,
    ensures
        discounted(DiscountValue::Fixed(f), p) == if p - f > 0 { p - f } else { 0 },
        discounted(DiscountValue::Fixed(f), p) >= 0,
{
}

} // verus!
