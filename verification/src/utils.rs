use vstd::prelude::*;

verus! {

/// `dividend / divisor` rounded to the nearest integer, a half rounded up.
pub open spec fn rounded_div(dividend: int, divisor: int) -> int {
    dividend / divisor + if 2 * (dividend % divisor) >= divisor {
        1int
    } else {
        0int
    }
}

/// Divides, rounding to the nearest integer and a half up. Division by zero
/// is the caller's fault (the program aborts on it), so it is excluded here.
pub fn safe_divide(dividend: u64, divisor: u64) -> (quotient: u64)
    requires
        divisor != 0,
    ensures
        quotient == rounded_div(dividend as int, divisor as int),
        // No integer is nearer to dividend / divisor, and of two that are
        // equally near the greater is taken.
        -(divisor as int) <= 2 * (dividend - quotient * divisor) < divisor,
{
    let quotient = dividend / divisor;
    let remainder = dividend % divisor;
    proof {
        let (n, d, q, r) = (dividend as int, divisor as int, quotient as int, remainder as int);
        assert(n == d * q + r && 0 <= r < d) by (nonlinear_arith)
            requires
                d > 0,
                q == n / d,
                r == n % d,
        ;
        assert(d >= 2 ==> 2 * q <= n) by (nonlinear_arith)
            requires
                n == d * q + r,
                0 <= r,
                0 <= q,
        ;
    }
    if remainder >= divisor / 2 + divisor % 2 {
        proof {
            let (n, d, q, r) = (dividend as int, divisor as int, quotient as int, remainder as int);
            assert(n - (q + 1) * d == r - d) by (nonlinear_arith)
                requires
                    n == d * q + r,
            ;
        }
        quotient + 1
    } else {
        proof {
            let (n, d, q, r) = (dividend as int, divisor as int, quotient as int, remainder as int);
            assert(n - q * d == r) by (nonlinear_arith)
                requires
                    n == d * q + r,
            ;
        }
        quotient
    }
}

/// The share of the premium, in percent, that a bond passes on, by how far
/// the trading price stands above the backing price; `None` where the
/// premium lies exactly on a tier boundary.
pub open spec fn premium_tier(premium: int, backing: int) -> Option<int> {
    if premium > backing {
        Some(30)
    } else if premium < backing && premium > backing / 2 {
        Some(50)
    } else if premium < backing / 2 && premium > backing / 4 {
        Some(65)
    } else if premium < backing / 4 {
        Some(80)
    } else {
        None
    }
}

/// The premium equals the backing price, or its half, or its quarter.
pub open spec fn on_tier_boundary(premium: int, backing: int) -> bool {
    premium == backing || premium == backing / 2 || premium == backing / 4
}

/// The bond price quoted for a trading price and a backing price: the
/// backing price plus the tier's share of the premium (counted in whole
/// hundredths of the premium), or 0 on a tier boundary.
pub open spec fn spec_bond_quote(trading: int, backing: int) -> int {
    let premium = trading - backing;
    match premium_tier(premium, backing) {
        Some(percent) => backing + premium / 100 * percent,
        None => 0,
    }
}

/// Quotes a bond price. The trading price may not lie below the backing
/// price: the program aborts otherwise.
pub fn calculate_bond_quote(current_trading_price: u64, current_backing_price: u64) -> (quote: u64)
    requires
        current_trading_price >= current_backing_price,
    ensures
        quote == spec_bond_quote(current_trading_price as int, current_backing_price as int),
        on_tier_boundary(current_trading_price - current_backing_price, current_backing_price as int)
            ==> quote == 0,
        !on_tier_boundary(current_trading_price - current_backing_price, current_backing_price as int)
            ==> current_backing_price <= quote <= current_trading_price,
{
    let difference = current_trading_price - current_backing_price;
    assert(difference / 100 * 100 <= difference);
    if difference > current_backing_price {
        current_backing_price + difference / 100 * 30
    } else if difference < current_backing_price && difference > current_backing_price / 2 {
        current_backing_price + difference / 100 * 50
    } else if difference < current_backing_price / 2 && difference > current_backing_price / 4 {
        current_backing_price + difference / 100 * 65
    } else if difference < current_backing_price / 4 {
        current_backing_price + difference / 100 * 80
    } else {
        0
    }
}

} // verus!
