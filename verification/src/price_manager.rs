//! The price catalog: the fixed price of each drink, in cents, and the
//! shortfall query used for payment checks.

use vstd::prelude::*;

use crate::machine::DrinkType;

verus! {

/// The unit price of a drink, in cents. Every drink variant has a price;
/// the catalog is a fixed, compiled-in configuration.
pub open spec fn spec_price_cents(d: DrinkType) -> u64 {
    match d {
        DrinkType::Tea => 40,
        DrinkType::Coffee => 60,
        DrinkType::Chocolate => 50,
        DrinkType::OrangeJuice => 60,
    }
}

/// The shortfall left when `money` cents are offered toward `price` cents:
/// zero when the payment covers the price.
pub open spec fn spec_shortfall(price: u64, money: u64) -> u64 {
    if price > money {
        (price - money) as u64
    } else {
        0
    }
}

/// The unit price of a drink, in cents.
pub fn price_cents(drink_type: DrinkType) -> (p: u64)
    ensures
        p == spec_price_cents(drink_type),
{
    match drink_type {
        DrinkType::Tea => 40,
        DrinkType::Coffee => 60,
        DrinkType::Chocolate => 50,
        DrinkType::OrangeJuice => 60,
    }
}

/// How many cents are still missing when `money` cents are offered for one
/// `drink_type`. Zero exactly when the payment is sufficient; paying the
/// exact price leaves nothing missing.
pub fn check_missing_money_for_product(drink_type: DrinkType, money: u64) -> (missing: u64)
    ensures
        missing == spec_shortfall(spec_price_cents(drink_type), money),
        missing == 0 <==> money >= spec_price_cents(drink_type),
{
    let price: u64 = price_cents(drink_type);
    if price > money {
        price - money
    } else {
        0
    }
}

} // verus!
