//! A verified model of a drink vending machine: orders are encoded into
//! dispense codes, payment is checked against a price catalog, shortages are
//! reported through caller-supplied capabilities, and successful sales are
//! accumulated in a ledger. All money amounts are integer cents.

pub mod machine;
pub mod price_manager;
pub mod printer;
pub mod text;
