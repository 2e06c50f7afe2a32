//! Core of a binary prediction market priced by the logarithmic market
//! scoring rule: the market's and the users' ledgers, the execution of
//! trades under guards, the search for the largest quantity that the guards
//! let pass, settlement against a price feed, and redemption out of a pooled
//! vault.
//!
//! Everything here works on integers at a fixed-point scale of one million
//! and is verified. What needs floating point, the cost function itself,
//! comes in as a pricer (see `pricing`); what needs the outside world, such
//! as the clock, the accounts and the transfers, comes in as plain values
//! and goes out as receipts.

pub mod address;
pub mod error;
pub mod events;
pub mod guard;
pub mod market;
pub mod oracle;
pub mod order;
pub mod position;
pub mod pricing;
pub mod redeem;
pub mod search;
pub mod trade;
pub mod units;
