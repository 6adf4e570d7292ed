//! A phased token-sale engine.
//!
//! A campaign alternates between a Buying round, where buyers purchase
//! directly from a custodial vault at a single posted price, and a Trading
//! round, where sellers list escrowed inventory on an order book and buyers
//! purchase from those listings at seller-set prices. The engine enforces
//! round timing, recalibrates the price between rounds with a fixed-point
//! formula, settles every trade as an all-or-nothing two-leg exchange, and
//! finalizes the campaign once it ends and no open orders remain.
//!
//! The engine is pure: identities and account addresses are plain `u64`
//! values, and the balances of the accounts an operation touches are handed
//! in as mutable references. The surrounding host is expected to own the
//! ledger, verify signers, and read the clock; the engine decides, checks,
//! and moves the amounts.

pub mod access_control;
pub mod account;
pub mod currency;
pub mod engine;
pub mod error;
pub mod laws;
pub mod round;
