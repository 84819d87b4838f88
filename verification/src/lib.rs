//! A constant-product bonding-curve sale engine and a fixed-fee escrow
//! listing flow, with every state transition proved against its contract.
//!
//! The operations work on plain records of the ledger accounts that a call
//! touches. Each one checks everything first and writes last, so a refused
//! call changes nothing.

pub mod accounts;
pub mod error;
pub mod curve;
pub mod payment;
pub mod laws;
pub mod engine;
pub mod street_sync;

pub use crate::curve::BondingCurve;
pub use crate::engine::{buy_tokens, initialize_curve, BuyTokens, InitializeCurve};
pub use crate::error::ErrorCode;
