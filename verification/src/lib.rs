//! Confidential token ledger and confidential constant-product market maker.
//!
//! Every monetary quantity is an opaque encrypted handle; the rules in this
//! crate decide who may do what to which record, and never look inside one.

pub mod access_control;
pub mod address;
pub mod bridge;
pub mod custody;
pub mod derivation;
pub mod encrypted;
pub mod inco_token;
pub mod laws;
pub mod private_amm;
pub mod token_state;
pub mod user_ledger;
