//! A verified model of an ordered token-issuance protocol: a mint account is
//! prepared by declaring a non-transferable restriction and a metadata
//! pointer, finalized with its structural fields, given inline metadata, and
//! then issued exactly one unit — each step gated by the state the earlier
//! steps produced.

pub mod errors;
pub mod instructions;
pub mod keys;
pub mod protocol;
pub mod state;
