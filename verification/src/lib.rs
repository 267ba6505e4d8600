//! An append-only maintenance log: for each vehicle identifier an ordered
//! history of maintenance records, behind a surface that is initialised once
//! and bound to an owner.
//!
//! - `identity`: the names of accounts, as the network forms them.
//! - `record`: one maintenance event and its wire shape.
//! - `store`: the histories, with append and lookup.
//! - `contract`: the surface that the host exposes, with its owner.

pub mod error;
pub mod identity;
pub mod record;
pub mod store;
pub mod contract;
