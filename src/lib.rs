//! A credit-allocation ledger: an owner-controlled registry of credentials,
//! append-only allocation records against them, running totals, and the
//! mint instructions that each allocation hands back to the host.

use vstd::prelude::*;

pub mod contract;
pub mod error;
pub mod laws;
pub mod ledger;
pub mod msg;
pub mod state;
pub mod tokens;

verus! {

} // verus!
