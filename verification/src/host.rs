//! Host-supplied execution context, made explicit.
//!
//! On the ledger, the caller principal and the current block height and
//! timestamp are ambient. Here they are plain values handed to every
//! operation, so the registries are ordinary verified data structures.

use vstd::prelude::*;

verus! {

/// A principal: an account able to hold ownership, control, or delegated
/// authorization.
#[derive(Clone, Copy, PartialEq, Eq, Hash, Debug, Structural)]
pub struct AccountId(pub u64);

impl View for AccountId {
    type V = AccountId;

    open spec fn view(&self) -> AccountId {
        *self
    }
}

/// The context of one call: who calls, and at which block.
#[derive(Clone, Copy, PartialEq, Eq, Debug, Structural)]
pub struct HostContext {
    pub caller: AccountId,
    pub block_number: u32,
    pub block_timestamp: u64,
}

} // verus!
