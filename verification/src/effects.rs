use vstd::prelude::*;
use crate::authority::Authority;
use crate::identity::Identity;

verus! {

/// One call into the counter-asset custody system. A transition handler never
/// performs these itself: it returns them for the host to apply, all or none.
#[derive(Clone, Debug, PartialEq)]
pub enum TokenOp {
    /// Move `amount` of the asset from `source` to `destination`, authorized
    /// by `authority`.
    Transfer { source: Identity, destination: Identity, authority: Authority, amount: u64 },
    /// Hand control of `account` to `new_authority`, authorized by the
    /// account's current controller `authority`.
    SetAuthority { account: Identity, new_authority: Identity, authority: Authority },
    /// Close the empty `account`, refunding its whole rent balance to
    /// `refund_to`, authorized by `authority`.
    Close { account: Identity, refund_to: Identity, authority: Authority },
}

/// A write of an escrow record's stored bytes.
#[derive(Clone, Debug, PartialEq)]
pub struct RecordWrite {
    /// The escrow record account written.
    pub account: Identity,
    /// The record's new canonical layout.
    pub data: Vec<u8>,
}

/// The closing of an escrow record: its bytes are zeroed and its whole rent
/// balance moves to `refund_to`. This is the only way a record leaves the open
/// state.
#[derive(Clone, Copy, Debug, PartialEq)]
pub struct RecordClose {
    /// The escrow record account closed.
    pub record: Identity,
    /// The account that receives the record's reclaimed rent.
    pub refund_to: Identity,
}

/// Everything a successful transition asks the host to commit: the host
/// applies the record write, then the custody-system calls in order, then the
/// record close — all of it, or none on any failure.
#[derive(Clone, Debug, PartialEq)]
pub struct Effects {
    /// The record write, if the transition populates the record.
    pub record_write: Option<RecordWrite>,
    /// The custody-system calls, in the order they must run.
    pub token_ops: Vec<TokenOp>,
    /// The record close, if the transition consumes the record.
    pub record_close: Option<RecordClose>,
}

} // verus!
