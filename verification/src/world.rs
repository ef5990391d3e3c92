use vstd::prelude::*;
use crate::effects::{Effects, RecordClose, RecordWrite, TokenOp};

verus! {

/// One open custody-system account, as the application semantics sees it: the
/// asset it is denominated in, the identity that controls it, and its balance.
pub struct TokenState {
    /// The asset the account holds.
    pub asset: Seq<u8>,
    /// The identity whose authorization moves the account's contents.
    pub authority: Seq<u8>,
    /// The account's balance in its asset.
    pub amount: u64,
}

/// The slice of the hosting ledger that a transition's effects touch: the open
/// custody-system accounts, every account's rent balance, and the
/// program-owned escrow records, each by address.
pub struct WorldView {
    /// Open custody-system accounts, by address.
    pub tokens: Map<Seq<u8>, TokenState>,
    /// Rent balances, by address.
    pub lamports: Map<Seq<u8>, u64>,
    /// Escrow records' stored bytes, by address.
    pub records: Map<Seq<u8>, Seq<u8>>,
}

/// How the counter-asset custody system applies one call, or rejects it: a
/// transfer needs the source's controlling authority, matching assets, and
/// sufficient balance, and moves nothing on a self-transfer; an authority
/// change needs the current controller; a close needs the controller, an empty
/// account, and a distinct refund target, and moves the account's whole rent
/// balance there.
pub open spec fn apply_token_op(w: WorldView, op: TokenOp, program: Seq<u8>) -> Option<WorldView> {
    match op {
        TokenOp::Transfer { source, destination, authority, amount } => {
            if !w.tokens.contains_key(source@) || !w.tokens.contains_key(destination@) {
                None
            } else {
                let src = w.tokens[source@];
                let dst = w.tokens[destination@];
                if authority.acting_key(program) != Some(src.authority) {
                    None
                } else if src.asset != dst.asset {
                    None
                } else if amount > src.amount {
                    None
                } else if source@ == destination@ {
                    Some(w)
                } else if dst.amount + amount > u64::MAX {
                    None
                } else {
                    Some(
                        WorldView {
                            tokens: w.tokens.insert(
                                source@,
                                TokenState { amount: (src.amount - amount) as u64, ..src },
                            ).insert(
                                destination@,
                                TokenState { amount: (dst.amount + amount) as u64, ..dst },
                            ),
                            ..w
                        },
                    )
                }
            }
        },
        TokenOp::SetAuthority { account, new_authority, authority } => {
            if !w.tokens.contains_key(account@) {
                None
            } else if authority.acting_key(program) != Some(w.tokens[account@].authority) {
                None
            } else {
                Some(
                    WorldView {
                        tokens: w.tokens.insert(
                            account@,
                            TokenState { authority: new_authority@, ..w.tokens[account@] },
                        ),
                        ..w
                    },
                )
            }
        },
        TokenOp::Close { account, refund_to, authority } => {
            if !w.tokens.contains_key(account@) {
                None
            } else {
                let acct = w.tokens[account@];
                if authority.acting_key(program) != Some(acct.authority) {
                    None
                } else if acct.amount != 0 {
                    None
                } else if account@ == refund_to@ {
                    None
                } else if !w.lamports.contains_key(account@) || !w.lamports.contains_key(
                    refund_to@,
                ) {
                    None
                } else if w.lamports[refund_to@] + w.lamports[account@] > u64::MAX {
                    None
                } else {
                    Some(
                        WorldView {
                            tokens: w.tokens.remove(account@),
                            lamports: w.lamports.insert(
                                refund_to@,
                                (w.lamports[refund_to@] + w.lamports[account@]) as u64,
                            ).insert(account@, 0u64),
                            ..w
                        },
                    )
                }
            }
        },
    }
}

/// Applies custody-system calls in order; the first rejection rejects the
/// whole sequence.
pub open spec fn apply_token_ops(w: WorldView, ops: Seq<TokenOp>, program: Seq<u8>) -> Option<
    WorldView,
>
    decreases ops.len(),
{
    if ops.len() == 0 {
        Some(w)
    } else {
        match apply_token_op(w, ops[0], program) {
            None => None,
            Some(w1) => apply_token_ops(w1, ops.subrange(1, ops.len() as int), program),
        }
    }
}

/// Writes an escrow record's bytes; the record account must exist.
pub open spec fn apply_record_write(w: WorldView, rw: RecordWrite) -> Option<WorldView> {
    if !w.records.contains_key(rw.account@) {
        None
    } else {
        Some(WorldView { records: w.records.insert(rw.account@, rw.data@), ..w })
    }
}

/// Closes an escrow record: its bytes are zeroed and its whole rent balance
/// moves to the distinct refund target, rejecting on overflow.
pub open spec fn apply_record_close(w: WorldView, rc: RecordClose) -> Option<WorldView> {
    if !w.records.contains_key(rc.record@) {
        None
    } else if rc.refund_to@ == rc.record@ {
        None
    } else if !w.lamports.contains_key(rc.record@) || !w.lamports.contains_key(rc.refund_to@) {
        None
    } else if w.lamports[rc.refund_to@] + w.lamports[rc.record@] > u64::MAX {
        None
    } else {
        Some(
            WorldView {
                records: w.records.insert(rc.record@, Seq::empty()),
                lamports: w.lamports.insert(
                    rc.refund_to@,
                    (w.lamports[rc.refund_to@] + w.lamports[rc.record@]) as u64,
                ).insert(rc.record@, 0u64),
                ..w
            },
        )
    }
}

/// How the host commits a transition's effects: the record write, then the
/// custody-system calls in order, then the record close. `None` anywhere means
/// the host discards everything — no partial application exists.
pub open spec fn apply_effects(w: WorldView, e: Effects, program: Seq<u8>) -> Option<WorldView> {
    let after_write = match e.record_write {
        Some(rw) => apply_record_write(w, rw),
        None => Some(w),
    };
    match after_write {
        None => None,
        Some(w1) => match apply_token_ops(w1, e.token_ops@, program) {
            None => None,
            Some(w2) => match e.record_close {
                Some(rc) => apply_record_close(w2, rc),
                None => Some(w2),
            },
        },
    }
}

} // verus!
