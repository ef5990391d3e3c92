use vstd::prelude::*;
use crate::accounts::{post_bind_fault, AccountView};
use crate::authority::{derived_authority, spec_escrow_seed};
use crate::effects::{Effects, TokenOp};
use crate::error::Fault;
use crate::processor::{
    cancel_effects_ok, cancel_fault, post_effects_ok, post_fault, posted_record_layout,
    take_effects_ok, take_fault,
};
use crate::state::Escrow;
use crate::token::token_contents;
use crate::world::{apply_effects, apply_token_op, apply_token_ops, WorldView};

verus! {

/// Posting into a record that already holds an open trade always fails; as
/// soon as the accounts themselves bind, the failure is the
/// already-initialized fault. A failed transition returns no effects, so the
/// record is left unchanged.
pub proof fn lemma_post_already_open_fails(
    program: Seq<u8>,
    token_system: Seq<u8>,
    accounts: Seq<AccountView>,
    record_rent_minimum: u64,
)
    requires
        Escrow::parseable(accounts[3].data@),
        Escrow::stored_is_initialized(accounts[3].data@),
    ensures
        post_fault(program, token_system, accounts, record_rent_minimum) is Some,
        post_bind_fault(accounts, token_system, record_rent_minimum) is None ==> post_fault(
            program,
            token_system,
            accounts,
            record_rent_minimum,
        ) == Some(Fault::AccountAlreadyInitialized),
{
}

/// A Take that is not rejected pins both amounts exactly: the offered amount
/// is the custody account's live balance and the claimed ask is the recorded
/// ask.
pub proof fn lemma_take_amounts_pinned(
    program: Seq<u8>,
    token_system: Seq<u8>,
    accounts: Seq<AccountView>,
    buy_amount: u64,
    sell_amount: u64,
)
    requires
        take_fault(program, token_system, accounts, buy_amount, sell_amount) is None,
    ensures
        token_contents(accounts[3].data@) is Some,
        buy_amount == token_contents(accounts[3].data@)->Some_0.2,
        sell_amount == Escrow::stored_buy_amount(accounts[6].data@),
{
}

/// Moving either amount off the custody account's live balance or the recorded
/// ask makes Take fail.
pub proof fn lemma_take_amount_mutation_fails(
    program: Seq<u8>,
    token_system: Seq<u8>,
    accounts: Seq<AccountView>,
    buy_amount: u64,
    sell_amount: u64,
)
    requires
        token_contents(accounts[3].data@) is None || buy_amount != token_contents(
            accounts[3].data@,
        )->Some_0.2 || sell_amount != Escrow::stored_buy_amount(accounts[6].data@),
    ensures
        take_fault(program, token_system, accounts, buy_amount, sell_amount) is Some,
{
}

/// Against a record that no longer holds an open trade — in particular one
/// whose bytes a completed Take or Cancel has zeroed — any further Take fails,
/// whatever else is supplied. A failed transition returns no effects, so
/// nothing further moves.
pub proof fn lemma_take_closed_record_fails(
    program: Seq<u8>,
    token_system: Seq<u8>,
    accounts: Seq<AccountView>,
    buy_amount: u64,
    sell_amount: u64,
)
    requires
        !Escrow::parseable(accounts[6].data@) || !Escrow::stored_is_initialized(accounts[6].data@),
    ensures
        take_fault(program, token_system, accounts, buy_amount, sell_amount) is Some,
{
}

/// Against a record that no longer holds an open trade, any further Cancel
/// fails, whatever else is supplied. A failed transition returns no effects,
/// so nothing further moves.
pub proof fn lemma_cancel_closed_record_fails(
    program: Seq<u8>,
    token_system: Seq<u8>,
    accounts: Seq<AccountView>,
)
    requires
        !Escrow::parseable(accounts[2].data@) || !Escrow::stored_is_initialized(accounts[2].data@),
    ensures
        cancel_fault(program, token_system, accounts) is Some,
{
}

/// A Cancel whose signing party is not the recorded poster always fails,
/// however valid the rest of the supplied accounts are.
pub proof fn lemma_cancel_requires_poster(
    program: Seq<u8>,
    token_system: Seq<u8>,
    accounts: Seq<AccountView>,
)
    requires
        accounts[0].key@ != Escrow::stored_poster(accounts[2].data@),
    ensures
        cancel_fault(program, token_system, accounts) is Some,
{
}

/// Once a successful Post is committed, the custody account's controlling
/// authority is the derived custody authority delegate — and, whenever the
/// derived identity differs from the poster's key, not the poster — and the
/// record holds the open trade in its canonical layout.
pub proof fn lemma_post_delegates_custody(
    program: Seq<u8>,
    token_system: Seq<u8>,
    accounts: Seq<AccountView>,
    buy_amount: u64,
    record_rent_minimum: u64,
    e: Effects,
    w: WorldView,
    w2: WorldView,
)
    requires
        post_fault(program, token_system, accounts, record_rent_minimum) is None,
        post_effects_ok(program, accounts, buy_amount, e),
        apply_effects(w, e, program) == Some(w2),
    ensures
        w2.tokens.contains_key(accounts[1].key@),
        w2.tokens[accounts[1].key@].authority == derived_authority(
            spec_escrow_seed(),
            program,
        )->Some_0.0,
        derived_authority(spec_escrow_seed(), program)->Some_0.0 != accounts[0].key@
            ==> w2.tokens[accounts[1].key@].authority != accounts[0].key@,
        w2.records[accounts[3].key@] == posted_record_layout(accounts, buy_amount),
        Escrow::stored_is_initialized(w2.records[accounts[3].key@]),
{
    let ops = e.token_ops@;
    let rw = e.record_write->Some_0;
    let w1 = WorldView { records: w.records.insert(rw.account@, rw.data@), ..w };
    assert(apply_token_ops(w1, ops, program) is Some);
    let wa = apply_token_op(w1, ops[0], program)->Some_0;
    assert(ops.subrange(1, 1) =~= Seq::<TokenOp>::empty());
    assert(apply_token_ops(wa, ops.subrange(1, 1), program) == Some(wa));
    assert(w2 == wa);
    assert(Escrow::stored_is_initialized(posted_record_layout(accounts, buy_amount)));
}

/// Once a successful Cancel is committed: the whole custody balance — in the
/// custody account's own asset — is back in the poster's refund account, the
/// custody account and the escrow record are closed with their rent reclaimed
/// by the poster, and no other account of the custody system moves at all.
pub proof fn lemma_cancel_settlement(
    program: Seq<u8>,
    token_system: Seq<u8>,
    accounts: Seq<AccountView>,
    e: Effects,
    w: WorldView,
    w2: WorldView,
)
    requires
        cancel_fault(program, token_system, accounts) is None,
        cancel_effects_ok(program, accounts, e),
        apply_effects(w, e, program) == Some(w2),
        accounts[1].key@ != accounts[3].key@,
        accounts[2].key@ != accounts[1].key@,
    ensures
        w2.tokens.contains_key(accounts[3].key@),
        w2.tokens[accounts[3].key@].amount == w.tokens[accounts[3].key@].amount + token_contents(
            accounts[1].data@,
        )->Some_0.2,
        w2.tokens[accounts[3].key@].asset == w.tokens[accounts[1].key@].asset,
        !w2.tokens.contains_key(accounts[1].key@),
        w2.lamports[accounts[1].key@] == 0,
        w2.records[accounts[2].key@] == Seq::<u8>::empty(),
        w2.lamports[accounts[2].key@] == 0,
        w2.lamports[accounts[0].key@] == w.lamports[accounts[0].key@]
            + w.lamports[accounts[1].key@] + w.lamports[accounts[2].key@],
        forall|k: Seq<u8>|
            k != accounts[1].key@ && k != accounts[3].key@ ==> {
                &&& w2.tokens.contains_key(k) == w.tokens.contains_key(k)
                &&& (w.tokens.contains_key(k) ==> w2.tokens[k] == w.tokens[k])
            },
{
    let ops = e.token_ops@;
    assert(apply_token_ops(w, ops, program) is Some);
    let wa = apply_token_op(w, ops[0], program)->Some_0;
    assert(ops.subrange(1, 2)[0] == ops[1]);
    assert(apply_token_ops(wa, ops.subrange(1, 2), program) is Some);
    let wb = apply_token_op(wa, ops[1], program)->Some_0;
    assert(ops.subrange(1, 2).subrange(1, 1) =~= Seq::<TokenOp>::empty());
    assert(apply_token_ops(wb, ops.subrange(1, 2).subrange(1, 1), program) == Some(wb));
    assert(apply_token_ops(wa, ops.subrange(1, 2), program) == Some(wb));
}

/// Once a successful Take is committed: the poster's receive account gained
/// exactly the recorded ask, the taker's receive account gained exactly the
/// prior custody balance, the custody account and the escrow record are closed
/// with zero balance and zeroed bytes, and the poster's main account gained
/// both accounts' reclaimed rent. The four token accounts, and the record and
/// custody accounts, must of course be distinct accounts.
pub proof fn lemma_take_settlement(
    program: Seq<u8>,
    token_system: Seq<u8>,
    accounts: Seq<AccountView>,
    buy_amount: u64,
    sell_amount: u64,
    e: Effects,
    w: WorldView,
    w2: WorldView,
)
    requires
        take_fault(program, token_system, accounts, buy_amount, sell_amount) is None,
        take_effects_ok(program, accounts, e),
        apply_effects(w, e, program) == Some(w2),
        accounts[1].key@ != accounts[2].key@,
        accounts[1].key@ != accounts[3].key@,
        accounts[1].key@ != accounts[5].key@,
        accounts[2].key@ != accounts[3].key@,
        accounts[2].key@ != accounts[5].key@,
        accounts[3].key@ != accounts[5].key@,
        accounts[6].key@ != accounts[3].key@,
    ensures
        w2.tokens.contains_key(accounts[5].key@),
        w2.tokens[accounts[5].key@].amount == w.tokens[accounts[5].key@].amount
            + Escrow::stored_buy_amount(accounts[6].data@),
        w2.tokens.contains_key(accounts[2].key@),
        w2.tokens[accounts[2].key@].amount == w.tokens[accounts[2].key@].amount + token_contents(
            accounts[3].data@,
        )->Some_0.2,
        w2.tokens.contains_key(accounts[1].key@),
        w2.tokens[accounts[1].key@].amount == w.tokens[accounts[1].key@].amount
            - Escrow::stored_buy_amount(accounts[6].data@),
        !w2.tokens.contains_key(accounts[3].key@),
        w2.lamports[accounts[3].key@] == 0,
        w2.records[accounts[6].key@] == Seq::<u8>::empty(),
        w2.lamports[accounts[6].key@] == 0,
        w2.lamports[accounts[4].key@] == w.lamports[accounts[4].key@]
            + w.lamports[accounts[3].key@] + w.lamports[accounts[6].key@],
        forall|k: Seq<u8>|
            k != accounts[1].key@ && k != accounts[2].key@ && k != accounts[3].key@ && k
                != accounts[5].key@ ==> {
                &&& w2.tokens.contains_key(k) == w.tokens.contains_key(k)
                &&& (w.tokens.contains_key(k) ==> w2.tokens[k] == w.tokens[k])
            },
{
    let ops = e.token_ops@;
    assert(apply_token_ops(w, ops, program) is Some);
    let wa = apply_token_op(w, ops[0], program)->Some_0;
    let rest1 = ops.subrange(1, 3);
    assert(rest1[0] == ops[1]);
    assert(apply_token_ops(wa, rest1, program) is Some);
    let wb = apply_token_op(wa, ops[1], program)->Some_0;
    let rest2 = rest1.subrange(1, 2);
    assert(rest2 =~= ops.subrange(2, 3));
    assert(rest2[0] == ops[2]);
    assert(apply_token_ops(wb, rest2, program) is Some);
    let wc = apply_token_op(wb, ops[2], program)->Some_0;
    assert(rest2.subrange(1, 1) =~= Seq::<TokenOp>::empty());
    assert(apply_token_ops(wc, rest2.subrange(1, 1), program) == Some(wc));
    assert(apply_token_ops(wb, rest2, program) == Some(wc));
    assert(apply_token_ops(wa, rest1, program) == Some(wc));
}

} // verus!
