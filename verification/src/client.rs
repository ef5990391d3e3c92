use vstd::prelude::*;
use crate::identity::Identity;
use crate::instruction::Instruction;

verus! {

/// One position of a request's account list, as a client submits it: which
/// account, whether it must sign, and whether the transition may write it.
#[derive(Clone, Copy, Debug, PartialEq)]
pub struct AccountRole {
    /// The account standing in this position.
    pub key: Identity,
    /// Whether this position must sign the request.
    pub is_signer: bool,
    /// Whether the transition may write this account.
    pub is_writable: bool,
}

/// A fully assembled request: the program addressed, the ordered account
/// roles, and the encoded instruction bytes.
#[derive(Clone, Debug, PartialEq)]
pub struct Request {
    /// The escrow program the request addresses.
    pub program: Identity,
    /// The accounts, in the instruction's fixed role order.
    pub roles: Vec<AccountRole>,
    /// The canonical wire bytes of the instruction.
    pub data: Vec<u8>,
}

/// Whether a role list entry names `key` with the given flags.
pub open spec fn role_is(roles: Seq<AccountRole>, i: int, key: Seq<u8>, signer: bool, writable: bool) -> bool {
    &&& roles[i].key@ == key
    &&& roles[i].is_signer == signer
    &&& roles[i].is_writable == writable
}

/// Assembles a Post request: the poster signs; the custody account and the
/// escrow record are written; the receive account and the custody-system
/// identity are read.
pub fn post_trade_instruction(
    program: &Identity,
    poster: &Identity,
    token_account: &Identity,
    buy_account: &Identity,
    escrow_account: &Identity,
    token_system: &Identity,
    buy_amount: u64,
) -> (r: Request)
    ensures
        r.program@ == program@,
        r.data@ == (Instruction::Post { buy_amount }).encoding(),
        r.roles@.len() == 5,
        role_is(r.roles@, 0, poster@, true, false),
        role_is(r.roles@, 1, token_account@, false, true),
        role_is(r.roles@, 2, buy_account@, false, false),
        role_is(r.roles@, 3, escrow_account@, false, true),
        role_is(r.roles@, 4, token_system@, false, false),
{
    let mut roles: Vec<AccountRole> = Vec::new();
    roles.push(AccountRole { key: *poster, is_signer: true, is_writable: false });
    roles.push(AccountRole { key: *token_account, is_signer: false, is_writable: true });
    roles.push(AccountRole { key: *buy_account, is_signer: false, is_writable: false });
    roles.push(AccountRole { key: *escrow_account, is_signer: false, is_writable: true });
    roles.push(AccountRole { key: *token_system, is_signer: false, is_writable: false });
    Request { program: *program, roles, data: (Instruction::Post { buy_amount }).encode() }
}

/// Assembles a Take request: the taker signs; their funding and receive
/// accounts, the custody account, the poster's main and receive accounts, and
/// the escrow record are written; the custody-system identity and the derived
/// authority are read.
pub fn take_trade_instruction(
    program: &Identity,
    taker: &Identity,
    taker_sell_account: &Identity,
    taker_buy_account: &Identity,
    token_account: &Identity,
    poster: &Identity,
    poster_buy_account: &Identity,
    escrow_account: &Identity,
    token_system: &Identity,
    pda_account: &Identity,
    buy_amount: u64,
    sell_amount: u64,
) -> (r: Request)
    ensures
        r.program@ == program@,
        r.data@ == (Instruction::Take { buy_amount, sell_amount }).encoding(),
        r.roles@.len() == 9,
        role_is(r.roles@, 0, taker@, true, false),
        role_is(r.roles@, 1, taker_sell_account@, false, true),
        role_is(r.roles@, 2, taker_buy_account@, false, true),
        role_is(r.roles@, 3, token_account@, false, true),
        role_is(r.roles@, 4, poster@, false, true),
        role_is(r.roles@, 5, poster_buy_account@, false, true),
        role_is(r.roles@, 6, escrow_account@, false, true),
        role_is(r.roles@, 7, token_system@, false, false),
        role_is(r.roles@, 8, pda_account@, false, false),
{
    let mut roles: Vec<AccountRole> = Vec::new();
    roles.push(AccountRole { key: *taker, is_signer: true, is_writable: false });
    roles.push(AccountRole { key: *taker_sell_account, is_signer: false, is_writable: true });
    roles.push(AccountRole { key: *taker_buy_account, is_signer: false, is_writable: true });
    roles.push(AccountRole { key: *token_account, is_signer: false, is_writable: true });
    roles.push(AccountRole { key: *poster, is_signer: false, is_writable: true });
    roles.push(AccountRole { key: *poster_buy_account, is_signer: false, is_writable: true });
    roles.push(AccountRole { key: *escrow_account, is_signer: false, is_writable: true });
    roles.push(AccountRole { key: *token_system, is_signer: false, is_writable: false });
    roles.push(AccountRole { key: *pda_account, is_signer: false, is_writable: false });
    Request {
        program: *program,
        roles,
        data: (Instruction::Take { buy_amount, sell_amount }).encode(),
    }
}

/// Assembles a Cancel request: the poster signs; the custody account, the
/// escrow record and the refund destination are written; the custody-system
/// identity and the derived authority are read.
pub fn cancel_trade_instruction(
    program: &Identity,
    poster: &Identity,
    token_account: &Identity,
    escrow_account: &Identity,
    refund_account: &Identity,
    token_system: &Identity,
    pda_account: &Identity,
) -> (r: Request)
    ensures
        r.program@ == program@,
        r.data@ == (Instruction::Cancel {}).encoding(),
        r.roles@.len() == 6,
        role_is(r.roles@, 0, poster@, true, false),
        role_is(r.roles@, 1, token_account@, false, true),
        role_is(r.roles@, 2, escrow_account@, false, true),
        role_is(r.roles@, 3, refund_account@, false, true),
        role_is(r.roles@, 4, token_system@, false, false),
        role_is(r.roles@, 5, pda_account@, false, false),
{
    let mut roles: Vec<AccountRole> = Vec::new();
    roles.push(AccountRole { key: *poster, is_signer: true, is_writable: false });
    roles.push(AccountRole { key: *token_account, is_signer: false, is_writable: true });
    roles.push(AccountRole { key: *escrow_account, is_signer: false, is_writable: true });
    roles.push(AccountRole { key: *refund_account, is_signer: false, is_writable: true });
    roles.push(AccountRole { key: *token_system, is_signer: false, is_writable: false });
    roles.push(AccountRole { key: *pda_account, is_signer: false, is_writable: false });
    Request { program: *program, roles, data: (Instruction::Cancel {}).encode() }
}

} // verus!
