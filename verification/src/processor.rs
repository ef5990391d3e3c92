use vstd::prelude::*;
use vstd::bytes::spec_u64_to_le_bytes;
use crate::accounts::{
    bind_cancel, bind_post, bind_take, cancel_bind_fault, post_bind_fault, take_bind_fault,
    AccountView,
};
use crate::authority::{
    custody_authority, derived_authority, escrow_seed, spec_escrow_seed, Authority,
};
use crate::effects::{Effects, RecordClose, RecordWrite, TokenOp};
use crate::error::{Error, Fault};
use crate::identity::Identity;
use crate::instruction::Instruction;
use crate::state::Escrow;
use crate::token::{token_contents, unpack_token_account};

verus! {

/// The first reason a Post request fails, if any: a binding fault, an
/// unparsable record, a record already holding an open trade, or a program
/// identity with no viable authority derivation.
pub open spec fn post_fault(
    program: Seq<u8>,
    token_system: Seq<u8>,
    accounts: Seq<AccountView>,
    record_rent_minimum: u64,
) -> Option<Fault> {
    match post_bind_fault(accounts, token_system, record_rent_minimum) {
        Some(f) => Some(f),
        None => {
            let record_data = accounts[3].data@;
            if !Escrow::parseable(record_data) {
                Some(Fault::Rejected(Error::InvalidEscrowAccount))
            } else if Escrow::stored_is_initialized(record_data) {
                Some(Fault::AccountAlreadyInitialized)
            } else if derived_authority(spec_escrow_seed(), program) is None {
                Some(Fault::Rejected(Error::IncorrectPDA))
            } else {
                None
            }
        },
    }
}

/// The record layout a successful Post writes: an open trade naming the
/// signer, the custody account, the signer's receive account, and the ask.
pub open spec fn posted_record_layout(accounts: Seq<AccountView>, buy_amount: u64) -> Seq<u8> {
    seq![1u8] + accounts[0].key@ + accounts[1].key@ + accounts[2].key@ + spec_u64_to_le_bytes(
        buy_amount,
    )
}

/// What a successful Post asks the host to commit: write the populated record,
/// and hand control of the custody account to the derived delegate, authorized
/// by the poster who signed.
pub open spec fn post_effects_ok(
    program: Seq<u8>,
    accounts: Seq<AccountView>,
    buy_amount: u64,
    e: Effects,
) -> bool {
    &&& match e.record_write {
        Some(w) => w.account@ == accounts[3].key@ && w.data@ == posted_record_layout(
            accounts,
            buy_amount,
        ),
        None => false,
    }
    &&& e.token_ops@.len() == 1
    &&& match e.token_ops@[0] {
        TokenOp::SetAuthority { account, new_authority, authority } => {
            &&& account@ == accounts[1].key@
            &&& new_authority@ == derived_authority(spec_escrow_seed(), program)->Some_0.0
            &&& authority matches Authority::HumanKey(k) && k@ == accounts[0].key@
        },
        _ => false,
    }
    &&& e.record_close is None
}

/// Handles Post: validates the roles, requires the record slot to be
/// uninitialized, and returns the effects that open the trade.
pub fn process_post(
    program_id: &Identity,
    token_system: &Identity,
    accounts: &Vec<AccountView>,
    buy_amount: u64,
    record_rent_minimum: u64,
) -> (r: Result<Effects, Fault>)
    ensures
        match r {
            Ok(e) => {
                &&& post_fault(program_id@, token_system@, accounts@, record_rent_minimum) is None
                &&& post_effects_ok(program_id@, accounts@, buy_amount, e)
            },
            Err(f) => post_fault(program_id@, token_system@, accounts@, record_rent_minimum)
                == Some(f),
        },
{
    let roles = match bind_post(accounts, token_system, record_rent_minimum) {
        Ok(roles) => roles,
        Err(f) => {
            return Err(f);
        },
    };
    let record = match Escrow::load(roles.escrow_account.data.as_slice()) {
        Ok(record) => record,
        Err(err) => {
            return Err(Fault::Rejected(err));
        },
    };
    if record.is_initialized {
        return Err(Fault::AccountAlreadyInitialized);
    }
    let pda = match custody_authority(program_id) {
        Some(p) => p.0,
        None => {
            return Err(Fault::Rejected(Error::IncorrectPDA));
        },
    };
    let new_record = Escrow {
        is_initialized: true,
        poster: roles.poster.key,
        token_account: roles.token_account.key,
        poster_buy_account: roles.buy_account.key,
        buy_amount,
    };
    let data = new_record.store();
    proof {
        assert(data@ =~= posted_record_layout(accounts@, buy_amount));
    }
    let mut token_ops: Vec<TokenOp> = Vec::new();
    token_ops.push(
        TokenOp::SetAuthority {
            account: roles.token_account.key,
            new_authority: pda,
            authority: Authority::HumanKey(roles.poster.key),
        },
    );
    Ok(
        Effects {
            record_write: Some(RecordWrite { account: roles.escrow_account.key, data }),
            token_ops,
            record_close: None,
        },
    )
}

/// The first reason a Take request fails, if any: a binding fault, a custody
/// account that does not parse, an `offer` that is not the live custody
/// balance, a missing or closed record, supplied accounts that do not match
/// the recorded trade, a claimed ask that is not the recorded ask, a wrong
/// custody-system or derived-authority identity, or a rent refund that would
/// overflow.
pub open spec fn take_fault(
    program: Seq<u8>,
    token_system: Seq<u8>,
    accounts: Seq<AccountView>,
    buy_amount: u64,
    sell_amount: u64,
) -> Option<Fault> {
    match take_bind_fault(accounts) {
        Some(f) => Some(f),
        None => match token_contents(accounts[3].data@) {
            None => Some(Fault::Rejected(Error::AccountNotToken)),
            Some(custody) => {
                let record_data = accounts[6].data@;
                if buy_amount != custody.2 {
                    Some(Fault::Rejected(Error::ExpectedAmountMismatch))
                } else if !Escrow::parseable(record_data) || !Escrow::stored_is_initialized(
                    record_data,
                ) {
                    Some(Fault::Rejected(Error::InvalidEscrowAccount))
                } else if Escrow::stored_token_account(record_data) != accounts[3].key@ {
                    Some(Fault::Rejected(Error::DoesntMatchEscrow))
                } else if Escrow::stored_poster(record_data) != accounts[4].key@ {
                    Some(Fault::Rejected(Error::DoesntMatchEscrow))
                } else if Escrow::stored_poster_buy_account(record_data) != accounts[5].key@ {
                    Some(Fault::Rejected(Error::DoesntMatchEscrow))
                } else if Escrow::stored_buy_amount(record_data) != sell_amount {
                    Some(Fault::Rejected(Error::ExpectedAmountMismatch))
                } else if accounts[7].key@ != token_system {
                    Some(Fault::Rejected(Error::AccountNotToken))
                } else if derived_authority(spec_escrow_seed(), program) is None {
                    Some(Fault::Rejected(Error::IncorrectPDA))
                } else if accounts[8].key@ != derived_authority(spec_escrow_seed(), program)
                    ->Some_0.0 {
                    Some(Fault::Rejected(Error::IncorrectPDA))
                } else if accounts[4].lamports + accounts[3].lamports > u64::MAX {
                    Some(Fault::Rejected(Error::AmountOverflow))
                } else if accounts[4].lamports + accounts[3].lamports + accounts[6].lamports
                    > u64::MAX {
                    Some(Fault::Rejected(Error::AmountOverflow))
                } else {
                    None
                }
            },
        },
    }
}

/// What a successful Take asks the host to commit, in order: the taker pays
/// the recorded ask to the poster's receive account under their own key; the
/// whole custody balance moves to the taker's receive account under the
/// derived delegate; the emptied custody account closes, refunding its rent to
/// the poster; and the record closes, refunding its rent to the poster.
pub open spec fn take_effects_ok(program: Seq<u8>, accounts: Seq<AccountView>, e: Effects) -> bool {
    let custody = token_contents(accounts[3].data@)->Some_0;
    let record_data = accounts[6].data@;
    let pda = derived_authority(spec_escrow_seed(), program)->Some_0;
    &&& e.record_write is None
    &&& e.token_ops@.len() == 3
    &&& match e.token_ops@[0] {
        TokenOp::Transfer { source, destination, authority, amount } => {
            &&& source@ == accounts[1].key@
            &&& destination@ == accounts[5].key@
            &&& authority matches Authority::HumanKey(k) && k@ == accounts[0].key@
            &&& amount == Escrow::stored_buy_amount(record_data)
        },
        _ => false,
    }
    &&& match e.token_ops@[1] {
        TokenOp::Transfer { source, destination, authority, amount } => {
            &&& source@ == accounts[3].key@
            &&& destination@ == accounts[2].key@
            &&& authority matches Authority::Derived { seed, bump } && seed@ == spec_escrow_seed()
                && bump == pda.1
            &&& amount == custody.2
        },
        _ => false,
    }
    &&& match e.token_ops@[2] {
        TokenOp::Close { account, refund_to, authority } => {
            &&& account@ == accounts[3].key@
            &&& refund_to@ == accounts[4].key@
            &&& authority matches Authority::Derived { seed, bump } && seed@ == spec_escrow_seed()
                && bump == pda.1
        },
        _ => false,
    }
    &&& match e.record_close {
        Some(rc) => rc.record@ == accounts[6].key@ && rc.refund_to@ == accounts[4].key@,
        None => false,
    }
}

/// Handles Take: validates the roles against the recorded trade and the live
/// custody balance, and returns the effects that settle both legs and close
/// the trade.
pub fn process_take(
    program_id: &Identity,
    token_system: &Identity,
    accounts: &Vec<AccountView>,
    buy_amount: u64,
    sell_amount: u64,
) -> (r: Result<Effects, Fault>)
    ensures
        match r {
            Ok(e) => {
                &&& take_fault(program_id@, token_system@, accounts@, buy_amount, sell_amount)
                    is None
                &&& take_effects_ok(program_id@, accounts@, e)
            },
            Err(f) => take_fault(program_id@, token_system@, accounts@, buy_amount, sell_amount)
                == Some(f),
        },
{
    let roles = match bind_take(accounts) {
        Ok(roles) => roles,
        Err(f) => {
            return Err(f);
        },
    };
    let custody_amount = match unpack_token_account(roles.token_account.data.as_slice()) {
        Some(t) => t.2,
        None => {
            return Err(Fault::Rejected(Error::AccountNotToken));
        },
    };
    if buy_amount != custody_amount {
        return Err(Fault::Rejected(Error::ExpectedAmountMismatch));
    }
    let record = match Escrow::load(roles.escrow_account.data.as_slice()) {
        Ok(record) => record,
        Err(err) => {
            return Err(Fault::Rejected(err));
        },
    };
    if !record.is_initialized {
        return Err(Fault::Rejected(Error::InvalidEscrowAccount));
    }
    if record.token_account != roles.token_account.key {
        return Err(Fault::Rejected(Error::DoesntMatchEscrow));
    }
    if record.poster != roles.poster.key {
        return Err(Fault::Rejected(Error::DoesntMatchEscrow));
    }
    if record.poster_buy_account != roles.poster_buy_account.key {
        return Err(Fault::Rejected(Error::DoesntMatchEscrow));
    }
    if record.buy_amount != sell_amount {
        return Err(Fault::Rejected(Error::ExpectedAmountMismatch));
    }
    if roles.token_program.key != *token_system {
        return Err(Fault::Rejected(Error::AccountNotToken));
    }
    let (pda, bump) = match custody_authority(program_id) {
        Some(p) => p,
        None => {
            return Err(Fault::Rejected(Error::IncorrectPDA));
        },
    };
    if roles.pda_account.key != pda {
        return Err(Fault::Rejected(Error::IncorrectPDA));
    }
    if roles.poster.lamports > u64::MAX - roles.token_account.lamports {
        return Err(Fault::Rejected(Error::AmountOverflow));
    }
    let refunded = roles.poster.lamports + roles.token_account.lamports;
    if refunded > u64::MAX - roles.escrow_account.lamports {
        return Err(Fault::Rejected(Error::AmountOverflow));
    }
    let mut token_ops: Vec<TokenOp> = Vec::new();
    token_ops.push(
        TokenOp::Transfer {
            source: roles.taker_sell_account.key,
            destination: roles.poster_buy_account.key,
            authority: Authority::HumanKey(roles.taker.key),
            amount: record.buy_amount,
        },
    );
    let mut tail = transfer_and_close(
        &roles.token_account.key,
        &roles.taker_buy_account.key,
        &roles.poster.key,
        bump,
        custody_amount,
    );
    token_ops.append(&mut tail);
    Ok(
        Effects {
            record_write: None,
            token_ops,
            record_close: Some(
                RecordClose { record: roles.escrow_account.key, refund_to: roles.poster.key },
            ),
        },
    )
}

/// The closing pair of custody-system calls that Take and Cancel share: move
/// `amount` out of the custody account to `destination` under the derived
/// delegate, then close the emptied custody account, refunding its whole rent
/// balance to `refund_to`.
fn transfer_and_close(
    source: &Identity,
    destination: &Identity,
    refund_to: &Identity,
    bump: u8,
    amount: u64,
) -> (r: Vec<TokenOp>)
    ensures
        r@.len() == 2,
        match r@[0] {
            TokenOp::Transfer { source: s, destination: d, authority, amount: a } => {
                &&& s@ == source@
                &&& d@ == destination@
                &&& authority matches Authority::Derived { seed, bump: b } && seed@
                    == spec_escrow_seed() && b == bump
                &&& a == amount
            },
            _ => false,
        },
        match r@[1] {
            TokenOp::Close { account, refund_to: rt, authority } => {
                &&& account@ == source@
                &&& rt@ == refund_to@
                &&& authority matches Authority::Derived { seed, bump: b } && seed@
                    == spec_escrow_seed() && b == bump
            },
            _ => false,
        },
{
    let mut ops: Vec<TokenOp> = Vec::new();
    ops.push(
        TokenOp::Transfer {
            source: *source,
            destination: *destination,
            authority: Authority::Derived { seed: escrow_seed(), bump },
            amount,
        },
    );
    ops.push(
        TokenOp::Close {
            account: *source,
            refund_to: *refund_to,
            authority: Authority::Derived { seed: escrow_seed(), bump },
        },
    );
    ops
}

/// The first reason a Cancel request fails, if any: a binding fault, a custody
/// account that does not parse, a missing or closed record, supplied accounts
/// that do not match the recorded trade — in particular a signer who is not
/// the recorded poster — a wrong custody-system or derived-authority identity,
/// or a rent refund that would overflow.
pub open spec fn cancel_fault(
    program: Seq<u8>,
    token_system: Seq<u8>,
    accounts: Seq<AccountView>,
) -> Option<Fault> {
    match cancel_bind_fault(accounts, token_system) {
        Some(f) => Some(f),
        None => match token_contents(accounts[1].data@) {
            None => Some(Fault::Rejected(Error::AccountNotToken)),
            Some(custody) => {
                let record_data = accounts[2].data@;
                if !Escrow::parseable(record_data) || !Escrow::stored_is_initialized(record_data) {
                    Some(Fault::Rejected(Error::InvalidEscrowAccount))
                } else if Escrow::stored_token_account(record_data) != accounts[1].key@ {
                    Some(Fault::Rejected(Error::DoesntMatchEscrow))
                } else if Escrow::stored_poster(record_data) != accounts[0].key@ {
                    Some(Fault::Rejected(Error::DoesntMatchEscrow))
                } else if accounts[4].key@ != token_system {
                    Some(Fault::Rejected(Error::AccountNotToken))
                } else if derived_authority(spec_escrow_seed(), program) is None {
                    Some(Fault::Rejected(Error::IncorrectPDA))
                } else if accounts[5].key@ != derived_authority(spec_escrow_seed(), program)
                    ->Some_0.0 {
                    Some(Fault::Rejected(Error::IncorrectPDA))
                } else if accounts[0].lamports + accounts[1].lamports > u64::MAX {
                    Some(Fault::Rejected(Error::AmountOverflow))
                } else if accounts[0].lamports + accounts[1].lamports + accounts[2].lamports
                    > u64::MAX {
                    Some(Fault::Rejected(Error::AmountOverflow))
                } else {
                    None
                }
            },
        },
    }
}

/// What a successful Cancel asks the host to commit, in order: the whole
/// custody balance returns to the poster's refund account under the derived
/// delegate; the emptied custody account closes, refunding its rent to the
/// poster; and the record closes, refunding its rent to the poster. No
/// counter-asset moves.
pub open spec fn cancel_effects_ok(
    program: Seq<u8>,
    accounts: Seq<AccountView>,
    e: Effects,
) -> bool {
    let custody = token_contents(accounts[1].data@)->Some_0;
    let pda = derived_authority(spec_escrow_seed(), program)->Some_0;
    &&& e.record_write is None
    &&& e.token_ops@.len() == 2
    &&& match e.token_ops@[0] {
        TokenOp::Transfer { source, destination, authority, amount } => {
            &&& source@ == accounts[1].key@
            &&& destination@ == accounts[3].key@
            &&& authority matches Authority::Derived { seed, bump } && seed@ == spec_escrow_seed()
                && bump == pda.1
            &&& amount == custody.2
        },
        _ => false,
    }
    &&& match e.token_ops@[1] {
        TokenOp::Close { account, refund_to, authority } => {
            &&& account@ == accounts[1].key@
            &&& refund_to@ == accounts[0].key@
            &&& authority matches Authority::Derived { seed, bump } && seed@ == spec_escrow_seed()
                && bump == pda.1
        },
        _ => false,
    }
    &&& match e.record_close {
        Some(rc) => rc.record@ == accounts[2].key@ && rc.refund_to@ == accounts[0].key@,
        None => false,
    }
}

/// Handles Cancel: validates that the signer is the recorded poster and the
/// supplied custody account is the recorded one, and returns the effects that
/// return custody and close the trade.
pub fn process_cancel(
    program_id: &Identity,
    token_system: &Identity,
    accounts: &Vec<AccountView>,
) -> (r: Result<Effects, Fault>)
    ensures
        match r {
            Ok(e) => {
                &&& cancel_fault(program_id@, token_system@, accounts@) is None
                &&& cancel_effects_ok(program_id@, accounts@, e)
            },
            Err(f) => cancel_fault(program_id@, token_system@, accounts@) == Some(f),
        },
{
    let roles = match bind_cancel(accounts, token_system) {
        Ok(roles) => roles,
        Err(f) => {
            return Err(f);
        },
    };
    let custody_amount = match unpack_token_account(roles.token_account.data.as_slice()) {
        Some(t) => t.2,
        None => {
            return Err(Fault::Rejected(Error::AccountNotToken));
        },
    };
    let record = match Escrow::load(roles.escrow_account.data.as_slice()) {
        Ok(record) => record,
        Err(err) => {
            return Err(Fault::Rejected(err));
        },
    };
    if !record.is_initialized {
        return Err(Fault::Rejected(Error::InvalidEscrowAccount));
    }
    if record.token_account != roles.token_account.key {
        return Err(Fault::Rejected(Error::DoesntMatchEscrow));
    }
    if record.poster != roles.poster.key {
        return Err(Fault::Rejected(Error::DoesntMatchEscrow));
    }
    if roles.token_program.key != *token_system {
        return Err(Fault::Rejected(Error::AccountNotToken));
    }
    let (pda, bump) = match custody_authority(program_id) {
        Some(p) => p,
        None => {
            return Err(Fault::Rejected(Error::IncorrectPDA));
        },
    };
    if roles.pda_account.key != pda {
        return Err(Fault::Rejected(Error::IncorrectPDA));
    }
    if roles.poster.lamports > u64::MAX - roles.token_account.lamports {
        return Err(Fault::Rejected(Error::AmountOverflow));
    }
    let refunded = roles.poster.lamports + roles.token_account.lamports;
    if refunded > u64::MAX - roles.escrow_account.lamports {
        return Err(Fault::Rejected(Error::AmountOverflow));
    }
    let token_ops = transfer_and_close(
        &roles.token_account.key,
        &roles.refund_account.key,
        &roles.poster.key,
        bump,
        custody_amount,
    );
    Ok(
        Effects {
            record_write: None,
            token_ops,
            record_close: Some(
                RecordClose { record: roles.escrow_account.key, refund_to: roles.poster.key },
            ),
        },
    )
}

/// The first reason a whole request fails, if any: malformed request bytes, or
/// the decoded transition's own first fault.
pub open spec fn process_fault(
    program: Seq<u8>,
    token_system: Seq<u8>,
    accounts: Seq<AccountView>,
    instruction_data: Seq<u8>,
    record_rent_minimum: u64,
) -> Option<Fault> {
    match Instruction::decoded(instruction_data) {
        None => Some(Fault::Rejected(Error::InvalidInstruction)),
        Some(Instruction::Post { buy_amount }) => post_fault(
            program,
            token_system,
            accounts,
            record_rent_minimum,
        ),
        Some(Instruction::Take { buy_amount, sell_amount }) => take_fault(
            program,
            token_system,
            accounts,
            buy_amount,
            sell_amount,
        ),
        Some(Instruction::Cancel {}) => cancel_fault(program, token_system, accounts),
    }
}

/// What a successful request asks the host to commit: the decoded transition's
/// effects.
pub open spec fn process_effects_ok(
    program: Seq<u8>,
    accounts: Seq<AccountView>,
    instruction_data: Seq<u8>,
    e: Effects,
) -> bool {
    match Instruction::decoded(instruction_data) {
        None => false,
        Some(Instruction::Post { buy_amount }) => post_effects_ok(program, accounts, buy_amount, e),
        Some(Instruction::Take { buy_amount, sell_amount }) => take_effects_ok(
            program,
            accounts,
            e,
        ),
        Some(Instruction::Cancel {}) => cancel_effects_ok(program, accounts, e),
    }
}

/// Decodes a request and dispatches it to its transition handler. Either the
/// complete effects of the decoded transition come back for the host to apply
/// atomically, or the first fault comes back and nothing is to be applied.
pub fn process(
    program_id: &Identity,
    token_system: &Identity,
    accounts: &Vec<AccountView>,
    instruction_data: &[u8],
    record_rent_minimum: u64,
) -> (r: Result<Effects, Fault>)
    ensures
        match r {
            Ok(e) => {
                &&& process_fault(
                    program_id@,
                    token_system@,
                    accounts@,
                    instruction_data@,
                    record_rent_minimum,
                ) is None
                &&& process_effects_ok(program_id@, accounts@, instruction_data@, e)
            },
            Err(f) => process_fault(
                program_id@,
                token_system@,
                accounts@,
                instruction_data@,
                record_rent_minimum,
            ) == Some(f),
        },
{
    let instruction = match Instruction::decode(instruction_data) {
        Ok(i) => i,
        Err(err) => {
            return Err(Fault::Rejected(err));
        },
    };
    match instruction {
        Instruction::Post { buy_amount } => process_post(
            program_id,
            token_system,
            accounts,
            buy_amount,
            record_rent_minimum,
        ),
        Instruction::Take { buy_amount, sell_amount } => process_take(
            program_id,
            token_system,
            accounts,
            buy_amount,
            sell_amount,
        ),
        Instruction::Cancel {} => process_cancel(program_id, token_system, accounts),
    }
}

} // verus!
