use vstd::prelude::*;
use crate::error::{Error, Fault};
use crate::identity::Identity;

verus! {

/// What a transition sees of one supplied account: its address, the program
/// that owns it on the ledger, whether it signed the request, its rent
/// balance, and its stored bytes.
#[derive(Clone, Debug)]
pub struct AccountView {
    /// The account's address.
    pub key: Identity,
    /// The program that owns the account on the hosting ledger.
    pub owner: Identity,
    /// Whether this account signed the request.
    pub is_signer: bool,
    /// The account's balance in the ledger's native rent unit.
    pub lamports: u64,
    /// The account's stored bytes.
    pub data: Vec<u8>,
}

/// The named roles of a Post request, in their schema order.
pub struct PostRoles<'a> {
    /// The signing party opening the trade.
    pub poster: &'a AccountView,
    /// The custody account holding the offered asset.
    pub token_account: &'a AccountView,
    /// The poster's account that must receive the counter-asset.
    pub buy_account: &'a AccountView,
    /// The escrow record account to populate.
    pub escrow_account: &'a AccountView,
    /// The counter-asset custody system's identity.
    pub token_program: &'a AccountView,
}

/// The named roles of a Take request, in their schema order.
pub struct TakeRoles<'a> {
    /// The signing party fulfilling the trade.
    pub taker: &'a AccountView,
    /// The taker's account funding the counter-asset leg.
    pub taker_sell_account: &'a AccountView,
    /// The taker's account that receives the custodied asset.
    pub taker_buy_account: &'a AccountView,
    /// The custody account recorded at Post time.
    pub token_account: &'a AccountView,
    /// The poster's main account: the rent-refund target.
    pub poster: &'a AccountView,
    /// The poster's account that receives the counter-asset.
    pub poster_buy_account: &'a AccountView,
    /// The escrow record account holding the trade.
    pub escrow_account: &'a AccountView,
    /// The counter-asset custody system's identity.
    pub token_program: &'a AccountView,
    /// The derived custody-authority account.
    pub pda_account: &'a AccountView,
}

/// The named roles of a Cancel request, in their schema order.
pub struct CancelRoles<'a> {
    /// The signing party, who must be the recorded poster.
    pub poster: &'a AccountView,
    /// The custody account recorded at Post time.
    pub token_account: &'a AccountView,
    /// The escrow record account holding the trade.
    pub escrow_account: &'a AccountView,
    /// The account the custodied asset is returned to.
    pub refund_account: &'a AccountView,
    /// The counter-asset custody system's identity.
    pub token_program: &'a AccountView,
    /// The derived custody-authority account.
    pub pda_account: &'a AccountView,
}

/// The first reason binding a Post request's accounts fails, if any: too few
/// accounts, a poster who did not sign, custody or receive accounts not held
/// by the counter-asset system, an under-funded record account, or a wrong
/// custody-system identity.
pub open spec fn post_bind_fault(
    accounts: Seq<AccountView>,
    token_system: Seq<u8>,
    record_rent_minimum: u64,
) -> Option<Fault> {
    if accounts.len() < 5 {
        Some(Fault::NotEnoughAccountKeys)
    } else if !accounts[0].is_signer {
        Some(Fault::MissingRequiredSignature)
    } else if accounts[1].owner@ != token_system {
        Some(Fault::Rejected(Error::AccountNotToken))
    } else if accounts[2].owner@ != token_system {
        Some(Fault::Rejected(Error::AccountNotToken))
    } else if accounts[3].lamports < record_rent_minimum {
        Some(Fault::Rejected(Error::NotRentExempt))
    } else if accounts[4].key@ != token_system {
        Some(Fault::Rejected(Error::AccountNotToken))
    } else {
        None
    }
}

/// The first reason binding a Take request's accounts fails, if any.
pub open spec fn take_bind_fault(accounts: Seq<AccountView>) -> Option<Fault> {
    if accounts.len() < 9 {
        Some(Fault::NotEnoughAccountKeys)
    } else if !accounts[0].is_signer {
        Some(Fault::MissingRequiredSignature)
    } else {
        None
    }
}

/// The first reason binding a Cancel request's accounts fails, if any.
pub open spec fn cancel_bind_fault(accounts: Seq<AccountView>, token_system: Seq<u8>) -> Option<
    Fault,
> {
    if accounts.len() < 6 {
        Some(Fault::NotEnoughAccountKeys)
    } else if !accounts[0].is_signer {
        Some(Fault::MissingRequiredSignature)
    } else if accounts[1].owner@ != token_system {
        Some(Fault::Rejected(Error::AccountNotToken))
    } else {
        None
    }
}

/// Binds the ordered accounts of a Post request to their named roles,
/// validating the signer, the custody-system ownership of the token accounts,
/// and the record account's rent exemption before anything is touched.
pub fn bind_post<'a>(
    accounts: &'a Vec<AccountView>,
    token_system: &Identity,
    record_rent_minimum: u64,
) -> (r: Result<PostRoles<'a>, Fault>)
    ensures
        match r {
            Ok(roles) => {
                &&& post_bind_fault(accounts@, token_system@, record_rent_minimum) is None
                &&& *roles.poster == accounts@[0]
                &&& *roles.token_account == accounts@[1]
                &&& *roles.buy_account == accounts@[2]
                &&& *roles.escrow_account == accounts@[3]
                &&& *roles.token_program == accounts@[4]
            },
            Err(f) => post_bind_fault(accounts@, token_system@, record_rent_minimum) == Some(f),
        },
{
    if accounts.len() < 5 {
        return Err(Fault::NotEnoughAccountKeys);
    }
    let poster = &accounts[0];
    if !poster.is_signer {
        return Err(Fault::MissingRequiredSignature);
    }
    let token_account = &accounts[1];
    if token_account.owner != *token_system {
        return Err(Fault::Rejected(Error::AccountNotToken));
    }
    let buy_account = &accounts[2];
    if buy_account.owner != *token_system {
        return Err(Fault::Rejected(Error::AccountNotToken));
    }
    let escrow_account = &accounts[3];
    if escrow_account.lamports < record_rent_minimum {
        return Err(Fault::Rejected(Error::NotRentExempt));
    }
    let token_program = &accounts[4];
    if token_program.key != *token_system {
        return Err(Fault::Rejected(Error::AccountNotToken));
    }
    Ok(PostRoles { poster, token_account, buy_account, escrow_account, token_program })
}

/// Binds the ordered accounts of a Take request to their named roles,
/// validating the taker's signature.
pub fn bind_take<'a>(accounts: &'a Vec<AccountView>) -> (r: Result<TakeRoles<'a>, Fault>)
    ensures
        match r {
            Ok(roles) => {
                &&& take_bind_fault(accounts@) is None
                &&& *roles.taker == accounts@[0]
                &&& *roles.taker_sell_account == accounts@[1]
                &&& *roles.taker_buy_account == accounts@[2]
                &&& *roles.token_account == accounts@[3]
                &&& *roles.poster == accounts@[4]
                &&& *roles.poster_buy_account == accounts@[5]
                &&& *roles.escrow_account == accounts@[6]
                &&& *roles.token_program == accounts@[7]
                &&& *roles.pda_account == accounts@[8]
            },
            Err(f) => take_bind_fault(accounts@) == Some(f),
        },
{
    if accounts.len() < 9 {
        return Err(Fault::NotEnoughAccountKeys);
    }
    let taker = &accounts[0];
    if !taker.is_signer {
        return Err(Fault::MissingRequiredSignature);
    }
    Ok(
        TakeRoles {
            taker,
            taker_sell_account: &accounts[1],
            taker_buy_account: &accounts[2],
            token_account: &accounts[3],
            poster: &accounts[4],
            poster_buy_account: &accounts[5],
            escrow_account: &accounts[6],
            token_program: &accounts[7],
            pda_account: &accounts[8],
        },
    )
}

/// Binds the ordered accounts of a Cancel request to their named roles,
/// validating the signer and the custody account's ownership.
pub fn bind_cancel<'a>(accounts: &'a Vec<AccountView>, token_system: &Identity) -> (r: Result<
    CancelRoles<'a>,
    Fault,
>)
    ensures
        match r {
            Ok(roles) => {
                &&& cancel_bind_fault(accounts@, token_system@) is None
                &&& *roles.poster == accounts@[0]
                &&& *roles.token_account == accounts@[1]
                &&& *roles.escrow_account == accounts@[2]
                &&& *roles.refund_account == accounts@[3]
                &&& *roles.token_program == accounts@[4]
                &&& *roles.pda_account == accounts@[5]
            },
            Err(f) => cancel_bind_fault(accounts@, token_system@) == Some(f),
        },
{
    if accounts.len() < 6 {
        return Err(Fault::NotEnoughAccountKeys);
    }
    let poster = &accounts[0];
    if !poster.is_signer {
        return Err(Fault::MissingRequiredSignature);
    }
    let token_account = &accounts[1];
    if token_account.owner != *token_system {
        return Err(Fault::Rejected(Error::AccountNotToken));
    }
    Ok(
        CancelRoles {
            poster,
            token_account,
            escrow_account: &accounts[2],
            refund_account: &accounts[3],
            token_program: &accounts[4],
            pda_account: &accounts[5],
        },
    )
}

} // verus!
