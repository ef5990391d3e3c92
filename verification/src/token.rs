use vstd::prelude::*;
use crate::identity::Identity;

verus! {

/// What an account of the counter-asset custody system holds, as read from its
/// stored bytes: the asset it is denominated in, the identity that controls
/// it, and its balance. `None` means the bytes are not an initialized custody
/// account. It is a pure function of the bytes alone.
pub uninterp spec fn token_contents(data: Seq<u8>) -> Option<(Seq<u8>, Seq<u8>, u64)>;

/// Relies on `spl_token::state::Account::unpack`: the parsed mint, owner and
/// amount are a deterministic function of the account bytes alone, and the
/// call fails, rather than panicking, on bytes that are not an initialized
/// token account.
#[verifier::external_body]
pub(crate) fn unpack_token_account(data: &[u8]) -> (r: Option<(Identity, Identity, u64)>)
    ensures
        match r {
            Some(t) => token_contents(data@) == Some((t.0@, t.1@, t.2)),
            None => token_contents(data@) is None,
        },
{
    match <spl_token::state::Account as solana_program::program_pack::Pack>::unpack(data) {
        Ok(account) => Some(
            (Identity(account.mint.to_bytes()), Identity(account.owner.to_bytes()), account.amount),
        ),
        Err(_) => None,
    }
}

} // verus!
