use vstd::prelude::*;
use crate::identity::Identity;

verus! {

/// The seed bytes (`b"escrow"`) from which this program's custody authority
/// delegate is derived.
pub open spec fn spec_escrow_seed() -> Seq<u8> {
    seq![101u8, 115u8, 99u8, 114u8, 111u8, 119u8]
}

/// The seed from which this program's custody authority delegate is derived:
/// the bytes of `"escrow"`.
pub fn escrow_seed() -> (r: Vec<u8>)
    ensures
        r@ == spec_escrow_seed(),
{
    let mut seed: Vec<u8> = Vec::new();
    seed.push(101u8);
    seed.push(115u8);
    seed.push(99u8);
    seed.push(114u8);
    seed.push(111u8);
    seed.push(119u8);
    proof {
        assert(seed@ =~= spec_escrow_seed());
    }
    seed
}

/// The program-derived identity and bump proof that the hosting ledger
/// associates with a seed and a program identity. It is a pure function of
/// those two inputs: any observer computes the same pair, and `None` means no
/// derivation exists for the pair.
pub uninterp spec fn derived_authority(seed: Seq<u8>, program: Seq<u8>) -> Option<(Seq<u8>, u8)>;

/// Relies on `solana_program::pubkey::Pubkey::try_find_program_address`: the
/// derived identity and bump are a deterministic function of the seed and the
/// program identity alone, and the call returns `None` rather than panicking
/// when no viable derivation exists.
#[verifier::external_body]
fn try_derive(seed: &[u8], program_id: &Identity) -> (r: Option<(Identity, u8)>)
    ensures
        match r {
            Some(p) => derived_authority(seed@, program_id@) == Some((p.0@, p.1)),
            None => derived_authority(seed@, program_id@) is None,
        },
{
    let program_key = solana_program::pubkey::Pubkey::new_from_array(program_id.0);
    match solana_program::pubkey::Pubkey::try_find_program_address(&[seed], &program_key) {
        Some((key, bump)) => Some((Identity(key.to_bytes()), bump)),
        None => None,
    }
}

/// Derives the custody authority delegate for this program: the keyless
/// identity that controls custody accounts while a trade is open, together
/// with the derivation proof the ledger demands before it accepts that
/// identity as a signer of this program's own calls.
pub fn custody_authority(program_id: &Identity) -> (r: Option<(Identity, u8)>)
    ensures
        match r {
            Some(p) => derived_authority(spec_escrow_seed(), program_id@) == Some((p.0@, p.1)),
            None => derived_authority(spec_escrow_seed(), program_id@) is None,
        },
{
    let seed = escrow_seed();
    try_derive(seed.as_slice(), program_id)
}

/// Who may authorize a movement of custodied assets: a human key that signed
/// the request, or the derived delegate acting with its proof from within this
/// program.
#[derive(Clone, Debug, PartialEq)]
pub enum Authority {
    /// A party's own key; valid only when that party signed the request.
    HumanKey(Identity),
    /// The custody authority delegate: the seed it is derived from and the
    /// derivation proof that lets this program sign as the derived identity.
    Derived { seed: Vec<u8>, bump: u8 },
}

impl Authority {
    /// The identity this authority acts as, under the given program: a human
    /// key acts as itself; the delegate acts as the derived identity, but only
    /// when its proof matches the derivation.
    pub open spec fn acting_key(self, program: Seq<u8>) -> Option<Seq<u8>> {
        match self {
            Authority::HumanKey(k) => Some(k@),
            Authority::Derived { seed, bump } => match derived_authority(seed@, program) {
                Some(p) => {
                    if p.1 == bump {
                        Some(p.0)
                    } else {
                        None
                    }
                },
                None => None,
            },
        }
    }
}

} // verus!
