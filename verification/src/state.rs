use vstd::prelude::*;
use vstd::bytes::{
    lemma_auto_spec_u64_to_from_le_bytes, spec_u64_from_le_bytes, spec_u64_to_le_bytes,
    u64_from_le_bytes, u64_to_le_bytes,
};
use vstd::slice::slice_subrange;
use crate::error::Error;
use crate::identity::Identity;

verus! {

broadcast use vstd::array::group_array_axioms;

/// The length in bytes of a stored escrow record: a flag byte, three 32-byte
/// identities, and a little-endian 64-bit amount.
pub const RECORD_LEN: usize = 105;

/// One trade's persisted record: who posted it, where the offered asset sits,
/// where the counter-asset must go, and how much of it is asked.
#[derive(Clone, Copy, Debug, PartialEq)]
pub struct Escrow {
    /// Distinguishes an open trade from an empty or closed slot.
    pub is_initialized: bool,
    /// The party who created the trade: sole authority to cancel, receiver of
    /// the counter-asset and the reclaimed rent on a successful take.
    pub poster: Identity,
    /// The custody account holding the poster's offered asset.
    pub token_account: Identity,
    /// The poster's account that must receive the counter-asset.
    pub poster_buy_account: Identity,
    /// The quantity of the counter-asset required to unlock custody.
    pub buy_amount: u64,
}

impl Escrow {
    /// The canonical stored bytes of this record.
    pub open spec fn layout(self) -> Seq<u8> {
        seq![if self.is_initialized { 1u8 } else { 0u8 }] + self.poster@ + self.token_account@
            + self.poster_buy_account@ + spec_u64_to_le_bytes(self.buy_amount)
    }

    /// Whether a byte string is a canonical record layout.
    pub open spec fn parseable(data: Seq<u8>) -> bool {
        data.len() == 105 && (data[0] == 0u8 || data[0] == 1u8)
    }

    /// The initialization flag stored in a record layout.
    pub open spec fn stored_is_initialized(data: Seq<u8>) -> bool {
        data[0] == 1u8
    }

    /// The poster identity stored in a record layout.
    pub open spec fn stored_poster(data: Seq<u8>) -> Seq<u8> {
        data.subrange(1, 33)
    }

    /// The custody account identity stored in a record layout.
    pub open spec fn stored_token_account(data: Seq<u8>) -> Seq<u8> {
        data.subrange(33, 65)
    }

    /// The poster's receive account identity stored in a record layout.
    pub open spec fn stored_poster_buy_account(data: Seq<u8>) -> Seq<u8> {
        data.subrange(65, 97)
    }

    /// The asked counter-asset amount stored in a record layout.
    pub open spec fn stored_buy_amount(data: Seq<u8>) -> u64 {
        spec_u64_from_le_bytes(data.subrange(97, 105))
    }

    /// Whether a byte string is the canonical layout of record `e`.
    pub open spec fn parses_to(data: Seq<u8>, e: Escrow) -> bool {
        &&& Self::parseable(data)
        &&& e.is_initialized == Self::stored_is_initialized(data)
        &&& e.poster@ == Self::stored_poster(data)
        &&& e.token_account@ == Self::stored_token_account(data)
        &&& e.poster_buy_account@ == Self::stored_poster_buy_account(data)
        &&& e.buy_amount == Self::stored_buy_amount(data)
    }

    /// Writes this record in its canonical layout.
    pub fn store(&self) -> (r: Vec<u8>)
        ensures
            r@ == self.layout(),
            r@.len() == RECORD_LEN,
    {
        let mut out: Vec<u8> = Vec::new();
        out.push(if self.is_initialized { 1u8 } else { 0u8 });
        push_identity(&mut out, &self.poster);
        push_identity(&mut out, &self.token_account);
        push_identity(&mut out, &self.poster_buy_account);
        let mut amount = u64_to_le_bytes(self.buy_amount);
        out.append(&mut amount);
        proof {
            lemma_auto_spec_u64_to_from_le_bytes();
            assert(out@ =~= self.layout());
        }
        out
    }

    /// Parses stored bytes, failing with `InvalidEscrowAccount` on anything
    /// that is not a canonical record layout.
    pub fn load(data: &[u8]) -> (r: Result<Escrow, Error>)
        ensures
            match r {
                Ok(e) => Self::parses_to(data@, e),
                Err(err) => !Self::parseable(data@) && err == Error::InvalidEscrowAccount,
            },
    {
        if data.len() != RECORD_LEN {
            return Err(Error::InvalidEscrowAccount);
        }
        if data[0] != 0u8 && data[0] != 1u8 {
            return Err(Error::InvalidEscrowAccount);
        }
        let poster = read_identity(data, 1);
        let token_account = read_identity(data, 33);
        let poster_buy_account = read_identity(data, 65);
        let buy_amount = u64_from_le_bytes(slice_subrange(data, 97, 105));
        Ok(
            Escrow {
                is_initialized: data[0] == 1u8,
                poster,
                token_account,
                poster_buy_account,
                buy_amount,
            },
        )
    }
}

/// Appends the 32 bytes of an identity.
fn push_identity(out: &mut Vec<u8>, id: &Identity)
    ensures
        final(out)@ == old(out)@ + id@,
{
    let mut i: usize = 0;
    while i < 32
        invariant
            i <= 32,
            out@ == old(out)@ + id@.subrange(0, i as int),
        decreases 32 - i,
    {
        out.push(id.0[i]);
        proof {
            assert(old(out)@ + id@.subrange(0, i as int) + seq![id@[i as int]] =~= old(out)@
                + id@.subrange(0, i + 1));
        }
        i = i + 1;
    }
    proof {
        assert(old(out)@ + id@.subrange(0, 32) =~= old(out)@ + id@);
    }
}

/// Reads the 32 bytes of an identity starting at `start`.
fn read_identity(data: &[u8], start: usize) -> (r: Identity)
    requires
        start + 32 <= data@.len(),
    ensures
        r@ == data@.subrange(start as int, start + 32),
{
    let n = data.len();
    let mut bytes = [0u8; 32];
    let mut i: usize = 0;
    while i < 32
        invariant
            i <= 32,
            start + 32 <= n == data@.len(),
            forall|j: int| 0 <= j < i ==> bytes@[j] == data@[start + j],
        decreases 32 - i,
    {
        bytes[i] = data[start + i];
        i = i + 1;
    }
    proof {
        assert(bytes@ =~= data@.subrange(start as int, start + 32));
    }
    Identity(bytes)
}

/// A byte string is the layout of at most one record.
pub proof fn lemma_record_unique(data: Seq<u8>, a: Escrow, b: Escrow)
    requires
        Escrow::parses_to(data, a),
        Escrow::parses_to(data, b),
    ensures
        a == b,
{
    assert(a.poster.0 =~= b.poster.0);
    assert(a.token_account.0 =~= b.token_account.0);
    assert(a.poster_buy_account.0 =~= b.poster_buy_account.0);
}

/// Storing then parsing reproduces the record exactly.
pub proof fn lemma_record_round_trip(e: Escrow)
    ensures
        Escrow::parses_to(e.layout(), e),
{
    lemma_auto_spec_u64_to_from_le_bytes();
    let data = e.layout();
    assert(data.len() == 105);
    assert(e.poster@ =~= data.subrange(1, 33));
    assert(e.token_account@ =~= data.subrange(33, 65));
    assert(e.poster_buy_account@ =~= data.subrange(65, 97));
    assert(data.subrange(97, 105) =~= spec_u64_to_le_bytes(e.buy_amount));
}

/// The layout is canonical: any bytes that parse at all are exactly the
/// layout of the record they parse to.
pub proof fn lemma_record_canonical(data: Seq<u8>, e: Escrow)
    requires
        Escrow::parses_to(data, e),
    ensures
        e.layout() == data,
{
    lemma_auto_spec_u64_to_from_le_bytes();
    assert(e.layout() =~= data);
}

} // verus!
