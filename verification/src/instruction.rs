use vstd::prelude::*;
use vstd::bytes::{
    lemma_auto_spec_u64_to_from_le_bytes, spec_u64_from_le_bytes, spec_u64_to_le_bytes,
    u64_from_le_bytes, u64_to_le_bytes,
};
use vstd::slice::slice_subrange;
use crate::error::Error;

verus! {

/// A decoded request: one of the three state transitions.
///
/// On the wire each variant is a tag byte (0 = Post, 1 = Take, 2 = Cancel)
/// followed by its fixed-width little-endian fields, with no padding and no
/// trailing bytes.
#[derive(Clone, Copy, Debug, PartialEq, Eq, Structural)]
pub enum Instruction {
    /// Opens a trade: the poster asks `buy_amount` of the counter-asset in
    /// exchange for whatever the custody account holds.
    Post { buy_amount: u64 },
    /// Fulfils a trade: `buy_amount` is the custody balance the taker expects
    /// to receive, `sell_amount` the recorded ask they expect to pay.
    Take { buy_amount: u64, sell_amount: u64 },
    /// Reverts an open trade, returning custody to the poster.
    Cancel {},
}

impl Instruction {
    /// The canonical wire bytes of this instruction.
    pub open spec fn encoding(self) -> Seq<u8> {
        match self {
            Instruction::Post { buy_amount } => seq![0u8] + spec_u64_to_le_bytes(buy_amount),
            Instruction::Take { buy_amount, sell_amount } => seq![1u8]
                + spec_u64_to_le_bytes(buy_amount) + spec_u64_to_le_bytes(sell_amount),
            Instruction::Cancel {} => seq![2u8],
        }
    }

    /// The instruction a byte string decodes to, if it is a canonical encoding.
    pub open spec fn decoded(data: Seq<u8>) -> Option<Instruction> {
        if data.len() == 9 && data[0] == 0u8 {
            Some(Instruction::Post { buy_amount: spec_u64_from_le_bytes(data.subrange(1, 9)) })
        } else if data.len() == 17 && data[0] == 1u8 {
            Some(Instruction::Take {
                buy_amount: spec_u64_from_le_bytes(data.subrange(1, 9)),
                sell_amount: spec_u64_from_le_bytes(data.subrange(9, 17)),
            })
        } else if data.len() == 1 && data[0] == 2u8 {
            Some(Instruction::Cancel {})
        } else {
            None
        }
    }

    /// Encodes this instruction into its canonical wire bytes.
    pub fn encode(&self) -> (r: Vec<u8>)
        ensures
            r@ == self.encoding(),
    {
        proof {
            lemma_auto_spec_u64_to_from_le_bytes();
        }
        let mut out: Vec<u8> = Vec::new();
        match self {
            Instruction::Post { buy_amount } => {
                out.push(0u8);
                let mut amount = u64_to_le_bytes(*buy_amount);
                out.append(&mut amount);
            },
            Instruction::Take { buy_amount, sell_amount } => {
                out.push(1u8);
                let mut buy = u64_to_le_bytes(*buy_amount);
                out.append(&mut buy);
                let mut sell = u64_to_le_bytes(*sell_amount);
                out.append(&mut sell);
            },
            Instruction::Cancel {} => {
                out.push(2u8);
            },
        }
        proof {
            assert(out@ =~= self.encoding());
        }
        out
    }

    /// Decodes wire bytes, failing with `InvalidInstruction` on anything that
    /// is not the canonical encoding of some instruction.
    pub fn decode(data: &[u8]) -> (r: Result<Instruction, Error>)
        ensures
            match r {
                Ok(i) => Self::decoded(data@) == Some(i),
                Err(e) => Self::decoded(data@) is None && e == Error::InvalidInstruction,
            },
    {
        if data.len() == 9 && data[0] == 0u8 {
            let amount = u64_from_le_bytes(slice_subrange(data, 1, 9));
            Ok(Instruction::Post { buy_amount: amount })
        } else if data.len() == 17 && data[0] == 1u8 {
            let buy = u64_from_le_bytes(slice_subrange(data, 1, 9));
            let sell = u64_from_le_bytes(slice_subrange(data, 9, 17));
            Ok(Instruction::Take { buy_amount: buy, sell_amount: sell })
        } else if data.len() == 1 && data[0] == 2u8 {
            Ok(Instruction::Cancel {})
        } else {
            Err(Error::InvalidInstruction)
        }
    }
}

/// Encoding then decoding reproduces the instruction exactly.
pub proof fn lemma_instruction_round_trip(i: Instruction)
    ensures
        Instruction::decoded(i.encoding()) == Some(i),
{
    lemma_auto_spec_u64_to_from_le_bytes();
    match i {
        Instruction::Post { buy_amount } => {
            assert(i.encoding().subrange(1, 9) =~= spec_u64_to_le_bytes(buy_amount));
        },
        Instruction::Take { buy_amount, sell_amount } => {
            assert(i.encoding().subrange(1, 9) =~= spec_u64_to_le_bytes(buy_amount));
            assert(i.encoding().subrange(9, 17) =~= spec_u64_to_le_bytes(sell_amount));
        },
        Instruction::Cancel {} => {},
    }
}

/// The encoding is canonical: any bytes that decode at all are exactly the
/// encoding of what they decode to.
pub proof fn lemma_instruction_canonical(data: Seq<u8>, i: Instruction)
    requires
        Instruction::decoded(data) == Some(i),
    ensures
        i.encoding() == data,
{
    lemma_auto_spec_u64_to_from_le_bytes();
    if data.len() == 9 && data[0] == 0u8 {
        assert(i.encoding() =~= data);
    } else if data.len() == 17 && data[0] == 1u8 {
        assert(i.encoding() =~= data);
    } else {
        assert(i.encoding() =~= data);
    }
}

} // verus!
