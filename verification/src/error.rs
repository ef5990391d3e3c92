use vstd::prelude::*;

verus! {

/// The escrow program's own failure reasons.
#[derive(Clone, Copy, Debug, PartialEq, Eq, Structural)]
pub enum Error {
    /// The request bytes are malformed or carry an unknown tag.
    InvalidInstruction,
    /// The escrow record account is not funded to rent exemption.
    NotRentExempt,
    /// The escrow record bytes are missing, unparsable, or not an open trade.
    InvalidEscrowAccount,
    /// An amount field does not match a live balance or the recorded terms.
    ExpectedAmountMismatch,
    /// A rent-refund addition would overflow.
    AmountOverflow,
    /// Not enough balance to pay the posting fee.
    NotEnoughForFee,
    /// The supplied fee account is not the one fees are paid into.
    IncorrectFeeAccount,
    /// The supplied accounts do not match the information in the escrow record.
    DoesntMatchEscrow,
    /// An account expected to be held by the counter-asset custody system is not.
    AccountNotToken,
    /// The supplied derived-authority account does not match the expected derivation.
    IncorrectPDA,
}

impl Error {
    /// The stable numeric code a caller receives for this failure.
    pub fn code(&self) -> (r: u32)
        ensures
            r == self.code_spec(),
    {
        match self {
            Error::InvalidInstruction => 0,
            Error::NotRentExempt => 1,
            Error::InvalidEscrowAccount => 2,
            Error::ExpectedAmountMismatch => 3,
            Error::AmountOverflow => 4,
            Error::NotEnoughForFee => 5,
            Error::IncorrectFeeAccount => 6,
            Error::DoesntMatchEscrow => 7,
            Error::AccountNotToken => 8,
            Error::IncorrectPDA => 9,
        }
    }

    /// What `code` returns for each variant.
    pub open spec fn code_spec(&self) -> u32 {
        match self {
            Error::InvalidInstruction => 0,
            Error::NotRentExempt => 1,
            Error::InvalidEscrowAccount => 2,
            Error::ExpectedAmountMismatch => 3,
            Error::AmountOverflow => 4,
            Error::NotEnoughForFee => 5,
            Error::IncorrectFeeAccount => 6,
            Error::DoesntMatchEscrow => 7,
            Error::AccountNotToken => 8,
            Error::IncorrectPDA => 9,
        }
    }

    /// A short human-readable description of this failure.
    pub fn message(&self) -> (r: &'static str) {
        match self {
            Error::InvalidInstruction => "Invalid Instruction",
            Error::NotRentExempt => "Escrow account is not rent exempt",
            Error::InvalidEscrowAccount => "Escrow account data is missing or invalid",
            Error::ExpectedAmountMismatch => "Buyer and seller amounts do not match up",
            Error::AmountOverflow => "Lamport amount overflow",
            Error::NotEnoughForFee => "Not enough lamports to pay for fee",
            Error::IncorrectFeeAccount => "Not the right account to pay fee into",
            Error::DoesntMatchEscrow => "Accounts supplied do not match information in escrow account",
            Error::AccountNotToken => "Account is not a token account (not owned by token id)",
            Error::IncorrectPDA => "Incorrect PDA account",
        }
    }
}

/// Everything a transition handler can fail with: the program's own reasons
/// plus the host-level rejections that are not `Error` variants.
#[derive(Clone, Copy, Debug, PartialEq, Eq, Structural)]
pub enum Fault {
    /// The role that must sign the request did not sign it.
    MissingRequiredSignature,
    /// Fewer accounts were supplied than the instruction's role schema needs.
    NotEnoughAccountKeys,
    /// Post found the escrow record already holding an open trade.
    AccountAlreadyInitialized,
    /// One of the program's own failure reasons.
    Rejected(Error),
}

} // verus!
