//! The ways a settlement can fail.

use vstd::prelude::*;

verus! {

/// Why a settlement was refused.  Every error ends the request; none is retried.
#[derive(Clone, Copy, Debug, PartialEq, Eq, Structural)]
pub enum BazaarError {
    /// Amounts, recipients and destination accounts differ in length.
    LengthMismatch,
    /// The order id has been settled before.
    OrderIdAlreadyUsed,
    /// A destination account is not the one derived for its recipient.
    InvalidTokenAccount,
    /// More recipients than one order may pay.
    TooManyRecipients,
    /// No recipient at all.
    NoRecipients,
    /// An amount of zero.
    ZeroAmount,
    /// The host could not carry out a transfer.
    AssetTransferFailed,
    /// The mint account's data does not have the layout of a mint.
    InvalidMintData,
    /// The mint account's data is a mint that was never initialized.
    UninitializedMint,
}

impl BazaarError {
    /// The text that explains this error.
    pub open spec fn spec_message(self) -> Seq<char> {
        match self {
            BazaarError::LengthMismatch => "Amounts, recipients and remaining accounts length mismatch"@,
            BazaarError::OrderIdAlreadyUsed => "Order ID already used"@,
            BazaarError::InvalidTokenAccount => "Invalid token account"@,
            BazaarError::TooManyRecipients => "Too many recipients"@,
            BazaarError::NoRecipients => "No recipients provided"@,
            BazaarError::ZeroAmount => "Amount cannot be zero"@,
            BazaarError::AssetTransferFailed => "Asset transfer failed"@,
            BazaarError::InvalidMintData => "Invalid mint account data"@,
            BazaarError::UninitializedMint => "Mint is not initialized"@,
        }
    }

    /// The text that explains this error.
    pub fn message(&self) -> (text: &'static str)
        ensures
            text@ == self.spec_message(),
    {
        match self {
            BazaarError::LengthMismatch => "Amounts, recipients and remaining accounts length mismatch",
            BazaarError::OrderIdAlreadyUsed => "Order ID already used",
            BazaarError::InvalidTokenAccount => "Invalid token account",
            BazaarError::TooManyRecipients => "Too many recipients",
            BazaarError::NoRecipients => "No recipients provided",
            BazaarError::ZeroAmount => "Amount cannot be zero",
            BazaarError::AssetTransferFailed => "Asset transfer failed",
            BazaarError::InvalidMintData => "Invalid mint account data",
            BazaarError::UninitializedMint => "Mint is not initialized",
        }
    }
}

} // verus!
