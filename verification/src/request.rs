//! The settlement request and its structural validation.

use vstd::prelude::*;
use crate::address::Address;
use crate::error::BazaarError;

verus! {

/// The most recipients one order may pay.
pub const MAX_RECIPIENTS: usize = 15;

/// What a caller asks for: pay `amounts[i]` to `recipients[i]`, into
/// `destination_accounts[i]`, under one order id.
#[derive(Debug)]
pub struct SettlementRequest {
    pub order_id: u64,
    pub amounts: Vec<u64>,
    pub recipients: Vec<Address>,
    pub destination_accounts: Vec<Address>,
}

/// A request as plain values.
#[verifier::ext_equal]
pub struct SettlementRequestView {
    pub order_id: u64,
    pub amounts: Seq<u64>,
    pub recipients: Seq<Address>,
    pub destination_accounts: Seq<Address>,
}

impl View for SettlementRequest {
    type V = SettlementRequestView;

    open spec fn view(&self) -> SettlementRequestView {
        SettlementRequestView {
            order_id: self.order_id,
            amounts: self.amounts@,
            recipients: self.recipients@,
            destination_accounts: self.destination_accounts@,
        }
    }
}

/// The structural checks, in the order in which they are made: the three
/// lists agree in length, there are at most [`MAX_RECIPIENTS`] recipients, and
/// there is at least one.
pub open spec fn validation(amounts: nat, recipients: nat, destination_accounts: nat) -> Result<
    (),
    BazaarError,
> {
    if amounts != recipients || recipients != destination_accounts {
        Err(BazaarError::LengthMismatch)
    } else if recipients > MAX_RECIPIENTS {
        Err(BazaarError::TooManyRecipients)
    } else if recipients == 0 {
        Err(BazaarError::NoRecipients)
    } else {
        Ok(())
    }
}

impl SettlementRequestView {
    /// The outcome of validating this request.
    pub open spec fn validation(self) -> Result<(), BazaarError> {
        validation(self.amounts.len(), self.recipients.len(), self.destination_accounts.len())
    }

    /// Whether the request passes validation.
    pub open spec fn well_formed(self) -> bool {
        &&& self.amounts.len() == self.recipients.len()
        &&& self.recipients.len() == self.destination_accounts.len()
        &&& 1 <= self.recipients.len() <= MAX_RECIPIENTS
    }
}

/// Validates the shape of a request.  Amounts are not looked at here: each is
/// checked when its transfer is due.
pub fn validate(request: &SettlementRequest) -> (outcome: Result<(), BazaarError>)
    ensures
        outcome == request@.validation(),
        outcome is Ok <==> request@.well_formed(),
{
    if request.amounts.len() != request.recipients.len() || request.recipients.len()
        != request.destination_accounts.len() {
        return Err(BazaarError::LengthMismatch);
    }
    if request.recipients.len() > MAX_RECIPIENTS {
        return Err(BazaarError::TooManyRecipients);
    }
    if request.recipients.len() == 0 {
        return Err(BazaarError::NoRecipients);
    }
    Ok(())
}

/// The bounds of validation: with lists of one common length, a request
/// passes exactly with 1 to [`MAX_RECIPIENTS`] recipients; without any it is
/// refused for want of recipients, and with more for having too many.
pub proof fn lemma_validation_bounds(recipients: nat)
    ensures
        1 <= recipients <= MAX_RECIPIENTS ==> validation(recipients, recipients, recipients) is Ok,
        recipients == 0 ==> validation(recipients, recipients, recipients) == Err::<
            (),
            BazaarError,
        >(BazaarError::NoRecipients),
        recipients > MAX_RECIPIENTS ==> validation(recipients, recipients, recipients) == Err::<
            (),
            BazaarError,
        >(BazaarError::TooManyRecipients),
        validation(MAX_RECIPIENTS as nat, MAX_RECIPIENTS as nat, MAX_RECIPIENTS as nat) is Ok,
        validation(
            (MAX_RECIPIENTS + 1) as nat,
            (MAX_RECIPIENTS + 1) as nat,
            (MAX_RECIPIENTS + 1) as nat,
        ) == Err::<(), BazaarError>(BazaarError::TooManyRecipients),
{
}

} // verus!
