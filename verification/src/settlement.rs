//! The settlement of one order, as a machine that the host drives.
//!
//! The core cannot move funds or allocate storage itself.  It decides: it
//! hands the host one [`Action`] at a time, the host carries it out and hands
//! back a [`Reply`], and the next action follows from that.  The order record
//! comes first, then one transfer for each recipient in list order, then the
//! event.  The first failure ends the settlement; the host then discards
//! whatever the order had done so far.

use vstd::prelude::*;
use crate::address::Address;
use crate::commitment::{commitment, compute_commitment};
use crate::error::BazaarError;
use crate::ledger::Order;
use crate::request::{SettlementRequest, SettlementRequestView, validate, validation};
use crate::token::{Mint, ata_check, check_ata_address, get_mint_details, mint_details};

verus! {

/// What bootstrapping reads of its accounts: the payer.
#[derive(Clone, Copy, Debug)]
pub struct Initialize {
    pub payer: Address,
}

/// Bootstraps the program.  There is nothing to set up, so this succeeds for
/// every payer.
pub fn initialize(_ctx: &Initialize) -> (done: Result<(), BazaarError>)
    ensures
        done == Ok::<(), BazaarError>(()),
{
    Ok(())
}

/// What the settlement reads of the accounts that come with a payment: the
/// token program's address, the data of the mint account, the addresses of the
/// destination accounts in recipient order, and the bump seed of the order
/// account.
#[derive(Debug)]
pub struct ProcessPayment {
    pub token_program: Address,
    pub mint_data: Vec<u8>,
    pub remaining_accounts: Vec<Address>,
    pub order_bump: u8,
}

/// The notice that an order was settled.
#[derive(Clone, Copy, Debug, PartialEq, Eq)]
pub struct PaymentProcessedEvent {
    pub order_id: u64,
    pub hash: [u8; 32],
}

/// One transfer for the host to make: `amount` units of the asset, counted
/// with `decimals` decimal places, from the payer's account to `destination`,
/// for the recipient at `index`.
#[derive(Clone, Copy, Debug, PartialEq, Eq)]
pub struct TransferInstruction {
    pub index: usize,
    pub destination: Address,
    pub amount: u64,
    pub decimals: u8,
}

/// What the host is asked to do next.
#[derive(Clone, Copy, Debug, PartialEq, Eq)]
pub enum Action {
    /// Create the record of the order, once; reply whether it was created.
    CreateOrder(Order),
    /// Make this transfer; reply whether it was made.
    Transfer(TransferInstruction),
    /// Every transfer was made: emit the event and keep what was done.
    Complete(PaymentProcessedEvent),
    /// The settlement failed: discard what was done and report the error.
    Abort(BazaarError),
}

/// What the host reports of the action it was asked for last.
#[derive(Clone, Copy, Debug, PartialEq, Eq, Structural)]
pub enum Reply {
    Succeeded,
    Failed,
}

impl Reply {
    /// The reply that stands for `outcome`.
    pub open spec fn spec_of<T, E>(outcome: Result<T, E>) -> Reply {
        if outcome is Ok {
            Reply::Succeeded
        } else {
            Reply::Failed
        }
    }

    /// The reply that reports how the host's own call ended.
    pub fn of<T, E>(outcome: &Result<T, E>) -> (reply: Reply)
        ensures
            reply == Reply::spec_of(*outcome),
    {
        match outcome {
            Ok(_) => Reply::Succeeded,
            Err(_) => Reply::Failed,
        }
    }
}

/// Where a settlement stands.
#[derive(Clone, Copy, Debug, PartialEq, Eq, Structural)]
pub enum Phase {
    /// The host was asked to create the order record.
    AwaitingOrder,
    /// The host was asked to make the transfer at the cursor.
    AwaitingTransfer,
    /// All transfers were made.
    Settled,
    /// The settlement failed with this error.
    Failed(BazaarError),
}

/// A settlement as plain values: what was asked, what was read of the
/// accounts, the order record, how many transfers the host has confirmed
/// (`cursor`), and the phase.
#[verifier::ext_equal]
pub struct SettlementView {
    pub request: SettlementRequestView,
    pub token_program: Address,
    pub mint: Result<Mint, BazaarError>,
    pub order: Order,
    pub cursor: nat,
    pub phase: Phase,
}

impl SettlementView {
    /// The number of recipients, and so of transfers.
    pub open spec fn transfers(self) -> nat {
        self.request.recipients.len()
    }

    /// The check that precedes the transfer at `index`: the amount is not
    /// zero, and the destination account is the recipient's own.
    pub open spec fn transfer_check(self, index: int) -> Result<(), BazaarError> {
        if self.request.amounts[index] == 0 {
            Err(BazaarError::ZeroAmount)
        } else {
            ata_check(
                self.request.recipients[index]@,
                self.request.destination_accounts[index]@,
                self.token_program@,
            )
        }
    }

    /// The transfer at `index`.
    pub open spec fn transfer(self, index: int) -> TransferInstruction {
        TransferInstruction {
            index: index as usize,
            destination: self.request.destination_accounts[index],
            amount: self.request.amounts[index],
            decimals: self.mint->Ok_0.decimals,
        }
    }

    /// The event of this order.
    pub open spec fn event(self) -> PaymentProcessedEvent {
        PaymentProcessedEvent { order_id: self.order.order_id, hash: self.order.hash }
    }

    /// This settlement, failed with `error`.
    pub open spec fn fail(self, error: BazaarError) -> (SettlementView, Action) {
        (SettlementView { phase: Phase::Failed(error), ..self }, Action::Abort(error))
    }

    /// What follows once `confirmed` transfers are made: the end, where that
    /// is all of them; else the check of the next transfer and, where it
    /// passes, that transfer.
    pub open spec fn proceed(self, confirmed: nat) -> (SettlementView, Action) {
        let next = SettlementView { cursor: confirmed, ..self };
        if confirmed >= self.transfers() {
            (SettlementView { phase: Phase::Settled, ..next }, Action::Complete(self.event()))
        } else {
            match self.transfer_check(confirmed as int) {
                Err(error) => next.fail(error),
                Ok(_) => (
                    SettlementView { phase: Phase::AwaitingTransfer, ..next },
                    Action::Transfer(self.transfer(confirmed as int)),
                ),
            }
        }
    }

    /// One step of the machine: the state and the action that follow `reply`.
    ///
    /// A refused order record means that the order id is used.  A created one
    /// lets the transfers begin, if the mint could be read.  A refused
    /// transfer ends the settlement; a confirmed one moves the cursor on.  A
    /// settlement that has ended repeats its last word.
    pub open spec fn step(self, reply: Reply) -> (SettlementView, Action) {
        match self.phase {
            Phase::AwaitingOrder => match reply {
                Reply::Failed => self.fail(BazaarError::OrderIdAlreadyUsed),
                Reply::Succeeded => match self.mint {
                    Err(error) => self.fail(error),
                    Ok(_) => self.proceed(0),
                },
            },
            Phase::AwaitingTransfer => match reply {
                Reply::Failed => self.fail(BazaarError::AssetTransferFailed),
                Reply::Succeeded => self.proceed(self.cursor + 1),
            },
            Phase::Settled => (self, Action::Complete(self.event())),
            Phase::Failed(error) => (self, Action::Abort(error)),
        }
    }

    /// What holds of every settlement: the request passed validation, and
    /// the cursor is within the transfers; while a transfer is awaited it is
    /// before their end, and the mint was read.
    pub open spec fn wf(self) -> bool {
        &&& self.request.well_formed()
        &&& self.cursor <= self.transfers()
        &&& self.phase == Phase::AwaitingTransfer ==> self.cursor < self.transfers()
            && self.mint is Ok
    }

    /// Whether nothing has been done yet but to ask for the order record.
    pub open spec fn begins(self) -> bool {
        &&& self.wf()
        &&& self.phase == Phase::AwaitingOrder
        &&& self.cursor == 0
    }

    /// Whether this is the state in which the settlement of `order_id`,
    /// `amounts` and `recipients` with the accounts `ctx` begins.
    pub open spec fn opens(
        self,
        ctx: ProcessPayment,
        order_id: u64,
        amounts: Seq<u64>,
        recipients: Seq<Address>,
    ) -> bool {
        &&& self.request == SettlementRequestView {
            order_id,
            amounts,
            recipients,
            destination_accounts: ctx.remaining_accounts@,
        }
        &&& self.token_program == ctx.token_program
        &&& self.mint == mint_details(ctx.mint_data@)
        &&& self.order.order_id == order_id
        &&& self.order.hash@ == commitment(order_id, amounts, recipients)
        &&& self.order.bump == ctx.order_bump
        &&& self.cursor == 0
        &&& self.phase == Phase::AwaitingOrder
    }
}

/// Checks the transfer of `amount` to `recipient` into `destination`: the
/// amount must not be zero, and the destination must be the recipient's token
/// account under `token_program`.
pub fn check_transfer(
    amount: u64,
    recipient: &Address,
    destination: &Address,
    token_program: &Address,
) -> (checked: Result<(), BazaarError>)
    ensures
        checked == if amount == 0 {
            Err(BazaarError::ZeroAmount)
        } else {
            ata_check(recipient@, destination@, token_program@)
        },
{
    if amount == 0 {
        return Err(BazaarError::ZeroAmount);
    }
    check_ata_address(recipient, destination, token_program)
}

/// The settlement of one order.
#[derive(Debug)]
pub struct Settlement {
    request: SettlementRequest,
    token_program: Address,
    mint: Result<Mint, BazaarError>,
    order: Order,
    cursor: usize,
    phase: Phase,
}

impl View for Settlement {
    type V = SettlementView;

    closed spec fn view(&self) -> SettlementView {
        SettlementView {
            request: self.request@,
            token_program: self.token_program,
            mint: self.mint,
            order: self.order,
            cursor: self.cursor as nat,
            phase: self.phase,
        }
    }
}

impl Settlement {
    #[verifier::type_invariant]
    spec fn inv(self) -> bool {
        self@.wf()
    }

    /// Where the settlement stands.
    pub fn phase(&self) -> (phase: Phase)
        ensures
            phase == self@.phase,
    {
        self.phase
    }

    /// How many transfers the host has confirmed.
    pub fn cursor(&self) -> (cursor: usize)
        ensures
            cursor == self@.cursor,
    {
        self.cursor
    }

    /// The record of the order.
    pub fn order(&self) -> (order: Order)
        ensures
            order == self@.order,
    {
        self.order
    }

    /// The request that is being settled.
    pub fn request(&self) -> (request: &SettlementRequest)
        ensures
            request@ == self@.request,
    {
        &self.request
    }

    /// Decides what follows once `confirmed` transfers are made.
    fn proceed(&mut self, confirmed: usize) -> (action: Action)
        requires
            confirmed <= old(self)@.transfers(),
            old(self)@.mint is Ok,
        ensures
            (final(self)@, action) == old(self)@.proceed(confirmed as nat),
    {
        proof {
            use_type_invariant(&*self);
        }
        if confirmed >= self.request.recipients.len() {
            self.phase = Phase::Settled;
            self.cursor = confirmed;
            Action::Complete(
                PaymentProcessedEvent { order_id: self.order.order_id, hash: self.order.hash },
            )
        } else {
            let checked = check_transfer(
                self.request.amounts[confirmed],
                &self.request.recipients[confirmed],
                &self.request.destination_accounts[confirmed],
                &self.token_program,
            );
            match checked {
                Err(error) => {
                    self.phase = Phase::Failed(error);
                    self.cursor = confirmed;
                    Action::Abort(error)
                },
                Ok(_) => {
                    let decimals: u8 = match self.mint {
                        Ok(mint) => mint.decimals,
                        Err(_) => unreached(),
                    };
                    let transfer = TransferInstruction {
                        index: confirmed,
                        destination: self.request.destination_accounts[confirmed],
                        amount: self.request.amounts[confirmed],
                        decimals,
                    };
                    self.cursor = confirmed;
                    self.phase = Phase::AwaitingTransfer;
                    Action::Transfer(transfer)
                },
            }
        }
    }

    /// Takes the host's reply to the last action and gives the next action.
    pub fn step(&mut self, reply: Reply) -> (action: Action)
        ensures
            (final(self)@, action) == old(self)@.step(reply),
            final(self)@.wf(),
    {
        proof {
            use_type_invariant(&*self);
        }
        let action = match self.phase {
            Phase::AwaitingOrder => match reply {
                Reply::Failed => {
                    self.phase = Phase::Failed(BazaarError::OrderIdAlreadyUsed);
                    Action::Abort(BazaarError::OrderIdAlreadyUsed)
                },
                Reply::Succeeded => match self.mint {
                    Err(error) => {
                        self.phase = Phase::Failed(error);
                        Action::Abort(error)
                    },
                    Ok(_) => self.proceed(0),
                },
            },
            Phase::AwaitingTransfer => match reply {
                Reply::Failed => {
                    self.phase = Phase::Failed(BazaarError::AssetTransferFailed);
                    Action::Abort(BazaarError::AssetTransferFailed)
                },
                Reply::Succeeded => {
                    let confirmed: usize = self.cursor + 1;
                    self.proceed(confirmed)
                },
            },
            Phase::Settled => Action::Complete(
                PaymentProcessedEvent { order_id: self.order.order_id, hash: self.order.hash },
            ),
            Phase::Failed(error) => Action::Abort(error),
        };
        proof {
            use_type_invariant(&*self);
        }
        action
    }
}

/// Begins the settlement of an order: validates the request, computes its
/// commitment, and asks the host for the order record.
///
/// A request that fails validation is refused with the error of the first
/// check that it fails, and nothing is asked of the host.
pub fn process_payment(
    ctx: ProcessPayment,
    order_id: u64,
    amounts: Vec<u64>,
    recipients: Vec<Address>,
) -> (started: Result<(Settlement, Action), BazaarError>)
    ensures
        match started {
            Ok((settlement, action)) => {
                &&& validation(amounts@.len(), recipients@.len(), ctx.remaining_accounts@.len())
                    is Ok
                &&& settlement@.opens(ctx, order_id, amounts@, recipients@)
                &&& settlement@.wf()
                &&& action == Action::CreateOrder(settlement@.order)
            },
            Err(error) => validation(
                amounts@.len(),
                recipients@.len(),
                ctx.remaining_accounts@.len(),
            ) == Err::<(), BazaarError>(error),
        },
{
    let ProcessPayment { token_program, mint_data, remaining_accounts, order_bump } = ctx;
    let request = SettlementRequest {
        order_id,
        amounts,
        recipients,
        destination_accounts: remaining_accounts,
    };
    match validate(&request) {
        Err(error) => Err(error),
        Ok(_) => {
            let hash = compute_commitment(
                order_id,
                request.amounts.as_slice(),
                request.recipients.as_slice(),
            );
            let order = Order { order_id, hash, bump: order_bump };
            let mint = get_mint_details(mint_data.as_slice());
            let settlement = Settlement {
                request,
                token_program,
                mint,
                order,
                cursor: 0,
                phase: Phase::AwaitingOrder,
            };
            Ok((settlement, Action::CreateOrder(order)))
        },
    }
}

} // verus!
