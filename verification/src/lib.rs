//! Settlement core of a multi-recipient payment protocol.
//!
//! One order pays a single asset from a payer to a bounded list of recipients.
//! The core validates the request, fingerprints it, asks the host to record the
//! order exactly once, and then walks the recipients in list order, deciding for
//! each whether the host may move the funds.  The host performs the moves and
//! reports back; it also makes the whole order one unit of work.

pub mod address;
pub mod commitment;
pub mod error;
pub mod ledger;
pub mod pda;
pub mod request;
pub mod run;
pub mod settlement;
pub mod token;

pub use address::{id, mint_address, Address, ID, MINT_ADDRESS};
pub use commitment::{compute_commitment, encode_commitment_preimage};
pub use error::BazaarError;
pub use ledger::{find_order_address, Order, OrderLedger, ORDER_SEED, ORDER_SPACE};
pub use request::{validate, SettlementRequest, MAX_RECIPIENTS};
pub use settlement::{
    check_transfer, initialize, process_payment, Action, Initialize, PaymentProcessedEvent, Phase,
    ProcessPayment, Reply, Settlement, TransferInstruction,
};
pub use token::{
    check_ata_address, find_associated_token_address, get_mint_details, verify_token_account, Mint,
    ASSOCIATED_TOKEN_PROGRAM_ID, MINT_LEN,
};
