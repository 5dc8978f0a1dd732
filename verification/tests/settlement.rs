use bazaar_settlement::{
    check_transfer, compute_commitment, find_associated_token_address, initialize, mint_address,
    process_payment, Action, Address, BazaarError, Initialize, Order, OrderLedger,
    PaymentProcessedEvent, Phase, ProcessPayment, Reply, TransferInstruction,
};

fn token_program() -> Address {
    Address::new(anchor_spl::token_2022::ID.to_bytes())
}

fn recipient(n: u8) -> Address {
    Address::new([n; 32])
}

fn account_of(wallet: &Address) -> Address {
    find_associated_token_address(wallet, &mint_address(), &token_program()).unwrap()
}

fn mint_data(decimals: u8) -> Vec<u8> {
    let mut data = vec![0u8; 82];
    data[44] = decimals;
    data[45] = 1;
    data
}

fn accounts(destinations: Vec<Address>) -> ProcessPayment {
    ProcessPayment {
        token_program: token_program(),
        mint_data: mint_data(6),
        remaining_accounts: destinations,
        order_bump: 250,
    }
}

/// A host that keeps its orders in a ledger and makes every order one unit
/// of work: what an order did is kept only when the order completes.
struct Host {
    ledger: OrderLedger,
    transfers: Vec<TransferInstruction>,
    events: Vec<PaymentProcessedEvent>,
    refuse_transfer: Option<usize>,
    asked: Vec<Action>,
}

impl Host {
    fn new() -> Host {
        Host {
            ledger: OrderLedger::new(),
            transfers: Vec::new(),
            events: Vec::new(),
            refuse_transfer: None,
            asked: Vec::new(),
        }
    }

    fn settle(
        &mut self,
        ctx: ProcessPayment,
        order_id: u64,
        amounts: Vec<u64>,
        recipients: Vec<Address>,
    ) -> Result<(), BazaarError> {
        self.asked.clear();
        let (mut settlement, mut action) = process_payment(ctx, order_id, amounts, recipients)?;
        let mut order: Option<Order> = None;
        let mut transfers: Vec<TransferInstruction> = Vec::new();
        loop {
            self.asked.push(action);
            match action {
                Action::CreateOrder(record) => {
                    let free = self.ledger.find(record.order_id).is_none();
                    if free {
                        order = Some(record);
                    }
                    action = settlement.step(if free { Reply::Succeeded } else { Reply::Failed });
                }
                Action::Transfer(transfer) => {
                    if self.refuse_transfer == Some(transfer.index) {
                        action = settlement.step(Reply::Failed);
                    } else {
                        transfers.push(transfer);
                        action = settlement.step(Reply::Succeeded);
                    }
                }
                Action::Complete(event) => {
                    let record = order.unwrap();
                    self.ledger
                        .create_order(record.order_id, record.hash, record.bump)
                        .unwrap();
                    self.transfers.extend(transfers);
                    self.events.push(event);
                    assert_eq!(settlement.phase(), Phase::Settled);
                    return Ok(());
                }
                Action::Abort(error) => {
                    assert_eq!(settlement.phase(), Phase::Failed(error));
                    return Err(error);
                }
            }
        }
    }
}

#[test]
fn initialize_succeeds() {
    assert_eq!(initialize(&Initialize { payer: recipient(1) }), Ok(()));
    assert_eq!(initialize(&Initialize { payer: recipient(0) }), Ok(()));
}

#[test]
fn single_payment_settles() {
    let mut host = Host::new();
    let r1 = recipient(1);
    let destination = account_of(&r1);
    let outcome = host.settle(accounts(vec![destination]), 1, vec![100], vec![r1]);
    assert_eq!(outcome, Ok(()));
    let hash = compute_commitment(1, &[100], &[r1]);
    assert_eq!(
        hash,
        [
            194, 28, 163, 151, 217, 236, 1, 228, 162, 64, 84, 218, 91, 8, 29, 221, 20, 59, 33, 12,
            88, 24, 28, 113, 177, 95, 214, 97, 215, 227, 163, 17
        ]
    );
    assert_eq!(
        host.transfers,
        vec![TransferInstruction { index: 0, destination, amount: 100, decimals: 6 }]
    );
    assert_eq!(host.ledger.len(), 1);
    assert_eq!(
        host.ledger.get(0),
        Some(Order { order_id: 1, hash, bump: 250 })
    );
    assert_eq!(host.events, vec![PaymentProcessedEvent { order_id: 1, hash }]);
    assert_eq!(
        host.asked,
        vec![
            Action::CreateOrder(Order { order_id: 1, hash, bump: 250 }),
            Action::Transfer(TransferInstruction {
                index: 0,
                destination,
                amount: 100,
                decimals: 6
            }),
            Action::Complete(PaymentProcessedEvent { order_id: 1, hash }),
        ]
    );
}

#[test]
fn mismatched_destination_is_refused() {
    let mut host = Host::new();
    let (r1, r2, r3) = (recipient(1), recipient(2), recipient(3));
    let outcome = host.settle(
        accounts(vec![account_of(&r1), account_of(&r3)]),
        2,
        vec![50, 50],
        vec![r1, r2],
    );
    assert_eq!(outcome, Err(BazaarError::InvalidTokenAccount));
    assert_eq!(host.transfers, vec![]);
    assert_eq!(host.ledger.len(), 0);
    assert_eq!(host.events, vec![]);
}

#[test]
fn zero_amount_in_second_place_is_refused() {
    let mut host = Host::new();
    let (r1, r2) = (recipient(1), recipient(2));
    let outcome = host.settle(
        accounts(vec![account_of(&r1), account_of(&r2)]),
        3,
        vec![10, 0],
        vec![r1, r2],
    );
    assert_eq!(outcome, Err(BazaarError::ZeroAmount));
    assert_eq!(host.transfers, vec![]);
    assert_eq!(host.ledger.len(), 0);
    assert_eq!(host.events, vec![]);
}

#[test]
fn order_id_settles_once() {
    let mut host = Host::new();
    let r1 = recipient(1);
    let first = host.settle(accounts(vec![account_of(&r1)]), 4, vec![100], vec![r1]);
    assert_eq!(first, Ok(()));
    let again = host.settle(accounts(vec![account_of(&r1)]), 4, vec![100], vec![r1]);
    assert_eq!(again, Err(BazaarError::OrderIdAlreadyUsed));
    assert_eq!(host.transfers.len(), 1);
    assert_eq!(host.ledger.len(), 1);
    assert_eq!(host.events.len(), 1);
}

#[test]
fn second_settlement_with_another_payload_is_refused() {
    let mut host = Host::new();
    let (r1, r2, r3) = (recipient(1), recipient(2), recipient(3));
    assert_eq!(
        host.settle(accounts(vec![account_of(&r1)]), 4, vec![100], vec![r1]),
        Ok(())
    );
    let again = host.settle(
        accounts(vec![account_of(&r2), account_of(&r3)]),
        4,
        vec![7, 8],
        vec![r2, r3],
    );
    assert_eq!(again, Err(BazaarError::OrderIdAlreadyUsed));
    assert_eq!(
        host.asked,
        vec![
            Action::CreateOrder(Order {
                order_id: 4,
                hash: compute_commitment(4, &[7, 8], &[r2, r3]),
                bump: 250
            }),
            Action::Abort(BazaarError::OrderIdAlreadyUsed),
        ]
    );
    assert_eq!(host.transfers.len(), 1);
    assert_eq!(host.transfers[0].amount, 100);
    assert_eq!(
        host.ledger.get(0),
        Some(Order { order_id: 4, hash: compute_commitment(4, &[100], &[r1]), bump: 250 })
    );
}

#[test]
fn other_order_ids_settle_independently() {
    let mut host = Host::new();
    let r1 = recipient(1);
    for order_id in [4u64, 5, 6] {
        assert_eq!(
            host.settle(accounts(vec![account_of(&r1)]), order_id, vec![1], vec![r1]),
            Ok(())
        );
    }
    assert_eq!(host.ledger.len(), 3);
    assert_eq!(host.transfers.len(), 3);
}

#[test]
fn validation_comes_before_the_order_record() {
    let mut host = Host::new();
    let r1 = recipient(1);
    assert_eq!(
        host.settle(accounts(vec![account_of(&r1)]), 4, vec![100], vec![r1]),
        Ok(())
    );
    let again = host.settle(accounts(vec![]), 4, vec![100], vec![r1]);
    assert_eq!(again, Err(BazaarError::LengthMismatch));
    assert_eq!(host.asked, vec![]);
}

#[test]
fn invalid_request_asks_nothing_of_the_host() {
    let r1 = recipient(1);
    let started = process_payment(accounts(vec![]), 1, vec![], vec![]);
    assert_eq!(started.err(), Some(BazaarError::NoRecipients));
    let started = process_payment(accounts(vec![r1]), 1, vec![1, 2], vec![r1]);
    assert_eq!(started.err(), Some(BazaarError::LengthMismatch));
    let started = process_payment(accounts(vec![r1; 16]), 1, vec![1; 16], vec![r1; 16]);
    assert_eq!(started.err(), Some(BazaarError::TooManyRecipients));
}

#[test]
fn fifteen_recipients_settle() {
    let mut host = Host::new();
    let recipients: Vec<Address> = (1..=15u8).map(recipient).collect();
    let destinations: Vec<Address> = recipients.iter().map(account_of).collect();
    let amounts: Vec<u64> = (1..=15u64).map(|n| n * 10).collect();
    let outcome = host.settle(
        accounts(destinations.clone()),
        8,
        amounts.clone(),
        recipients.clone(),
    );
    assert_eq!(outcome, Ok(()));
    assert_eq!(host.transfers.len(), 15);
    for (i, transfer) in host.transfers.iter().enumerate() {
        assert_eq!(
            *transfer,
            TransferInstruction {
                index: i,
                destination: destinations[i],
                amount: amounts[i],
                decimals: 6
            }
        );
    }
    assert_eq!(host.asked.len(), 17);
}

#[test]
fn sixteen_recipients_are_too_many() {
    let mut host = Host::new();
    let recipients: Vec<Address> = (1..=16u8).map(recipient).collect();
    let destinations: Vec<Address> = recipients.iter().map(account_of).collect();
    let outcome = host.settle(accounts(destinations), 8, vec![1; 16], recipients);
    assert_eq!(outcome, Err(BazaarError::TooManyRecipients));
    assert_eq!(host.ledger.len(), 0);
}

#[test]
fn begins_by_asking_for_the_order_record() {
    let r1 = recipient(1);
    let (settlement, action) =
        process_payment(accounts(vec![account_of(&r1)]), 11, vec![5], vec![r1]).unwrap();
    let order = Order { order_id: 11, hash: compute_commitment(11, &[5], &[r1]), bump: 250 };
    assert_eq!(action, Action::CreateOrder(order));
    assert_eq!(settlement.phase(), Phase::AwaitingOrder);
    assert_eq!(settlement.cursor(), 0);
    assert_eq!(settlement.order(), order);
    assert_eq!(settlement.request().order_id, 11);
    assert_eq!(settlement.request().amounts, vec![5]);
    assert_eq!(settlement.request().recipients, vec![r1]);
    assert_eq!(settlement.request().destination_accounts, vec![account_of(&r1)]);
}

#[test]
fn zero_amount_is_found_when_its_transfer_is_due() {
    let (r1, r2) = (recipient(1), recipient(2));
    let (mut settlement, _) = process_payment(
        accounts(vec![account_of(&r1), account_of(&r2)]),
        3,
        vec![10, 0],
        vec![r1, r2],
    )
    .unwrap();
    let first = settlement.step(Reply::Succeeded);
    assert_eq!(
        first,
        Action::Transfer(TransferInstruction {
            index: 0,
            destination: account_of(&r1),
            amount: 10,
            decimals: 6
        })
    );
    assert_eq!(settlement.phase(), Phase::AwaitingTransfer);
    assert_eq!(settlement.cursor(), 0);
    assert_eq!(settlement.step(Reply::Succeeded), Action::Abort(BazaarError::ZeroAmount));
    assert_eq!(settlement.phase(), Phase::Failed(BazaarError::ZeroAmount));
    assert_eq!(settlement.cursor(), 1);
}

#[test]
fn zero_amount_comes_before_the_account_check() {
    let (r1, r2) = (recipient(1), recipient(2));
    let (mut settlement, _) =
        process_payment(accounts(vec![account_of(&r2)]), 3, vec![0], vec![r1]).unwrap();
    assert_eq!(settlement.step(Reply::Succeeded), Action::Abort(BazaarError::ZeroAmount));
}

#[test]
fn refused_transfer_ends_the_settlement() {
    let mut host = Host::new();
    host.refuse_transfer = Some(1);
    let (r1, r2, r3) = (recipient(1), recipient(2), recipient(3));
    let outcome = host.settle(
        accounts(vec![account_of(&r1), account_of(&r2), account_of(&r3)]),
        5,
        vec![1, 2, 3],
        vec![r1, r2, r3],
    );
    assert_eq!(outcome, Err(BazaarError::AssetTransferFailed));
    assert_eq!(host.asked.len(), 4);
    assert_eq!(host.asked[3], Action::Abort(BazaarError::AssetTransferFailed));
    assert_eq!(host.transfers, vec![]);
    assert_eq!(host.ledger.len(), 0);
    assert_eq!(host.events, vec![]);
}

#[test]
fn refused_transfer_comes_before_a_later_zero_amount() {
    let mut host = Host::new();
    host.refuse_transfer = Some(0);
    let (r1, r2) = (recipient(1), recipient(2));
    let outcome = host.settle(
        accounts(vec![account_of(&r1), account_of(&r2)]),
        5,
        vec![1, 0],
        vec![r1, r2],
    );
    assert_eq!(outcome, Err(BazaarError::AssetTransferFailed));
}

#[test]
fn unreadable_mint_ends_the_settlement_after_the_order_record() {
    let r1 = recipient(1);
    let mut ctx = accounts(vec![account_of(&r1)]);
    ctx.mint_data = vec![0; 10];
    let (mut settlement, action) = process_payment(ctx, 6, vec![1], vec![r1]).unwrap();
    assert!(matches!(action, Action::CreateOrder(_)));
    assert_eq!(
        settlement.step(Reply::Succeeded),
        Action::Abort(BazaarError::InvalidMintData)
    );
    assert_eq!(settlement.phase(), Phase::Failed(BazaarError::InvalidMintData));
}

#[test]
fn uninitialized_mint_ends_the_settlement() {
    let mut host = Host::new();
    let r1 = recipient(1);
    let mut ctx = accounts(vec![account_of(&r1)]);
    ctx.mint_data = vec![0; 82];
    assert_eq!(
        host.settle(ctx, 6, vec![1], vec![r1]),
        Err(BazaarError::UninitializedMint)
    );
    assert_eq!(host.ledger.len(), 0);
}

#[test]
fn used_order_id_comes_before_the_mint() {
    let r1 = recipient(1);
    let mut ctx = accounts(vec![account_of(&r1)]);
    ctx.mint_data = vec![0; 10];
    let (mut settlement, _) = process_payment(ctx, 6, vec![1], vec![r1]).unwrap();
    assert_eq!(
        settlement.step(Reply::Failed),
        Action::Abort(BazaarError::OrderIdAlreadyUsed)
    );
}

#[test]
fn transfers_carry_the_decimals_of_the_mint() {
    let r1 = recipient(1);
    let mut ctx = accounts(vec![account_of(&r1)]);
    ctx.mint_data = mint_data(9);
    let (mut settlement, _) = process_payment(ctx, 6, vec![1], vec![r1]).unwrap();
    assert_eq!(
        settlement.step(Reply::Succeeded),
        Action::Transfer(TransferInstruction {
            index: 0,
            destination: account_of(&r1),
            amount: 1,
            decimals: 9
        })
    );
}

#[test]
fn ended_settlement_repeats_its_last_word() {
    let r1 = recipient(1);
    let (mut settlement, _) =
        process_payment(accounts(vec![account_of(&r1)]), 6, vec![1], vec![r1]).unwrap();
    settlement.step(Reply::Succeeded);
    let done = settlement.step(Reply::Succeeded);
    let event =
        PaymentProcessedEvent { order_id: 6, hash: compute_commitment(6, &[1], &[r1]) };
    assert_eq!(done, Action::Complete(event));
    assert_eq!(settlement.cursor(), 1);
    for reply in [Reply::Succeeded, Reply::Failed, Reply::Succeeded] {
        assert_eq!(settlement.step(reply), Action::Complete(event));
        assert_eq!(settlement.phase(), Phase::Settled);
        assert_eq!(settlement.cursor(), 1);
    }
    let (mut failed, _) =
        process_payment(accounts(vec![account_of(&r1)]), 6, vec![1], vec![r1]).unwrap();
    failed.step(Reply::Failed);
    for reply in [Reply::Succeeded, Reply::Failed] {
        assert_eq!(failed.step(reply), Action::Abort(BazaarError::OrderIdAlreadyUsed));
        assert_eq!(failed.phase(), Phase::Failed(BazaarError::OrderIdAlreadyUsed));
    }
}

#[test]
fn reply_stands_for_a_result() {
    let fine: Result<u8, ()> = Ok(1);
    let bad: Result<u8, ()> = Err(());
    assert_eq!(Reply::of(&fine), Reply::Succeeded);
    assert_eq!(Reply::of(&bad), Reply::Failed);
}

#[test]
fn transfer_check_answers() {
    let (r1, r2) = (recipient(1), recipient(2));
    let program = token_program();
    assert_eq!(check_transfer(1, &r1, &account_of(&r1), &program), Ok(()));
    assert_eq!(check_transfer(u64::MAX, &r1, &account_of(&r1), &program), Ok(()));
    assert_eq!(
        check_transfer(0, &r1, &account_of(&r1), &program),
        Err(BazaarError::ZeroAmount)
    );
    assert_eq!(
        check_transfer(1, &r1, &account_of(&r2), &program),
        Err(BazaarError::InvalidTokenAccount)
    );
    assert_eq!(
        check_transfer(0, &r1, &account_of(&r2), &program),
        Err(BazaarError::ZeroAmount)
    );
}

#[test]
fn error_messages() {
    assert_eq!(
        BazaarError::LengthMismatch.message(),
        "Amounts, recipients and remaining accounts length mismatch"
    );
    assert_eq!(BazaarError::OrderIdAlreadyUsed.message(), "Order ID already used");
    assert_eq!(BazaarError::InvalidTokenAccount.message(), "Invalid token account");
    assert_eq!(BazaarError::TooManyRecipients.message(), "Too many recipients");
    assert_eq!(BazaarError::NoRecipients.message(), "No recipients provided");
    assert_eq!(BazaarError::ZeroAmount.message(), "Amount cannot be zero");
    assert_eq!(BazaarError::AssetTransferFailed.message(), "Asset transfer failed");
    assert_eq!(BazaarError::InvalidMintData.message(), "Invalid mint account data");
    assert_eq!(BazaarError::UninitializedMint.message(), "Mint is not initialized");
}
