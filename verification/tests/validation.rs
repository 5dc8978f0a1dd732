use bazaar_settlement::{validate, Address, BazaarError, SettlementRequest, MAX_RECIPIENTS};

fn request_of(amounts: usize, recipients: usize, destinations: usize) -> SettlementRequest {
    SettlementRequest {
        order_id: 9,
        amounts: vec![5; amounts],
        recipients: vec![Address::new([1; 32]); recipients],
        destination_accounts: vec![Address::new([2; 32]); destinations],
    }
}

#[test]
fn max_recipients_is_fifteen() {
    assert_eq!(MAX_RECIPIENTS, 15);
}

#[test]
fn one_recipient_passes() {
    assert_eq!(validate(&request_of(1, 1, 1)), Ok(()));
}

#[test]
fn exactly_max_recipients_passes() {
    assert_eq!(validate(&request_of(15, 15, 15)), Ok(()));
}

#[test]
fn one_more_than_max_recipients_is_too_many() {
    assert_eq!(validate(&request_of(16, 16, 16)), Err(BazaarError::TooManyRecipients));
}

#[test]
fn no_recipients_is_refused() {
    assert_eq!(validate(&request_of(0, 0, 0)), Err(BazaarError::NoRecipients));
}

#[test]
fn amounts_and_recipients_must_agree() {
    assert_eq!(validate(&request_of(2, 3, 3)), Err(BazaarError::LengthMismatch));
    assert_eq!(validate(&request_of(3, 2, 2)), Err(BazaarError::LengthMismatch));
}

#[test]
fn recipients_and_destinations_must_agree() {
    assert_eq!(validate(&request_of(3, 3, 2)), Err(BazaarError::LengthMismatch));
    assert_eq!(validate(&request_of(3, 3, 4)), Err(BazaarError::LengthMismatch));
    assert_eq!(validate(&request_of(0, 0, 1)), Err(BazaarError::LengthMismatch));
}

#[test]
fn length_mismatch_comes_before_too_many() {
    assert_eq!(validate(&request_of(16, 17, 17)), Err(BazaarError::LengthMismatch));
    assert_eq!(validate(&request_of(20, 20, 1)), Err(BazaarError::LengthMismatch));
}

#[test]
fn length_mismatch_comes_before_no_recipients() {
    assert_eq!(validate(&request_of(1, 0, 0)), Err(BazaarError::LengthMismatch));
}

#[test]
fn validation_does_not_look_at_amounts() {
    let mut request = request_of(2, 2, 2);
    request.amounts[1] = 0;
    assert_eq!(validate(&request), Ok(()));
}

#[test]
fn every_count_up_to_the_bound_passes() {
    for n in 1..=MAX_RECIPIENTS {
        assert_eq!(validate(&request_of(n, n, n)), Ok(()));
    }
    for n in (MAX_RECIPIENTS + 1)..40 {
        assert_eq!(validate(&request_of(n, n, n)), Err(BazaarError::TooManyRecipients));
    }
}
