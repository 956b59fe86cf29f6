use trading_bot::codec::{decode_borrow, decode_repay, encode_borrow, encode_repay};
use trading_bot::loan::{close_loan_record, open_loan_record, LoanRecordError};
use trading_bot::{repay_amount, Address, FlashloanAccount};

#[test]
fn repay_amount_adds_one_percent() {
    assert_eq!(repay_amount(1000), Some(1010));
}

#[test]
fn repay_amount_truncates_small_fee() {
    assert_eq!(repay_amount(99), Some(99));
    assert_eq!(repay_amount(100), Some(101));
    assert_eq!(repay_amount(199), Some(200));
}

#[test]
fn repay_amount_of_zero_is_zero() {
    assert_eq!(repay_amount(0), Some(0));
}

#[test]
fn repay_amount_overflow_is_none() {
    assert_eq!(repay_amount(u64::MAX), None);
    let largest = u64::MAX - u64::MAX / 101;
    let fits = repay_amount(largest - 100);
    assert!(fits.is_some());
    assert!(fits.unwrap() >= largest - 100);
}

#[test]
fn repay_amount_never_below_loan() {
    for amount in [1u64, 7, 50, 101, 12345, 1 << 40] {
        let r = repay_amount(amount).unwrap();
        assert!(r >= amount);
        assert_eq!(r, amount + amount / 100);
    }
}

#[test]
fn borrow_payload_layout() {
    assert_eq!(encode_borrow(1000), vec![9, 0xe8, 0x03, 0, 0, 0, 0, 0, 0]);
    assert_eq!(encode_borrow(0), vec![9, 0, 0, 0, 0, 0, 0, 0, 0]);
    assert_eq!(encode_borrow(u64::MAX), vec![9, 255, 255, 255, 255, 255, 255, 255, 255]);
}

#[test]
fn repay_payload_layout() {
    assert_eq!(encode_repay(1010), vec![0xf2, 0x03, 0, 0, 0, 0, 0, 0]);
    assert_eq!(encode_repay(0x0102030405060708), vec![8, 7, 6, 5, 4, 3, 2, 1]);
}

#[test]
fn payload_round_trip() {
    for amount in [0u64, 1, 99, 1000, 0xdead_beef, u64::MAX] {
        assert_eq!(decode_borrow(&encode_borrow(amount)), Some(amount));
        assert_eq!(decode_repay(&encode_repay(amount)), Some(amount));
    }
}

#[test]
fn decode_rejects_malformed_payloads() {
    assert_eq!(decode_borrow(&[8, 1, 0, 0, 0, 0, 0, 0, 0]), None);
    assert_eq!(decode_borrow(&[9, 1, 0, 0, 0, 0, 0, 0]), None);
    assert_eq!(decode_borrow(&[]), None);
    assert_eq!(decode_repay(&[1, 2, 3]), None);
    assert_eq!(decode_repay(&[1, 0, 0, 0, 0, 0, 0, 0, 0]), None);
}

#[test]
fn loan_record_opens_once() {
    let borrower = Address::new([4; 32]);
    let mut slot: Option<FlashloanAccount> = None;
    assert_eq!(open_loan_record(&mut slot, borrower, 500), Ok(()));
    let rec = slot.unwrap();
    assert_eq!(rec.borrower, borrower);
    assert_eq!(rec.amount, 500);
    assert_eq!(
        open_loan_record(&mut slot, borrower, 7),
        Err(LoanRecordError::AlreadyOutstanding)
    );
    assert_eq!(slot.unwrap().amount, 500);
}

#[test]
fn loan_record_close() {
    let borrower = Address::new([4; 32]);
    let mut slot = Some(FlashloanAccount { borrower, amount: 9 });
    let rec = close_loan_record(&mut slot).unwrap();
    assert_eq!(rec.amount, 9);
    assert!(slot.is_none());
    assert_eq!(close_loan_record(&mut slot).unwrap_err(), LoanRecordError::NoSuchRecord);
}

#[test]
fn address_equality_is_bytewise() {
    let mut b = [1u8; 32];
    let a = Address::new(b);
    assert_eq!(a, Address::new([1; 32]));
    b[31] = 2;
    assert_ne!(a, Address::new(b));
    assert!(!a.same_as(&Address::new(b)));
}
