use trading_bot::authority::derive_authority;
use trading_bot::{
    authority_seed, flashloan_instruction, trade, trade_with_authority, AccountRef, Address,
    AuditEvent, FlashloanAccount, Phase, SigningAuthority, Trade, TradeAction, TradeConfig,
    TradeError, TradeSession,
};

fn addr(n: u8) -> Address {
    Address::new([n; 32])
}

fn config() -> TradeConfig {
    TradeConfig { program_id: addr(200), lending_program: addr(100) }
}

fn authority() -> SigningAuthority {
    derive_authority(authority_seed(), &config().program_id).unwrap()
}

fn accounts() -> Trade {
    Trade {
        buyer: addr(1),
        seller: addr(2),
        borrower: addr(3),
        flashloan: authority().address,
        flashloan_program: addr(100),
        source_liquidity: addr(10),
        destination_liquidity: addr(11),
        reserve: addr(12),
        lending_market: addr(13),
        lending_market_authority: addr(14),
        token_program: addr(15),
        system_program: addr(16),
    }
}

fn labels(events: &[AuditEvent]) -> Vec<String> {
    events
        .iter()
        .filter_map(|e| match e {
            AuditEvent::TradeAction(t) => Some(t.action_type.clone()),
            AuditEvent::Flashloan(_) => None,
        })
        .collect()
}

fn expected_accounts() -> Vec<(Address, bool, bool)> {
    vec![
        (addr(10), false, true),
        (addr(11), true, true),
        (addr(12), false, true),
        (addr(13), false, true),
        (addr(14), false, false),
        (addr(15), false, false),
        (addr(200), false, false),
    ]
}

fn flags(accounts: &[AccountRef]) -> Vec<(Address, bool, bool)> {
    accounts.iter().map(|a| (a.address, a.is_signer, a.is_writable)).collect()
}

#[test]
fn buy_sell_buy_commits_in_order() {
    let actions = vec![TradeAction::Buy, TradeAction::Sell, TradeAction::Buy];
    let r = trade(&config(), accounts(), actions, 1000, None, true, true);
    assert_eq!(r.result, Ok(()));
    assert_eq!(r.events.len(), 4);
    match &r.events[0] {
        AuditEvent::Flashloan(f) => {
            assert_eq!(f.borrower, addr(3));
            assert_eq!(f.amount, 1000);
        }
        AuditEvent::TradeAction(_) => panic!("the loan entry comes first"),
    }
    assert_eq!(labels(&r.events), vec!["buy", "sell", "buy"]);
    assert!(r.loan_record.is_none());
    assert_eq!(r.invocations.len(), 2);
    assert_eq!(r.invocations[0].program_id, addr(100));
    assert_eq!(r.invocations[0].data, vec![9, 0xe8, 0x03, 0, 0, 0, 0, 0, 0]);
    assert_eq!(flags(&r.invocations[0].accounts), expected_accounts());
    assert_eq!(r.invocations[1].program_id, addr(100));
    assert_eq!(r.invocations[1].data, vec![0xf2, 0x03, 0, 0, 0, 0, 0, 0]);
    assert_eq!(flags(&r.invocations[1].accounts), expected_accounts());
}

#[test]
fn empty_actions_log_only_the_loan() {
    let r = trade(&config(), accounts(), vec![], 50, None, true, true);
    assert_eq!(r.result, Ok(()));
    assert_eq!(r.events.len(), 1);
    assert!(labels(&r.events).is_empty());
}

#[test]
fn one_event_per_action() {
    let actions = vec![TradeAction::Sell; 5];
    let r = trade(&config(), accounts(), actions, 77, None, true, true);
    assert_eq!(r.result, Ok(()));
    assert_eq!(labels(&r.events), vec!["sell"; 5]);
    let loans = r.events.iter().filter(|e| matches!(e, AuditEvent::Flashloan(_))).count();
    assert_eq!(loans, 1);
}

#[test]
fn untrusted_lending_program_is_refused() {
    let mut a = accounts();
    a.flashloan_program = addr(101);
    let r = trade(&config(), a, vec![TradeAction::Buy], 1000, None, true, true);
    assert_eq!(r.result, Err(TradeError::InvalidAccount));
    assert!(r.invocations.is_empty());
    assert!(r.events.is_empty());
    assert!(r.loan_record.is_none());
}

#[test]
fn wrong_loan_record_address_is_refused() {
    let mut a = accounts();
    a.flashloan = addr(9);
    let r = trade(&config(), a, vec![TradeAction::Buy], 1000, None, true, true);
    assert_eq!(r.result, Err(TradeError::InvalidAccount));
    assert!(r.invocations.is_empty());
}

#[test]
fn missing_authority_is_refused() {
    let r = trade_with_authority(&config(), accounts(), vec![], 10, None, None, true, true);
    assert_eq!(r.result, Err(TradeError::InvalidAccount));
    assert!(r.invocations.is_empty());
}

#[test]
fn outstanding_loan_is_refused() {
    let existing = FlashloanAccount { borrower: addr(3), amount: 5 };
    let r = trade(&config(), accounts(), vec![TradeAction::Buy], 1000, Some(existing), true, true);
    assert_eq!(r.result, Err(TradeError::AlreadyOutstanding));
    assert!(r.invocations.is_empty());
    assert_eq!(r.loan_record.unwrap().amount, 5);
}

#[test]
fn rejected_borrow_attempts_no_repay() {
    let r = trade(&config(), accounts(), vec![TradeAction::Buy], 1000, None, false, true);
    assert_eq!(r.result, Err(TradeError::BorrowRejected));
    assert_eq!(r.invocations.len(), 1);
    assert_eq!(r.invocations[0].data[0], 9);
    assert!(r.events.is_empty());
    assert!(r.loan_record.is_none());
}

#[test]
fn rejected_repay_rolls_back() {
    let r = trade(&config(), accounts(), vec![TradeAction::Sell], 1000, None, true, false);
    assert_eq!(r.result, Err(TradeError::RepayRejected));
    assert_eq!(r.invocations.len(), 2);
    assert!(r.events.is_empty());
    assert!(r.loan_record.is_none());
}

#[test]
fn fee_overflow_aborts_before_repay() {
    let r = trade(&config(), accounts(), vec![TradeAction::Buy], u64::MAX, None, true, true);
    assert_eq!(r.result, Err(TradeError::AmountOverflow));
    assert_eq!(r.invocations.len(), 1);
    assert!(r.events.is_empty());
}

#[test]
fn zero_amount_is_carried_through() {
    let r = trade(&config(), accounts(), vec![], 0, None, true, true);
    assert_eq!(r.result, Ok(()));
    assert_eq!(r.invocations[1].data, vec![0; 8]);
}

#[test]
fn session_steps_by_hand() {
    let mut s = TradeSession::open(&config(), accounts(), vec![TradeAction::Buy], 200, None)
        .unwrap();
    assert_eq!(s.phase, Phase::Init);
    assert_eq!(s.loan_record.unwrap().amount, 200);
    let borrow = s.begin_borrow();
    assert_eq!(borrow.data, vec![9, 200, 0, 0, 0, 0, 0, 0, 0]);
    s.borrow_settled(true);
    assert_eq!(s.phase, Phase::Borrowed);
    s.execute_actions();
    assert_eq!(s.phase, Phase::ActionsExecuted);
    let repay = s.begin_repay().unwrap();
    assert_eq!(repay.data, vec![202, 0, 0, 0, 0, 0, 0, 0]);
    s.repay_settled(true);
    assert_eq!(s.phase, Phase::Committed);
    assert!(s.loan_record.is_none());
    assert_eq!(s.events.len(), 2);
}

#[test]
fn flashloan_instruction_appends_receiver_accounts() {
    let extra = AccountRef { address: addr(50), is_signer: false, is_writable: true };
    let inv = flashloan_instruction(
        addr(100),
        addr(10),
        addr(11),
        addr(12),
        addr(13),
        addr(14),
        addr(15),
        1000,
        addr(200),
        vec![extra],
    );
    let mut want = expected_accounts();
    want.push((addr(50), false, true));
    assert_eq!(flags(&inv.accounts), want);
    assert_eq!(inv.data, vec![9, 0xe8, 0x03, 0, 0, 0, 0, 0, 0]);
}

#[test]
fn authority_derivation_is_deterministic() {
    let first = derive_authority(authority_seed(), &addr(200)).unwrap();
    let second = derive_authority(authority_seed(), &addr(200)).unwrap();
    assert_eq!(first.address, second.address);
    assert_eq!(first.bump, second.bump);
    assert_eq!(first.seed, b"flashloan-seed".to_vec());
    let other = derive_authority(b"another-seed".to_vec(), &addr(200)).unwrap();
    assert_ne!(first.address, other.address);
    let elsewhere = derive_authority(authority_seed(), &addr(201)).unwrap();
    assert_ne!(first.address, elsewhere.address);
    assert_ne!(first.address, addr(200));
}

#[test]
fn overlong_seed_derives_nothing() {
    assert!(derive_authority(vec![7; 33], &addr(200)).is_none());
}
