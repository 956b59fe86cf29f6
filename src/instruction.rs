use crate::address::Address;
use crate::codec::{borrow_payload, encode_borrow, encode_repay, repay_payload};
use vstd::prelude::*;

verus! {

/// One account reference of a cross-program call, with its access flags.
#[derive(Clone, Copy, Debug)]
pub struct AccountRef {
    pub address: Address,
    pub is_signer: bool,
    pub is_writable: bool,
}

/// A fully specified call into another program: its identity, the ordered
/// accounts it touches and the encoded payload.
#[derive(Clone, Debug)]
pub struct Invocation {
    pub program_id: Address,
    pub accounts: Vec<AccountRef>,
    pub data: Vec<u8>,
}

pub open spec fn writable(address: Address, is_signer: bool) -> AccountRef {
    AccountRef { address, is_signer, is_writable: true }
}

pub open spec fn readonly(address: Address) -> AccountRef {
    AccountRef { address, is_signer: false, is_writable: false }
}

/// The account order that the lending program's borrow and repay calls
/// expect: source, destination (signer), reserve, lending market, market
/// authority, token program, receiving program, then the receiver's accounts.
pub open spec fn lending_account_order(
    source_liquidity: Address,
    destination_liquidity: Address,
    reserve: Address,
    lending_market: Address,
    lending_market_authority: Address,
    token_program: Address,
    receiver_program: Address,
    receiver_accounts: Seq<AccountRef>,
) -> Seq<AccountRef> {
    seq![
        writable(source_liquidity, false),
        writable(destination_liquidity, true),
        writable(reserve, false),
        writable(lending_market, false),
        readonly(lending_market_authority),
        readonly(token_program),
        readonly(receiver_program),
    ].add(receiver_accounts)
}

pub fn account_writable(address: Address, is_signer: bool) -> (r: AccountRef)
    ensures
        r == writable(address, is_signer),
{
    AccountRef { address, is_signer, is_writable: true }
}

pub fn account_readonly(address: Address) -> (r: AccountRef)
    ensures
        r == readonly(address),
{
    AccountRef { address, is_signer: false, is_writable: false }
}

fn lending_accounts(
    source_liquidity: Address,
    destination_liquidity: Address,
    reserve: Address,
    lending_market: Address,
    lending_market_authority: Address,
    token_program: Address,
    receiver_program: Address,
    receiver_accounts: Vec<AccountRef>,
) -> (r: Vec<AccountRef>)
    ensures
        r@ == lending_account_order(
            source_liquidity,
            destination_liquidity,
            reserve,
            lending_market,
            lending_market_authority,
            token_program,
            receiver_program,
            receiver_accounts@,
        ),
{
    let mut accounts: Vec<AccountRef> = vec![
        account_writable(source_liquidity, false),
        account_writable(destination_liquidity, true),
        account_writable(reserve, false),
        account_writable(lending_market, false),
        account_readonly(lending_market_authority),
        account_readonly(token_program),
        account_readonly(receiver_program),
    ];
    let ghost prefix = accounts@;
    let mut i: usize = 0;
    while i < receiver_accounts.len()
        invariant
            0 <= i <= receiver_accounts@.len(),
            accounts@ == prefix.add(receiver_accounts@.subrange(0, i as int)),
        decreases receiver_accounts@.len() - i,
    {
        accounts.push(receiver_accounts[i]);
        i = i + 1;
        assert(receiver_accounts@.subrange(0, i as int) =~= receiver_accounts@.subrange(
            0,
            i - 1,
        ).push(receiver_accounts@[i - 1]));
    }
    assert(receiver_accounts@.subrange(0, i as int) =~= receiver_accounts@);
    assert(accounts@ =~= lending_account_order(
        source_liquidity,
        destination_liquidity,
        reserve,
        lending_market,
        lending_market_authority,
        token_program,
        receiver_program,
        receiver_accounts@,
    ));
    accounts
}

/// Builds the lending program's flash-loan (borrow) call for `amount`, to be
/// received by `flash_loan_receiver_program_id`.
pub fn flashloan_instruction(
    flashloan_program_id: Address,
    source_liquidity_pubkey: Address,
    destination_liquidity_pubkey: Address,
    reserve_pubkey: Address,
    lending_market_pubkey: Address,
    lending_market_authority_pubkey: Address,
    token_program_id: Address,
    amount: u64,
    flash_loan_receiver_program_id: Address,
    flash_loan_receiver_program_accounts: Vec<AccountRef>,
) -> (r: Invocation)
    ensures
        r.program_id == flashloan_program_id,
        r.accounts@ == lending_account_order(
            source_liquidity_pubkey,
            destination_liquidity_pubkey,
            reserve_pubkey,
            lending_market_pubkey,
            lending_market_authority_pubkey,
            token_program_id,
            flash_loan_receiver_program_id,
            flash_loan_receiver_program_accounts@,
        ),
        r.data@ == borrow_payload(amount),
{
    let data = encode_borrow(amount);
    let accounts = lending_accounts(
        source_liquidity_pubkey,
        destination_liquidity_pubkey,
        reserve_pubkey,
        lending_market_pubkey,
        lending_market_authority_pubkey,
        token_program_id,
        flash_loan_receiver_program_id,
        flash_loan_receiver_program_accounts,
    );
    Invocation { program_id: flashloan_program_id, accounts, data }
}

/// Builds the repay call: the same accounts in the same order as the borrow
/// call, with the repay payload for `repay_amount`.
pub fn repay_instruction(
    flashloan_program_id: Address,
    source_liquidity_pubkey: Address,
    destination_liquidity_pubkey: Address,
    reserve_pubkey: Address,
    lending_market_pubkey: Address,
    lending_market_authority_pubkey: Address,
    token_program_id: Address,
    repay_amount: u64,
    flash_loan_receiver_program_id: Address,
    flash_loan_receiver_program_accounts: Vec<AccountRef>,
) -> (r: Invocation)
    ensures
        r.program_id == flashloan_program_id,
        r.accounts@ == lending_account_order(
            source_liquidity_pubkey,
            destination_liquidity_pubkey,
            reserve_pubkey,
            lending_market_pubkey,
            lending_market_authority_pubkey,
            token_program_id,
            flash_loan_receiver_program_id,
            flash_loan_receiver_program_accounts@,
        ),
        r.data@ == repay_payload(repay_amount),
{
    let data = encode_repay(repay_amount);
    let accounts = lending_accounts(
        source_liquidity_pubkey,
        destination_liquidity_pubkey,
        reserve_pubkey,
        lending_market_pubkey,
        lending_market_authority_pubkey,
        token_program_id,
        flash_loan_receiver_program_id,
        flash_loan_receiver_program_accounts,
    );
    Invocation { program_id: flashloan_program_id, accounts, data }
}

} // verus!
