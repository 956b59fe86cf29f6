use crate::address::Address;
use vstd::prelude::*;

verus! {

/// The persisted record of an outstanding loan, kept at the signing
/// authority's derived address while the loan is open.
#[derive(Clone, Copy, Debug)]
pub struct FlashloanAccount {
    pub borrower: Address,
    pub amount: u64,
}

/// Why a loan-record operation was refused.
#[derive(Clone, Copy, Debug, PartialEq, Eq, Structural)]
pub enum LoanRecordError {
    /// A record already exists for the authority.
    AlreadyOutstanding,
    /// No record exists for the authority.
    NoSuchRecord,
}

/// The amount owed back: the loan plus a fee of one percent, rounded down.
pub open spec fn repay_amount_of(amount: u64) -> int {
    amount + amount / 100
}

/// The amount to repay for a loan of `amount`, or `None` where it would not
/// fit in 64 bits.
pub fn repay_amount(amount: u64) -> (r: Option<u64>)
    ensures
        r is Some <==> repay_amount_of(amount) <= u64::MAX,
        r matches Some(v) ==> v == repay_amount_of(amount) && v >= amount,
{
    amount.checked_add(amount / 100)
}

/// Opens the record of a loan in the authority's slot. The slot must be empty:
/// at most one loan is outstanding per authority.
pub fn open_loan_record(slot: &mut Option<FlashloanAccount>, borrower: Address, amount: u64) -> (r:
    Result<(), LoanRecordError>)
    ensures
        old(slot).is_some() ==> r == Err::<(), LoanRecordError>(LoanRecordError::AlreadyOutstanding)
            && *final(slot) == *old(slot),
        old(slot).is_none() ==> r is Ok && *final(slot) == Some(
            FlashloanAccount { borrower, amount },
        ),
{
    if slot.is_some() {
        return Err(LoanRecordError::AlreadyOutstanding);
    }
    *slot = Some(FlashloanAccount { borrower, amount });
    Ok(())
}

/// Closes the authority's loan record and hands back what it held.
pub fn close_loan_record(slot: &mut Option<FlashloanAccount>) -> (r: Result<
    FlashloanAccount,
    LoanRecordError,
>)
    ensures
        *final(slot) == None::<FlashloanAccount>,
        old(slot).is_none() ==> r == Err::<FlashloanAccount, LoanRecordError>(
            LoanRecordError::NoSuchRecord,
        ),
        *old(slot) matches Some(rec) ==> r == Ok::<FlashloanAccount, LoanRecordError>(rec),
{
    match slot.take() {
        Some(rec) => Ok(rec),
        None => Err(LoanRecordError::NoSuchRecord),
    }
}

} // verus!
