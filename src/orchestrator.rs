use crate::address::Address;
use crate::authority::{
    authority_seed,
    authority_seed_bytes,
    derive_authority,
    program_address_search,
    SigningAuthority,
};
use crate::codec::{borrow_payload, repay_payload};
use crate::events::{
    action_label,
    action_events,
    committed_events,
    events_view,
    AuditEvent,
    EventView,
    FlashloanEvent,
    TradeAction,
    TradeActionEvent,
};
use crate::instruction::{AccountRef, flashloan_instruction, lending_account_order, repay_instruction, Invocation};
use crate::loan::{
    close_loan_record,
    open_loan_record,
    repay_amount,
    repay_amount_of,
    FlashloanAccount,
    LoanRecordError,
};
use vstd::prelude::*;

verus! {

/// The accounts a trade is handed, by role.
#[derive(Clone, Copy, Debug)]
pub struct Trade {
    /// Pays for the loan record and co-signs the transaction.
    pub buyer: Address,
    /// Informational only; never checked.
    pub seller: Address,
    pub borrower: Address,
    /// The loan record's address: the orchestrator's derived signing authority.
    pub flashloan: Address,
    /// The external lending program.
    pub flashloan_program: Address,
    pub source_liquidity: Address,
    pub destination_liquidity: Address,
    pub reserve: Address,
    pub lending_market: Address,
    pub lending_market_authority: Address,
    pub token_program: Address,
    pub system_program: Address,
}

/// The identities a trade is checked against: this program's own, and the one
/// lending program it trusts.
#[derive(Clone, Copy, Debug)]
pub struct TradeConfig {
    pub program_id: Address,
    pub lending_program: Address,
}

/// Why a trade transaction aborts.
#[derive(Clone, Copy, Debug, PartialEq, Eq, Structural)]
pub enum TradeError {
    /// An account is not the fixed lending program or the derived authority.
    InvalidAccount,
    /// A loan record is already open for the authority.
    AlreadyOutstanding,
    /// The loan record to close does not exist.
    NoSuchRecord,
    /// The lending program refused the borrow call.
    BorrowRejected,
    /// The lending program refused the repay call.
    RepayRejected,
    /// The loan plus its fee does not fit in 64 bits.
    AmountOverflow,
}

pub fn loan_record_error(e: LoanRecordError) -> (r: TradeError)
    ensures
        e == LoanRecordError::AlreadyOutstanding ==> r == TradeError::AlreadyOutstanding,
        e == LoanRecordError::NoSuchRecord ==> r == TradeError::NoSuchRecord,
{
    match e {
        LoanRecordError::AlreadyOutstanding => TradeError::AlreadyOutstanding,
        LoanRecordError::NoSuchRecord => TradeError::NoSuchRecord,
    }
}

/// Where a trade transaction stands.
#[derive(Clone, Copy, Debug, PartialEq, Eq, Structural)]
pub enum Phase {
    Init,
    Borrowed,
    ActionsExecuted,
    Repaid,
    Committed,
    Aborted,
}

/// The accounts pass the checks: the lending program is the trusted one and
/// the loan record sits at the derived authority's address.
pub open spec fn accounts_valid(
    config: TradeConfig,
    accounts: Trade,
    derived: Option<(Seq<u8>, u8)>,
) -> bool {
    &&& accounts.flashloan_program@ == config.lending_program@
    &&& derived matches Some((a, _)) && accounts.flashloan@ == a
}

/// `inv` is the borrow call of a trade of `amount` over `accounts`.
pub open spec fn is_borrow_call(inv: Invocation, program_id: Address, accounts: Trade, amount: u64) -> bool {
    &&& inv.program_id == accounts.flashloan_program
    &&& inv.accounts@ == lending_account_order(
        accounts.source_liquidity,
        accounts.destination_liquidity,
        accounts.reserve,
        accounts.lending_market,
        accounts.lending_market_authority,
        accounts.token_program,
        program_id,
        Seq::empty(),
    )
    &&& inv.data@ == borrow_payload(amount)
}

/// `inv` is the repay call, for `repay`, of a trade over `accounts`.
pub open spec fn is_repay_call(inv: Invocation, program_id: Address, accounts: Trade, repay: u64) -> bool {
    &&& inv.program_id == accounts.flashloan_program
    &&& inv.accounts@ == lending_account_order(
        accounts.source_liquidity,
        accounts.destination_liquidity,
        accounts.reserve,
        accounts.lending_market,
        accounts.lending_market_authority,
        accounts.token_program,
        program_id,
        Seq::empty(),
    )
    &&& inv.data@ == repay_payload(repay)
}

/// One trade transaction, from its checks to commit or abort. The host performs
/// the calls that the session hands out and reports whether each was accepted.
pub struct TradeSession {
    pub accounts: Trade,
    pub program_id: Address,
    pub actions: Vec<TradeAction>,
    pub amount: u64,
    pub authority: SigningAuthority,
    pub phase: Phase,
    /// The loan-record slot as it was before the transaction.
    pub loan_before: Option<FlashloanAccount>,
    /// The loan-record slot as the transaction leaves it.
    pub loan_record: Option<FlashloanAccount>,
    /// The audit log; empty once the transaction aborts.
    pub events: Vec<AuditEvent>,
    /// The calls handed to the host, in order.
    pub invocations: Vec<Invocation>,
    pub error: Option<TradeError>,
}

impl TradeSession {
    /// The session's loan record while the loan is open.
    pub open spec fn open_record(&self) -> Option<FlashloanAccount> {
        Some(FlashloanAccount { borrower: self.accounts.borrower, amount: self.amount })
    }

    /// A session that has just opened, with nothing performed yet.
    pub open spec fn is_fresh(
        &self,
        config: TradeConfig,
        accounts: Trade,
        actions: Seq<TradeAction>,
        amount: u64,
        loan_record: Option<FlashloanAccount>,
    ) -> bool {
        &&& self.accounts == accounts
        &&& self.program_id == config.program_id
        &&& self.actions@ == actions
        &&& self.amount == amount
        &&& self.phase == Phase::Init
        &&& self.loan_before == loan_record
        &&& self.loan_record == self.open_record()
        &&& self.events@.len() == 0
        &&& self.invocations@.len() == 0
        &&& self.error is None
    }

    /// Checks the accounts against `config` and the authority derived for
    /// this program, and opens the loan record in `loan_record`.
    pub fn open_with_authority(
        config: &TradeConfig,
        accounts: Trade,
        actions: Vec<TradeAction>,
        amount: u64,
        loan_record: Option<FlashloanAccount>,
        authority: Option<SigningAuthority>,
    ) -> (r: Result<TradeSession, TradeError>)
        ensures
            ({
                let derived = match authority {
                    Some(a) => Some((a.address@, a.bump)),
                    None => None,
                };
                if !accounts_valid(*config, accounts, derived) {
                    r == Err::<TradeSession, TradeError>(TradeError::InvalidAccount)
                } else if loan_record is Some {
                    r == Err::<TradeSession, TradeError>(TradeError::AlreadyOutstanding)
                } else {
                    r matches Ok(s) && (s.is_fresh(*config, accounts, actions@, amount, loan_record)
                        && authority == Some(s.authority))
                }
            }),
    {
        if !accounts.flashloan_program.same_as(&config.lending_program) {
            return Err(TradeError::InvalidAccount);
        }
        let authority = match authority {
            Some(a) => a,
            None => {
                return Err(TradeError::InvalidAccount);
            },
        };
        if !authority.address.same_as(&accounts.flashloan) {
            return Err(TradeError::InvalidAccount);
        }
        let loan_before = loan_record;
        let mut slot = loan_record;
        match open_loan_record(&mut slot, accounts.borrower, amount) {
            Ok(()) => {},
            Err(e) => {
                return Err(loan_record_error(e));
            },
        }
        Ok(TradeSession {
            accounts,
            program_id: config.program_id,
            actions,
            amount,
            authority,
            phase: Phase::Init,
            loan_before,
            loan_record: slot,
            events: Vec::new(),
            invocations: Vec::new(),
            error: None,
        })
    }

    /// Derives the signing authority for this program and opens the session.
    pub fn open(
        config: &TradeConfig,
        accounts: Trade,
        actions: Vec<TradeAction>,
        amount: u64,
        loan_record: Option<FlashloanAccount>,
    ) -> (r: Result<TradeSession, TradeError>)
        ensures
            !accounts_valid(
                *config,
                accounts,
                program_address_search(authority_seed_bytes(), config.program_id@),
            ) ==> r == Err::<TradeSession, TradeError>(TradeError::InvalidAccount),
            accounts_valid(
                *config,
                accounts,
                program_address_search(authority_seed_bytes(), config.program_id@),
            ) && loan_record is Some ==> r == Err::<TradeSession, TradeError>(
                TradeError::AlreadyOutstanding,
            ),
            accounts_valid(
                *config,
                accounts,
                program_address_search(authority_seed_bytes(), config.program_id@),
            ) && loan_record is None ==> (r matches Ok(s) && (s.is_fresh(
                *config,
                accounts,
                actions@,
                amount,
                loan_record,
            ) && s.authority.seed@ == authority_seed_bytes())),
    {
        let authority = derive_authority(authority_seed(), &config.program_id);
        TradeSession::open_with_authority(config, accounts, actions, amount, loan_record, authority)
    }

    /// Ends the transaction with `e`: every effect is rolled back, so the loan
    /// record is as before and the audit log is empty.
    fn abort(&mut self, e: TradeError)
        ensures
            final(self).phase == Phase::Aborted,
            final(self).error == Some(e),
            final(self).loan_record == old(self).loan_before,
            final(self).events@.len() == 0,
            final(self).accounts == old(self).accounts,
            final(self).program_id == old(self).program_id,
            final(self).actions@ == old(self).actions@,
            final(self).amount == old(self).amount,
            final(self).loan_before == old(self).loan_before,
            final(self).invocations@ == old(self).invocations@,
    {
        self.phase = Phase::Aborted;
        self.error = Some(e);
        self.loan_record = self.loan_before;
        self.events = Vec::new();
    }

    /// The borrow call of this trade: the lending program lends `amount`, to
    /// be received by this program.
    pub fn borrow_call(&self) -> (r: Invocation)
        ensures
            is_borrow_call(r, self.program_id, self.accounts, self.amount),
    {
        let a = self.accounts;
        let receiver_accounts: Vec<AccountRef> = Vec::new();
        assert(receiver_accounts@ =~= Seq::empty());
        flashloan_instruction(
            a.flashloan_program,
            a.source_liquidity,
            a.destination_liquidity,
            a.reserve,
            a.lending_market,
            a.lending_market_authority,
            a.token_program,
            self.amount,
            self.program_id,
            receiver_accounts,
        )
    }

    /// The repay call of this trade, for `repay`.
    pub fn repay_call(&self, repay: u64) -> (r: Invocation)
        ensures
            is_repay_call(r, self.program_id, self.accounts, repay),
    {
        let a = self.accounts;
        let receiver_accounts: Vec<AccountRef> = Vec::new();
        assert(receiver_accounts@ =~= Seq::empty());
        repay_instruction(
            a.flashloan_program,
            a.source_liquidity,
            a.destination_liquidity,
            a.reserve,
            a.lending_market,
            a.lending_market_authority,
            a.token_program,
            repay,
            self.program_id,
            receiver_accounts,
        )
    }

    /// Hands out the borrow call, to be signed by the derived authority, and
    /// records it as performed.
    pub fn begin_borrow(&mut self) -> (r: Invocation)
        requires
            old(self).phase == Phase::Init,
        ensures
            is_borrow_call(r, old(self).program_id, old(self).accounts, old(self).amount),
            final(self).invocations@.len() == old(self).invocations@.len() + 1,
            final(self).invocations@.drop_last() == old(self).invocations@,
            is_borrow_call(
                final(self).invocations@.last(),
                old(self).program_id,
                old(self).accounts,
                old(self).amount,
            ),
            final(self).phase == old(self).phase,
            final(self).accounts == old(self).accounts,
            final(self).program_id == old(self).program_id,
            final(self).actions@ == old(self).actions@,
            final(self).amount == old(self).amount,
            final(self).loan_before == old(self).loan_before,
            final(self).loan_record == old(self).loan_record,
            final(self).events@ == old(self).events@,
            final(self).error == old(self).error,
    {
        let performed = self.borrow_call();
        self.invocations.push(performed);
        assert(self.invocations@.drop_last() =~= old(self).invocations@);
        self.borrow_call()
    }

    /// The parts of the session that no step changes.
    pub open spec fn keeps_inputs(&self, before: &TradeSession) -> bool {
        &&& self.accounts == before.accounts
        &&& self.program_id == before.program_id
        &&& self.actions@ == before.actions@
        &&& self.amount == before.amount
        &&& self.loan_before == before.loan_before
    }

    /// The session is `before` with one more call handed out, and nothing else changed.
    pub open spec fn extends_calls(&self, before: &TradeSession) -> bool {
        &&& self.invocations@.len() == before.invocations@.len() + 1
        &&& self.invocations@.drop_last() == before.invocations@
        &&& self.phase == before.phase
        &&& self.loan_record == before.loan_record
        &&& self.events@ == before.events@
        &&& self.error == before.error
    }

    /// The session ended with `e` and every effect of it was rolled back.
    pub open spec fn aborted_with(&self, e: TradeError) -> bool {
        &&& self.phase == Phase::Aborted
        &&& self.error == Some(e)
        &&& self.loan_record == self.loan_before
        &&& self.events@.len() == 0
    }

    /// Records the lending program's answer to the borrow call. On success the
    /// loan is logged; on refusal the transaction aborts.
    pub fn borrow_settled(&mut self, accepted: bool)
        requires
            old(self).phase == Phase::Init,
            old(self).events@.len() == 0,
            old(self).error is None,
        ensures
            final(self).keeps_inputs(old(self)),
            final(self).invocations@ == old(self).invocations@,
            accepted ==> final(self).phase == Phase::Borrowed && final(self).error is None
                && final(self).loan_record == old(self).loan_record && events_view(
                final(self).events@,
            ) == seq![EventView::Flashloan(old(self).accounts.borrower@, old(self).amount)],
            !accepted ==> final(self).aborted_with(TradeError::BorrowRejected),
    {
        if !accepted {
            self.abort(TradeError::BorrowRejected);
            return;
        }
        let event = FlashloanEvent { borrower: self.accounts.borrower, amount: self.amount };
        self.events.push(AuditEvent::Flashloan(event));
        assert(events_view(self.events@) =~= seq![
            EventView::Flashloan(old(self).accounts.borrower@, old(self).amount),
        ]);
        self.phase = Phase::Borrowed;
    }

    /// Runs the actions in the order given. Each one is logged under its label.
    pub fn execute_actions(&mut self)
        requires
            old(self).phase == Phase::Borrowed,
        ensures
            final(self).keeps_inputs(old(self)),
            final(self).invocations@ == old(self).invocations@,
            final(self).loan_record == old(self).loan_record,
            final(self).error == old(self).error,
            final(self).phase == Phase::ActionsExecuted,
            events_view(final(self).events@) == events_view(old(self).events@).add(
                action_events(old(self).actions@),
            ),
    {
        let mut i: usize = 0;
        while i < self.actions.len()
            invariant
                self.keeps_inputs(old(self)),
                self.invocations@ == old(self).invocations@,
                self.loan_record == old(self).loan_record,
                self.error == old(self).error,
                self.phase == old(self).phase,
                0 <= i <= self.actions@.len(),
                events_view(self.events@) == events_view(old(self).events@).add(
                    action_events(self.actions@.subrange(0, i as int)),
                ),
            decreases self.actions@.len() - i,
        {
            let action = self.actions[i];
            let ghost before = self.events@;
            self.events.push(AuditEvent::TradeAction(TradeActionEvent::for_action(action)));
            assert(events_view(self.events@) =~= events_view(before).push(
                EventView::TradeAction(crate::events::action_label(action)),
            ));
            assert(action_events(self.actions@.subrange(0, i + 1)) =~= action_events(
                self.actions@.subrange(0, i as int),
            ).push(EventView::TradeAction(crate::events::action_label(action))));
            i = i + 1;
        }
        assert(self.actions@.subrange(0, i as int) =~= self.actions@);
        self.phase = Phase::ActionsExecuted;
    }

    /// Hands out the repay call for the loan plus its fee, or aborts when that
    /// sum does not fit in 64 bits.
    pub fn begin_repay(&mut self) -> (r: Option<Invocation>)
        requires
            old(self).phase == Phase::ActionsExecuted,
        ensures
            final(self).keeps_inputs(old(self)),
            repay_amount_of(old(self).amount) > u64::MAX ==> r is None,
            repay_amount_of(old(self).amount) > u64::MAX ==> final(self).aborted_with(
                TradeError::AmountOverflow,
            ),
            repay_amount_of(old(self).amount) > u64::MAX ==> final(self).invocations@ == old(self).invocations@,
            repay_amount_of(old(self).amount) <= u64::MAX ==> (r matches Some(inv) && is_repay_call(
                inv,
                old(self).program_id,
                old(self).accounts,
                repay_amount_of(old(self).amount) as u64,
            )),
            repay_amount_of(old(self).amount) <= u64::MAX ==> final(self).extends_calls(old(self))
                && is_repay_call(
                final(self).invocations@.last(),
                old(self).program_id,
                old(self).accounts,
                repay_amount_of(old(self).amount) as u64,
            ),
    {
        match repay_amount(self.amount) {
            None => {
                self.abort(TradeError::AmountOverflow);
                None
            },
            Some(repay) => {
                let performed = self.repay_call(repay);
                self.invocations.push(performed);
                assert(self.invocations@.drop_last() =~= old(self).invocations@);
                Some(self.repay_call(repay))
            },
        }
    }

    /// Records the lending program's answer to the repay call. On success the
    /// loan record is closed and the transaction commits; on refusal it aborts.
    pub fn repay_settled(&mut self, accepted: bool)
        requires
            old(self).phase == Phase::ActionsExecuted,
            old(self).error is None,
        ensures
            final(self).keeps_inputs(old(self)),
            final(self).invocations@ == old(self).invocations@,
            !accepted ==> final(self).aborted_with(TradeError::RepayRejected),
            accepted && old(self).loan_record is None ==> final(self).aborted_with(TradeError::NoSuchRecord),
            accepted && old(self).loan_record is Some ==> final(self).phase == Phase::Committed,
            accepted && old(self).loan_record is Some ==> final(self).error is None,
            accepted && old(self).loan_record is Some ==> final(self).loan_record is None,
            accepted && old(self).loan_record is Some ==> final(self).events@ == old(self).events@,
    {
        if !accepted {
            self.abort(TradeError::RepayRejected);
            return;
        }
        self.phase = Phase::Repaid;
        match close_loan_record(&mut self.loan_record) {
            Ok(_) => {
                self.phase = Phase::Committed;
            },
            Err(e) => {
                self.abort(loan_record_error(e));
            },
        }
    }
}

/// What a trade transaction leaves behind: its outcome, the calls it handed
/// to the host, its audit log and the loan-record slot.
pub struct TradeReport {
    pub result: Result<(), TradeError>,
    pub invocations: Vec<Invocation>,
    pub events: Vec<AuditEvent>,
    pub loan_record: Option<FlashloanAccount>,
}

/// The (address, bump) pair of an optional authority.
pub open spec fn derived_pair(authority: Option<SigningAuthority>) -> Option<(Seq<u8>, u8)> {
    match authority {
        Some(a) => Some((a.address@, a.bump)),
        None => None,
    }
}

/// How a trade ends, given the derived authority and the lending program's
/// answers to the borrow and repay calls.
pub open spec fn trade_result(
    config: TradeConfig,
    accounts: Trade,
    amount: u64,
    loan_record: Option<FlashloanAccount>,
    derived: Option<(Seq<u8>, u8)>,
    borrow_accepted: bool,
    repay_accepted: bool,
) -> Result<(), TradeError> {
    if !accounts_valid(config, accounts, derived) {
        Err(TradeError::InvalidAccount)
    } else if loan_record is Some {
        Err(TradeError::AlreadyOutstanding)
    } else if !borrow_accepted {
        Err(TradeError::BorrowRejected)
    } else if repay_amount_of(amount) > u64::MAX {
        Err(TradeError::AmountOverflow)
    } else if !repay_accepted {
        Err(TradeError::RepayRejected)
    } else {
        Ok(())
    }
}

/// How many calls a trade hands to the host: none when it is refused before
/// borrowing, the borrow alone when it ends before repaying, else both.
pub open spec fn trade_call_count(
    config: TradeConfig,
    accounts: Trade,
    amount: u64,
    loan_record: Option<FlashloanAccount>,
    derived: Option<(Seq<u8>, u8)>,
    borrow_accepted: bool,
) -> nat {
    if !accounts_valid(config, accounts, derived) || loan_record is Some {
        0
    } else if !borrow_accepted || repay_amount_of(amount) > u64::MAX {
        1
    } else {
        2
    }
}

/// Everything a trade report holds, given the derived authority and the
/// lending program's answers.
pub open spec fn is_trade_report(
    r: TradeReport,
    config: TradeConfig,
    accounts: Trade,
    actions: Seq<TradeAction>,
    amount: u64,
    loan_record: Option<FlashloanAccount>,
    derived: Option<(Seq<u8>, u8)>,
    borrow_accepted: bool,
    repay_accepted: bool,
) -> bool {
    &&& r.result == trade_result(
        config,
        accounts,
        amount,
        loan_record,
        derived,
        borrow_accepted,
        repay_accepted,
    )
    &&& r.invocations@.len() == trade_call_count(
        config,
        accounts,
        amount,
        loan_record,
        derived,
        borrow_accepted,
    )
    &&& r.invocations@.len() >= 1 ==> is_borrow_call(
        r.invocations@[0],
        config.program_id,
        accounts,
        amount,
    )
    &&& r.invocations@.len() == 2 ==> is_repay_call(
        r.invocations@[1],
        config.program_id,
        accounts,
        repay_amount_of(amount) as u64,
    )
    &&& r.result is Ok ==> events_view(r.events@) == committed_events(
        accounts.borrower@,
        amount,
        actions,
    )
    &&& r.result is Ok ==> r.loan_record is None
    &&& r.result is Err ==> r.events@.len() == 0
    &&& r.result is Err ==> r.loan_record == loan_record
}

impl TradeSession {
    /// What the session leaves behind.
    pub fn into_report(self) -> (r: TradeReport)
        ensures
            self.error is None ==> r.result == Ok::<(), TradeError>(()),
            self.error matches Some(e) ==> r.result == Err::<(), TradeError>(e),
            r.invocations@ == self.invocations@,
            r.events@ == self.events@,
            r.loan_record == self.loan_record,
    {
        let result = match self.error {
            None => Ok(()),
            Some(e) => Err(e),
        };
        TradeReport {
            result,
            invocations: self.invocations,
            events: self.events,
            loan_record: self.loan_record,
        }
    }
}

/// Runs one trade transaction with the given signing authority, where the
/// lending program answers the borrow call with `borrow_accepted` and the
/// repay call with `repay_accepted`.
pub fn trade_with_authority(
    config: &TradeConfig,
    accounts: Trade,
    actions: Vec<TradeAction>,
    amount: u64,
    loan_record: Option<FlashloanAccount>,
    authority: Option<SigningAuthority>,
    borrow_accepted: bool,
    repay_accepted: bool,
) -> (r: TradeReport)
    ensures
        is_trade_report(
            r,
            *config,
            accounts,
            actions@,
            amount,
            loan_record,
            derived_pair(authority),
            borrow_accepted,
            repay_accepted,
        ),
{
    let ghost actions_seq = actions@;
    let mut session = match TradeSession::open_with_authority(
        config,
        accounts,
        actions,
        amount,
        loan_record,
        authority,
    ) {
        Ok(s) => s,
        Err(e) => {
            return TradeReport {
                result: Err(e),
                invocations: Vec::new(),
                events: Vec::new(),
                loan_record,
            };
        },
    };
    let _ = session.begin_borrow();
    assert(session.invocations@[0] == session.invocations@.last());
    session.borrow_settled(borrow_accepted);
    if session.phase == Phase::Aborted {
        return session.into_report();
    }
    session.execute_actions();
    assert(events_view(session.events@) =~= committed_events(accounts.borrower@, amount, actions_seq));
    match session.begin_repay() {
        None => {
            return session.into_report();
        },
        Some(_) => {},
    }
    assert(session.invocations@[0] == session.invocations@.drop_last()[0]);
    assert(session.invocations@[1] == session.invocations@.last());
    session.repay_settled(repay_accepted);
    session.into_report()
}

/// Runs one trade transaction: derives this program's signing authority, checks
/// the accounts, borrows, runs the actions in order and repays the loan with
/// its fee. The lending program answers the borrow call with `borrow_accepted`
/// and the repay call with `repay_accepted`; any failure rolls everything back.
pub fn trade(
    config: &TradeConfig,
    accounts: Trade,
    actions: Vec<TradeAction>,
    amount: u64,
    loan_record: Option<FlashloanAccount>,
    borrow_accepted: bool,
    repay_accepted: bool,
) -> (r: TradeReport)
    ensures
        is_trade_report(
            r,
            *config,
            accounts,
            actions@,
            amount,
            loan_record,
            program_address_search(authority_seed_bytes(), config.program_id@),
            borrow_accepted,
            repay_accepted,
        ),
        // An untrusted lending program is refused before any call is made.
        accounts.flashloan_program@ != config.lending_program@ ==> r.result == Err::<(), TradeError>(
            TradeError::InvalidAccount,
        ) && r.invocations@.len() == 0 && r.loan_record == loan_record,
        // One audit entry per action, in the order given, under the action's label.
        r.result is Ok ==> r.events@.len() == actions@.len() + 1 && forall|i: int|
            #![trigger actions@[i]]
            0 <= i < actions@.len() ==> r.events@[i + 1]@ == EventView::TradeAction(
                action_label(actions@[i]),
            ),
        // Exactly one loan entry, first, with the borrower and amount traded.
        r.result is Ok ==> r.events@[0]@ == EventView::Flashloan(accounts.borrower@, amount)
            && forall|i: int| 1 <= i < r.events@.len() ==> (#[trigger] r.events@[i])@ is TradeAction,
        // A refused borrow is never followed by a repay, and leaves no loan record.
        !borrow_accepted ==> r.result is Err && r.invocations@.len() <= 1 && r.loan_record
            == loan_record && r.events@.len() == 0,
{
    let authority = derive_authority(authority_seed(), &config.program_id);
    let r = trade_with_authority(
        config,
        accounts,
        actions,
        amount,
        loan_record,
        authority,
        borrow_accepted,
        repay_accepted,
    );
    proof {
        if r.result is Ok {
            let ev = events_view(r.events@);
            assert(ev.len() == r.events@.len());
            assert forall|i: int| 0 <= i < actions@.len() implies r.events@[i + 1]@
                == EventView::TradeAction(#[trigger] action_label(actions@[i])) by {
                assert(ev[i + 1] == r.events@[i + 1]@);
                assert(ev[i + 1] == action_events(actions@)[i]);
            }
            assert(ev[0] == r.events@[0]@);
            assert forall|i: int| 1 <= i < r.events@.len() implies (#[trigger] r.events@[i])@ is TradeAction by {
                assert(ev[i] == r.events@[i]@);
                assert(ev[i] == action_events(actions@)[i - 1]);
            }
        }
    }
    r
}

} // verus!
