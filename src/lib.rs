//! An atomic flash-loan orchestrator: it borrows from an external lending
//! program, runs a sequence of trade actions, and repays the loan with its fee,
//! all inside one all-or-nothing ledger transaction.
//!
//! The library decides; the host that embeds it performs the cross-program
//! calls and reports their outcome back, one step of a `TradeSession` at a time.
pub mod address;
pub mod authority;
pub mod codec;
pub mod events;
pub mod instruction;
pub mod loan;
pub mod orchestrator;

pub use address::Address;
pub use authority::{authority_seed, derive_authority, SigningAuthority};
pub use events::{AuditEvent, FlashloanEvent, TradeAction, TradeActionEvent};
pub use instruction::{flashloan_instruction, repay_instruction, AccountRef, Invocation};
pub use loan::{repay_amount, FlashloanAccount};
pub use orchestrator::{
    trade, trade_with_authority, Phase, Trade, TradeConfig, TradeError, TradeReport, TradeSession,
};
