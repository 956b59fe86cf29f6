use crate::address::Address;
use vstd::prelude::*;

verus! {

/// One step of a trade sequence. Both steps carry no parameters yet.
#[derive(Clone, Copy, Debug, PartialEq, Eq, Structural)]
pub enum TradeAction {
    Buy,
    Sell,
}

/// Audit record of one trade action that was processed.
#[derive(Clone, Debug)]
pub struct TradeActionEvent {
    pub action_type: String,
}

/// Audit record of the flash loan taken by a transaction.
#[derive(Clone, Copy, Debug)]
pub struct FlashloanEvent {
    pub borrower: Address,
    pub amount: u64,
}

/// An entry of a transaction's audit log.
#[derive(Clone, Debug)]
pub enum AuditEvent {
    Flashloan(FlashloanEvent),
    TradeAction(TradeActionEvent),
}

/// What an audit entry records, as plain values.
pub enum EventView {
    Flashloan(Seq<u8>, u64),
    TradeAction(Seq<char>),
}

impl View for AuditEvent {
    type V = EventView;

    open spec fn view(&self) -> EventView {
        match self {
            AuditEvent::Flashloan(e) => EventView::Flashloan(e.borrower@, e.amount),
            AuditEvent::TradeAction(e) => EventView::TradeAction(e.action_type@),
        }
    }
}

/// The label under which an action is recorded.
pub open spec fn action_label(action: TradeAction) -> Seq<char> {
    match action {
        TradeAction::Buy => "buy"@,
        TradeAction::Sell => "sell"@,
    }
}

pub open spec fn events_view(events: Seq<AuditEvent>) -> Seq<EventView> {
    events.map_values(|e: AuditEvent| e@)
}

/// The audit entries recorded for a sequence of actions, one per action, in order.
pub open spec fn action_events(actions: Seq<TradeAction>) -> Seq<EventView> {
    actions.map_values(|a: TradeAction| EventView::TradeAction(action_label(a)))
}

/// The audit log of a committed transaction: the loan, then each action.
pub open spec fn committed_events(borrower: Seq<u8>, amount: u64, actions: Seq<TradeAction>) -> Seq<
    EventView,
> {
    seq![EventView::Flashloan(borrower, amount)].add(action_events(actions))
}

impl TradeActionEvent {
    /// The audit record for processing `action`.
    pub fn for_action(action: TradeAction) -> (r: TradeActionEvent)
        ensures
            r.action_type@ == action_label(action),
    {
        match action {
            TradeAction::Buy => TradeActionEvent { action_type: "buy".to_owned() },
            TradeAction::Sell => TradeActionEvent { action_type: "sell".to_owned() },
        }
    }
}

} // verus!
