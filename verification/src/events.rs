//! Notifications. Every state-changing operation appends its notifications
//! to an append-only event log at the point of commit.

use vstd::prelude::*;

verus! {

/// A participant was registered.
#[derive(Clone, Debug)]
pub struct StudentRegistered {
    pub owner: Vec<u8>,
    pub country: Vec<u8>,
    pub timestamp: i64,
}

/// An inbound settlement (external funds to participant) committed.
#[derive(Clone, Debug)]
pub struct OnRampSettled {
    pub student: Vec<u8>,
    pub amount: u64,
    pub reference: Vec<u8>,
    pub timestamp: i64,
}

/// A peer transfer (participant to participant) committed.
#[derive(Clone, Debug)]
pub struct TransferExecuted {
    pub sender: Vec<u8>,
    pub receiver: Vec<u8>,
    pub amount: u64,
    pub reference: Vec<u8>,
    pub timestamp: i64,
}

/// An outbound settlement (participant to external funds) committed.
#[derive(Clone, Debug)]
pub struct OffRampSettled {
    pub student: Vec<u8>,
    pub amount: u64,
    pub reference: Vec<u8>,
    pub timestamp: i64,
}

/// A fraud score above the threshold flagged a settlement and its
/// participant.
#[derive(Clone, Debug)]
pub struct FraudFlagged {
    pub student: Vec<u8>,
    pub amount: u64,
    pub reference: Vec<u8>,
    pub score: u8,
    pub timestamp: i64,
}

/// A participant was frozen.
#[derive(Clone, Debug)]
pub struct StudentFrozen {
    pub student: Vec<u8>,
    pub timestamp: i64,
}

/// One entry of the event log.
#[derive(Clone, Debug)]
pub enum Event {
    Registered(StudentRegistered),
    OnRamp(OnRampSettled),
    Transfer(TransferExecuted),
    OffRamp(OffRampSettled),
    Fraud(FraudFlagged),
    Frozen(StudentFrozen),
}

/// Mathematical view of one event-log entry.
#[verifier::ext_equal]
pub enum EventView {
    Registered { owner: Seq<u8>, country: Seq<u8>, timestamp: i64 },
    OnRamp { student: Seq<u8>, amount: u64, reference: Seq<u8>, timestamp: i64 },
    Transfer { sender: Seq<u8>, receiver: Seq<u8>, amount: u64, reference: Seq<u8>, timestamp: i64 },
    OffRamp { student: Seq<u8>, amount: u64, reference: Seq<u8>, timestamp: i64 },
    Fraud { student: Seq<u8>, amount: u64, reference: Seq<u8>, score: u8, timestamp: i64 },
    Frozen { student: Seq<u8>, timestamp: i64 },
}

impl View for Event {
    type V = EventView;

    open spec fn view(&self) -> EventView {
        match self {
            Event::Registered(e) => (EventView::Registered {
                owner: e.owner@,
                country: e.country@,
                timestamp: e.timestamp,
            }),
            Event::OnRamp(e) => (EventView::OnRamp {
                student: e.student@,
                amount: e.amount,
                reference: e.reference@,
                timestamp: e.timestamp,
            }),
            Event::Transfer(e) => (EventView::Transfer {
                sender: e.sender@,
                receiver: e.receiver@,
                amount: e.amount,
                reference: e.reference@,
                timestamp: e.timestamp,
            }),
            Event::OffRamp(e) => (EventView::OffRamp {
                student: e.student@,
                amount: e.amount,
                reference: e.reference@,
                timestamp: e.timestamp,
            }),
            Event::Fraud(e) => (EventView::Fraud {
                student: e.student@,
                amount: e.amount,
                reference: e.reference@,
                score: e.score,
                timestamp: e.timestamp,
            }),
            Event::Frozen(e) => (EventView::Frozen {
                student: e.student@,
                timestamp: e.timestamp,
            }),
        }
    }
}

} // verus!
