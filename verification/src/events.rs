//! The events by which the contract tells observers what it did.

use vstd::prelude::*;
use crate::types::Address;

verus! {

/// One published event. The fields stand in the order in which they are published.
#[derive(Debug, Eq, PartialEq)]
pub enum Event {
    /// Who configured the approvers, the threshold and the number of approvers.
    ApprovalConfigured(Address, u32, u32),
    /// The operation, its proposer, when it was created and when it expires.
    OperationCreated(u64, Address, u64, u64),
    /// The operation, who approved it, the number of approvals so far and the time.
    OperationApproved(u64, Address, u32, u64),
    /// The operation, the number of its approvals and the time.
    OperationExecuted(u64, u32, u64),
    /// The operation, who cancelled it and the time.
    OperationCancelled(u64, Address, u64),
    /// The ballot, the time and who recorded it.
    BallotCreated(Vec<u8>, u64, Address),
    /// The ballot and the number of tokens issued so far.
    TokenIssued(Vec<u8>, u32),
    /// The ballot and the number of votes cast so far.
    VoteCast(Vec<u8>, u32),
    /// The ballot.
    BallotExpired(Vec<u8>),
    /// The former admin and the new one.
    AdminRotated(Address, Address),
    /// The ballot and the hash of its result.
    ResultPublished(Vec<u8>, Vec<u8>),
    /// The time.
    Paused(u64),
    /// Who resumed the contract and the time.
    Resumed(Address, u64),
    /// The hash of the new code, the time and the time from which it can be installed.
    UpgradeScheduled([u8; 32], u64, u64),
    /// Who cancelled the upgrade and the time.
    UpgradeCancelled(Address, u64),
    /// The hash of the new code.
    UpgradeExecuted([u8; 32]),
}

/// What an [`Event`] says.
#[verifier::ext_equal]
pub enum EventView {
    ApprovalConfigured(Address, u32, u32),
    OperationCreated(u64, Address, u64, u64),
    OperationApproved(u64, Address, u32, u64),
    OperationExecuted(u64, u32, u64),
    OperationCancelled(u64, Address, u64),
    BallotCreated(Seq<u8>, u64, Address),
    TokenIssued(Seq<u8>, u32),
    VoteCast(Seq<u8>, u32),
    BallotExpired(Seq<u8>),
    AdminRotated(Address, Address),
    ResultPublished(Seq<u8>, Seq<u8>),
    Paused(u64),
    Resumed(Address, u64),
    UpgradeScheduled([u8; 32], u64, u64),
    UpgradeCancelled(Address, u64),
    UpgradeExecuted([u8; 32]),
}

impl View for Event {
    type V = EventView;

    open spec fn view(&self) -> EventView {
        match *self {
            Event::ApprovalConfigured(a, m, n) => EventView::ApprovalConfigured(a, m, n),
            Event::OperationCreated(i, a, c, e) => EventView::OperationCreated(i, a, c, e),
            Event::OperationApproved(i, a, n, t) => EventView::OperationApproved(i, a, n, t),
            Event::OperationExecuted(i, n, t) => EventView::OperationExecuted(i, n, t),
            Event::OperationCancelled(i, a, t) => EventView::OperationCancelled(i, a, t),
            Event::BallotCreated(b, t, a) => EventView::BallotCreated(b@, t, a),
            Event::TokenIssued(b, n) => EventView::TokenIssued(b@, n),
            Event::VoteCast(b, n) => EventView::VoteCast(b@, n),
            Event::BallotExpired(b) => EventView::BallotExpired(b@),
            Event::AdminRotated(a, b) => EventView::AdminRotated(a, b),
            Event::ResultPublished(b, h) => EventView::ResultPublished(b@, h@),
            Event::Paused(t) => EventView::Paused(t),
            Event::Resumed(a, t) => EventView::Resumed(a, t),
            Event::UpgradeScheduled(w, s, e) => EventView::UpgradeScheduled(w, s, e),
            Event::UpgradeCancelled(a, t) => EventView::UpgradeCancelled(a, t),
            Event::UpgradeExecuted(w) => EventView::UpgradeExecuted(w),
        }
    }
}

/// The two topics under which an event is published: its area and its name.
pub open spec fn event_topics(event: EventView) -> (Seq<char>, Seq<char>) {
    match event {
        EventView::ApprovalConfigured(..) => ("govern"@, "cfg_appr"@),
        EventView::OperationCreated(..) => ("govern"@, "op_create"@),
        EventView::OperationApproved(..) => ("govern"@, "approved"@),
        EventView::OperationExecuted(..) => ("govern"@, "op_exec"@),
        EventView::OperationCancelled(..) => ("govern"@, "op_cancel"@),
        EventView::BallotCreated(..) => ("audit"@, "blt_crtd"@),
        EventView::TokenIssued(..) => ("audit"@, "tok_issd"@),
        EventView::VoteCast(..) => ("audit"@, "vote_cast"@),
        EventView::BallotExpired(..) => ("audit"@, "exp_adm"@),
        EventView::AdminRotated(..) => ("audit"@, "adm_rotd"@),
        EventView::ResultPublished(..) => ("audit"@, "res_pub"@),
        EventView::Paused(..) => ("audit"@, "paused"@),
        EventView::Resumed(..) => ("audit"@, "resumed"@),
        EventView::UpgradeScheduled(..) => ("audit"@, "upg_schd"@),
        EventView::UpgradeCancelled(..) => ("audit"@, "upg_cncl"@),
        EventView::UpgradeExecuted(..) => ("audit"@, "upg_excd"@),
    }
}

impl Event {
    /// The two topics under which the event is published: its area and its name.
    pub fn topics(&self) -> (r: (&'static str, &'static str))
        ensures
            (r.0@, r.1@) == event_topics(self@),
    {
        match self {
            Event::ApprovalConfigured(..) => ("govern", "cfg_appr"),
            Event::OperationCreated(..) => ("govern", "op_create"),
            Event::OperationApproved(..) => ("govern", "approved"),
            Event::OperationExecuted(..) => ("govern", "op_exec"),
            Event::OperationCancelled(..) => ("govern", "op_cancel"),
            Event::BallotCreated(..) => ("audit", "blt_crtd"),
            Event::TokenIssued(..) => ("audit", "tok_issd"),
            Event::VoteCast(..) => ("audit", "vote_cast"),
            Event::BallotExpired(..) => ("audit", "exp_adm"),
            Event::AdminRotated(..) => ("audit", "adm_rotd"),
            Event::ResultPublished(..) => ("audit", "res_pub"),
            Event::Paused(..) => ("audit", "paused"),
            Event::Resumed(..) => ("audit", "resumed"),
            Event::UpgradeScheduled(..) => ("audit", "upg_schd"),
            Event::UpgradeCancelled(..) => ("audit", "upg_cncl"),
            Event::UpgradeExecuted(..) => ("audit", "upg_excd"),
        }
    }
}

} // verus!
