//! Grant ledgers. The streaming ledger holds grants that accrue to a
//! recipient at a rate per second, with rate changes, a pause / cancel
//! lifecycle and books that never exceed the total of a grant: `settlement`
//! turns elapsed time into claimable balance, `lifecycle` holds the operations
//! on one grant, `laws` what holds of them, and `contract` the ledger that
//! keeps the grants by id. `milestone` holds the grants that a council
//! releases by vote, and `grant` plain linear vesting.

use vstd::prelude::*;

pub mod address;
pub mod benchmarks;
pub mod codes;
pub mod contract;
pub mod grant;
pub mod laws;
pub mod lifecycle;
pub mod milestone;
pub mod optimized;
pub mod self_terminate;
pub mod settlement;

verus! {

/// The lifecycle state of a grant. A grant starts as `Proposed` or `Active`;
/// `Completed`, `Cancelled` and `SelfTerminated` are terminal.
#[derive(Clone, Copy, Debug, PartialEq, Eq, Structural)]
pub enum GrantStatus {
    Proposed,
    Active,
    Paused,
    Completed,
    Cancelled,
    SelfTerminated,
}

impl GrantStatus {
    /// Whether nothing leaves this state.
    pub open spec fn terminal(self) -> bool {
        self == GrantStatus::Completed || self == GrantStatus::Cancelled || self
            == GrantStatus::SelfTerminated
    }

    /// Whether nothing leaves this state.
    pub fn is_terminal(&self) -> (r: bool)
        ensures
            r == self.terminal(),
    {
        match self {
            GrantStatus::Completed | GrantStatus::Cancelled | GrantStatus::SelfTerminated => true,
            _ => false,
        }
    }
}

/// Why an operation on a milestone grant failed.
#[derive(Clone, Copy, Debug, PartialEq, Eq, Structural)]
pub enum GrantError {
    GrantNotFound,
    Unauthorized,
    InvalidAmount,
    MilestoneNotFound,
    AlreadyApproved,
    ExceedsTotalAmount,
    InvalidStatus,
    InvalidShares,
    NotCouncilMember,
    AlreadyVoted,
    VotingExpired,
    CliffNotPassed,
    InvalidGrantee,
}

} // verus!
