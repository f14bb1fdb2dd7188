//! What holds of a grant whatever is done to it: its books never exceed the
//! total, time and payouts only move forward, and a terminal state is final.

use vstd::prelude::*;

use crate::address::Address;
use crate::optimized::{lemma_mask_with, LedgerError};
use crate::settlement::{lemma_settle_keeps_invariant, settle_spec, Grant};
use crate::GrantStatus;

verus! {

/// An operation on a grant.
pub enum Operation {
    Settle,
    Withdraw { amount: i128 },
    Pause,
    Resume,
    Cancel,
    UpdateRate { new_rate: i128 },
    ProposeRateChange { new_rate: i128 },
    ApplyKpiMultiplier { multiplier: i128 },
    SlashInactive,
    SelfTerminate,
    SetFlags { flags_to_set: u32, flags_to_clear: u32 },
}

/// What `op` at `now` makes of `g`.
pub open spec fn step(g: Grant, op: Operation, now: u64) -> Result<Grant, LedgerError> {
    match op {
        Operation::Settle => settle_spec(g, now),
        Operation::Withdraw { amount } => g.withdraw_spec(amount, now),
        Operation::Pause => g.pause_spec(now),
        Operation::Resume => g.resume_spec(now),
        Operation::Cancel => g.cancel_spec(now),
        Operation::UpdateRate { new_rate } => g.update_rate_spec(new_rate, now),
        Operation::ProposeRateChange { new_rate } => g.propose_rate_change_spec(new_rate, now),
        Operation::ApplyKpiMultiplier { multiplier } => g.apply_kpi_multiplier_spec(
            multiplier,
            now,
        ),
        Operation::SlashInactive => g.slash_spec(now),
        Operation::SelfTerminate => g.self_terminate_spec(now),
        Operation::SetFlags { flags_to_set, flags_to_clear } => g.set_flags_spec(
            flags_to_set,
            flags_to_clear,
            now,
        ),
    }
}

/// The grant after `op` at `now`: an operation that fails changes nothing.
pub open spec fn after(g: Grant, op: Operation, now: u64) -> Grant {
    match step(g, op, now) {
        Ok(n) => n,
        Err(_) => g,
    }
}

/// The grant after a history of operations, each with its instant.
pub open spec fn after_all(g: Grant, history: Seq<(Operation, u64)>) -> Grant
    decreases history.len(),
{
    if history.len() == 0 {
        g
    } else {
        let last = history.last();
        after(after_all(g, history.drop_last()), last.0, last.1)
    }
}

/// Time and payouts only move forward from `before` to `after`, and the
/// recipient and the total stay.
pub open spec fn advances(before: Grant, after: Grant) -> bool {
    &&& after.last_update_ts >= before.last_update_ts
    &&& after.withdrawn >= before.withdrawn
    &&& after.total_amount == before.total_amount
    &&& after.recipient == before.recipient
}

proof fn lemma_scaled_rates(flow: int, pending: int, m: int)
    by (nonlinear_arith)
    requires
        0 <= flow,
        0 <= pending,
        m > 0,
    ensures
        flow * m >= 0,
        pending * m >= 0,
        pending > flow ==> pending * m > flow * m,
        pending == 0 ==> pending * m == 0,
{
}

/// A grant that was just created holds its invariant, with nothing accrued
/// and nothing paid.
pub proof fn lemma_created_holds_invariant(
    recipient: Address,
    total_amount: i128,
    flow_rate: i128,
    initial_status_mask: u32,
    now: u64,
)
    requires
        Grant::create_spec(recipient, total_amount, flow_rate, initial_status_mask, now) is Ok,
    ensures
        ({
            let g = Grant::create_spec(
                recipient,
                total_amount,
                flow_rate,
                initial_status_mask,
                now,
            )->Ok_0;
            g.wf() && g.status() == GrantStatus::Active && g.withdrawn == 0 && g.claimable == 0
        }),
{
}

/// Every operation keeps the invariant of a grant: what was withdrawn and what
/// is claimable are never negative and together never exceed the total.
pub proof fn lemma_step_keeps_invariant(g: Grant, op: Operation, now: u64)
    requires
        g.wf(),
    ensures
        after(g, op, now).wf(),
        after(g, op, now).withdrawn >= 0,
        after(g, op, now).claimable >= 0,
        after(g, op, now).withdrawn + after(g, op, now).claimable <= g.total_amount,
        advances(g, after(g, op, now)),
{
    lemma_settle_keeps_invariant(g, now);
    if settle_spec(g, now) is Ok {
        let s = settle_spec(g, now)->Ok_0;
        lemma_mask_with(s.status_mask, GrantStatus::Paused);
        lemma_mask_with(s.status_mask, GrantStatus::Active);
        lemma_mask_with(s.status_mask, GrantStatus::Cancelled);
        lemma_mask_with(s.status_mask, GrantStatus::SelfTerminated);
        lemma_mask_with(s.status_mask, GrantStatus::Completed);
        match op {
            Operation::ApplyKpiMultiplier { multiplier } => {
                if multiplier > 0 {
                    lemma_scaled_rates(s.flow_rate as int, s.pending_rate as int, multiplier as int);
                }
            },
            _ => {},
        }
    }
}

/// No operation lowers `last_update_ts` or what was withdrawn, and none
/// changes the recipient or the total.
pub proof fn lemma_step_advances(g: Grant, op: Operation, now: u64)
    requires
        g.wf(),
    ensures
        advances(g, after(g, op, now)),
{
    lemma_step_keeps_invariant(g, op, now);
}

/// Through any history of operations a grant keeps its invariant, and time
/// and payouts only move forward.
pub proof fn lemma_history_keeps_invariant(g: Grant, history: Seq<(Operation, u64)>)
    requires
        g.wf(),
    ensures
        after_all(g, history).wf(),
        after_all(g, history).withdrawn + after_all(g, history).claimable <= g.total_amount,
        advances(g, after_all(g, history)),
    decreases history.len(),
{
    if history.len() > 0 {
        lemma_history_keeps_invariant(g, history.drop_last());
        let last = history.last();
        lemma_step_keeps_invariant(after_all(g, history.drop_last()), last.0, last.1);
    }
}

/// A terminal state is final. No operation on a grant in a terminal state
/// changes its state or gives it a rate, and none changes what is claimable or
/// withdrawn, but for one: a withdrawal from a completed grant, which moves an
/// amount from claimable to withdrawn and leaves their sum alone.
pub proof fn lemma_terminal_lock(g: Grant, op: Operation, now: u64)
    requires
        g.wf(),
        g.status().terminal(),
    ensures
        after(g, op, now).status() == g.status(),
        after(g, op, now).flow_rate == 0,
        after(g, op, now).pending_rate == 0,
        after(g, op, now).withdrawn + after(g, op, now).claimable == g.withdrawn + g.claimable,
        !(op is Withdraw && g.status() == GrantStatus::Completed) ==> after(g, op, now).claimable
            == g.claimable && after(g, op, now).withdrawn == g.withdrawn,
{
    lemma_settle_keeps_invariant(g, now);
    if settle_spec(g, now) is Ok {
        let s = settle_spec(g, now)->Ok_0;
        lemma_mask_with(s.status_mask, GrantStatus::Completed);
    }
}

/// Through any history of operations a grant in a terminal state stays in it
/// without a rate, and the sum of what is claimable and withdrawn stays.
pub proof fn lemma_terminal_forever(g: Grant, history: Seq<(Operation, u64)>)
    requires
        g.wf(),
        g.status().terminal(),
    ensures
        after_all(g, history).status() == g.status(),
        after_all(g, history).flow_rate == 0,
        after_all(g, history).withdrawn + after_all(g, history).claimable == g.withdrawn
            + g.claimable,
    decreases history.len(),
{
    if history.len() > 0 {
        lemma_history_keeps_invariant(g, history.drop_last());
        lemma_terminal_forever(g, history.drop_last());
        let last = history.last();
        lemma_terminal_lock(after_all(g, history.drop_last()), last.0, last.1);
    }
}

} // verus!
