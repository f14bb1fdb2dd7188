//! Termination of a grant by its own recipient.

use vstd::prelude::*;

use crate::address::Address;
use crate::contract::{applied, GrantContract, Ledger, Transfer};
use crate::laws::{lemma_step_keeps_invariant, Operation};
use crate::lifecycle::Payout;
use crate::optimized::{
    has_flag, has_status, LedgerError, STATUS_ACTIVE, STATUS_CANCELLED, STATUS_COMPLETED, STATUS_PAUSED,
};
use crate::settlement::settle_spec;
use crate::GrantStatus;

verus! {

/// The recipient ended the grant.
pub const STATUS_SELF_TERMINATED: u32 = 0b100000000;

/// Why a grant cannot be ended by its recipient.
#[derive(Clone, Copy, Debug, PartialEq, Eq, Structural)]
pub enum SelfTerminateError {
    AlreadyTerminated,
    CannotTerminateCompleted,
    CannotTerminateCancelled,
    InsufficientBalance,
    TransferFailed,
}

/// Whether the recipient may end a grant with this mask: it is active or
/// paused, and neither completed, cancelled nor ended already.
pub open spec fn self_terminable(mask: u32) -> bool {
    &&& has_flag(mask, STATUS_ACTIVE) || has_flag(mask, STATUS_PAUSED)
    &&& !has_flag(mask, STATUS_COMPLETED)
    &&& !has_flag(mask, STATUS_CANCELLED)
    &&& !has_flag(mask, STATUS_SELF_TERMINATED)
}

/// Accepts every change of mask that does not set the self-terminated bit, and
/// one that sets it exactly when the current mask is `self_terminable`.
pub fn validate_self_terminate_transition(current_mask: u32, new_mask: u32) -> (r: Result<
    (),
    LedgerError,
>)
    ensures
        r is Ok <==> (has_flag(new_mask, STATUS_SELF_TERMINATED) ==> self_terminable(
            current_mask,
        )),
        r is Err ==> r == Err::<(), LedgerError>(LedgerError::InvalidStatusTransition),
{
    if has_status(new_mask, STATUS_SELF_TERMINATED) {
        if !has_status(current_mask, STATUS_ACTIVE) && !has_status(current_mask, STATUS_PAUSED) {
            return Err(LedgerError::InvalidStatusTransition);
        }
        if has_status(current_mask, STATUS_COMPLETED) || has_status(current_mask, STATUS_CANCELLED)
            || has_status(current_mask, STATUS_SELF_TERMINATED) {
            return Err(LedgerError::InvalidStatusTransition);
        }
    }
    Ok(())
}

/// Whether the self-terminated bit is set.
pub fn is_self_terminated(status_mask: u32) -> (r: bool)
    ensures
        r == has_flag(status_mask, STATUS_SELF_TERMINATED),
{
    has_status(status_mask, STATUS_SELF_TERMINATED)
}

/// Whether the recipient may end a grant with this mask.
pub fn can_be_self_terminated(status_mask: u32) -> (r: bool)
    ensures
        r == self_terminable(status_mask),
{
    (has_status(status_mask, STATUS_ACTIVE) || has_status(status_mask, STATUS_PAUSED))
        && !has_status(status_mask, STATUS_COMPLETED) && !has_status(status_mask, STATUS_CANCELLED)
        && !has_status(status_mask, STATUS_SELF_TERMINATED)
}

/// What the end of a grant by its recipient came to.
#[derive(Clone, Debug, PartialEq, Eq)]
pub struct SelfTerminateResult {
    /// The grant that was ended.
    pub grant_id: u64,
    /// What the recipient was paid at the end.
    pub final_claimable: i128,
    /// What went back to the one who funds the grants.
    pub refunded_amount: i128,
    /// The instant of the end.
    pub terminated_at: u64,
    /// Why the grant ended.
    pub termination_reason: String,
}

/// The reason that every self-termination carries.
pub open spec fn termination_reason() -> Seq<char> {
    "Self-terminated by grantee"@
}

/// The payments that the end of a grant asks for, in their order: to the
/// recipient what was claimable, then to the funder what had not accrued.
/// An amount of zero is not paid.
pub open spec fn payments_due(payout: Payout, recipient: Address, funder: Address) -> Seq<
    Transfer,
> {
    let to_recipient = if payout.final_claimable > 0 {
        seq![Transfer { to: recipient, amount: payout.final_claimable }]
    } else {
        Seq::<Transfer>::empty()
    };
    let to_funder = if payout.refunded_amount > 0 {
        seq![Transfer { to: funder, amount: payout.refunded_amount }]
    } else {
        Seq::<Transfer>::empty()
    };
    to_recipient + to_funder
}

/// The payments to make when a grant ends with `payout`: its claimable amount
/// to `recipient`, its refund to `funder`, each only where it is above zero.
pub fn termination_payments(payout: &Payout, recipient: Address, funder: Address) -> (r: Vec<
    Transfer,
>)
    ensures
        r@ == payments_due(*payout, recipient, funder),
{
    let mut payments: Vec<Transfer> = Vec::new();
    if payout.final_claimable > 0 {
        payments.push(Transfer { to: recipient, amount: payout.final_claimable });
    }
    if payout.refunded_amount > 0 {
        payments.push(Transfer { to: funder, amount: payout.refunded_amount });
    }
    proof {
        assert(payments@ =~= payments_due(*payout, recipient, funder));
    }
    payments
}

impl Ledger {
    /// The ledger after `self_terminate`: the grant must be one that can be
    /// ended, and `caller` its recipient. Where something is to be refunded,
    /// the ledger must have its admin, who receives it.
    pub open spec fn self_terminate_spec(self, caller: Address, id: u64, now: u64) -> Result<
        Ledger,
        LedgerError,
    > {
        match self.lookup(id) {
            Err(e) => Err(e),
            Ok(g) => if g.termination_bar() is Some {
                Err(g.termination_bar()->0)
            } else if caller != g.recipient {
                Err(LedgerError::NotAuthorized)
            } else {
                match g.self_terminate_spec(now) {
                    Err(e) => Err(e),
                    Ok(ended) => if self.config is None && settle_spec(g, now)->Ok_0.remaining()
                        > 0 {
                        Err(LedgerError::NotInitialized)
                    } else {
                        Ok(self.put(id, ended))
                    },
                }
            },
        }
    }
}

impl GrantContract {
    /// Ends the grant of `grant_id` for its recipient `caller` at `now`, and
    /// returns what the end came to and the payments to make: what is
    /// claimable then to the recipient, what has not accrued to the admin.
    pub fn self_terminate(&mut self, caller: Address, grant_id: u64, now: u64) -> (r: Result<
        (SelfTerminateResult, Vec<Transfer>),
        LedgerError,
    >)
        requires
            old(self).wf(),
        ensures
            final(self).wf(),
            applied(
                old(self)@,
                final(self)@,
                r,
                old(self)@.self_terminate_spec(caller, grant_id, now),
            ),
            r is Ok ==> {
                let settled = old(self)@.preview(grant_id, now)->Ok_0;
                let result = r->Ok_0.0;
                &&& result.grant_id == grant_id
                &&& result.final_claimable == settled.claimable
                &&& result.refunded_amount == settled.remaining()
                &&& result.terminated_at == now
                &&& result.termination_reason@ == termination_reason()
                &&& r->Ok_0.1@ == payments_due(
                    settled.payout()->0,
                    caller,
                    old(self)@.config->0.admin,
                )
            },
    {
        let mut grant = self.read_grant(grant_id)?;
        match grant.get_status() {
            GrantStatus::SelfTerminated => {
                return Err(LedgerError::SelfTerminate(SelfTerminateError::AlreadyTerminated));
            },
            GrantStatus::Completed => {
                return Err(LedgerError::SelfTerminate(SelfTerminateError::CannotTerminateCompleted));
            },
            GrantStatus::Cancelled => {
                return Err(LedgerError::SelfTerminate(SelfTerminateError::CannotTerminateCancelled));
            },
            GrantStatus::Proposed => {
                return Err(LedgerError::InvalidState);
            },
            _ => {},
        }
        if !caller.same(&grant.recipient) {
            return Err(LedgerError::NotAuthorized);
        }
        let payout = grant.self_terminate(now)?;
        let funder = match self.config() {
            Some(config) => config.admin,
            None => {
                if payout.refunded_amount > 0 {
                    return Err(LedgerError::NotInitialized);
                }
                caller
            },
        };
        proof {
            lemma_step_keeps_invariant(old(self)@.grants[grant_id], Operation::SelfTerminate, now);
        }
        self.write_grant(grant_id, grant);
        let payments = termination_payments(&payout, caller, funder);
        proof {
            assert(payments@ =~= payments_due(payout, caller, old(self)@.config->0.admin));
        }
        Ok(
            (
                SelfTerminateResult {
                    grant_id,
                    final_claimable: payout.final_claimable,
                    refunded_amount: payout.refunded_amount,
                    terminated_at: now,
                    termination_reason: "Self-terminated by grantee".to_owned(),
                },
                payments,
            ),
        )
    }

    /// What the books of the grant of `grant_id` show of its end: what is
    /// still claimable, what is neither claimable nor withdrawn, and the
    /// instant of the end. A grant that its recipient did not end has no such
    /// details.
    pub fn get_termination_details(&self, grant_id: u64) -> (r: Result<SelfTerminateResult, LedgerError>)
        ensures
            match self@.lookup(grant_id) {
                Err(e) => r is Err && r->Err_0 == e,
                Ok(g) => match g.termination_details_spec() {
                    Err(e) => r is Err && r->Err_0 == e,
                    Ok(p) => {
                        &&& r is Ok
                        &&& r->Ok_0.grant_id == grant_id
                        &&& r->Ok_0.final_claimable == p.final_claimable
                        &&& r->Ok_0.refunded_amount == p.refunded_amount
                        &&& r->Ok_0.terminated_at == g.rate_updated_at
                        &&& r->Ok_0.termination_reason@ == termination_reason()
                    },
                },
            },
    {
        let grant = self.read_grant(grant_id)?;
        let details = grant.termination_details()?;
        Ok(
            SelfTerminateResult {
                grant_id,
                final_claimable: details.final_claimable,
                refunded_amount: details.refunded_amount,
                terminated_at: grant.rate_updated_at,
                termination_reason: "Self-terminated by grantee".to_owned(),
            },
        )
    }

    /// Whether the recipient may end the grant of `grant_id` as it is stored.
    pub fn can_self_terminate(&self, grant_id: u64) -> (r: Result<bool, LedgerError>)
        ensures
            match self@.lookup(grant_id) {
                Ok(g) => r == Ok::<bool, LedgerError>(self_terminable(g.status_mask)),
                Err(e) => r == Err::<bool, LedgerError>(e),
            },
    {
        let grant = self.read_grant(grant_id)?;
        Ok(can_be_self_terminated(grant.status_mask))
    }
}

} // verus!
