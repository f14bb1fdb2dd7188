//! The status mask of a streaming grant: the lifecycle state and the options
//! of a grant packed into a `u32`, and the errors of the streaming ledger.

use vstd::prelude::*;

use crate::self_terminate::{SelfTerminateError, STATUS_SELF_TERMINATED};
use crate::GrantStatus;

verus! {

/// The grant accrues.
pub const STATUS_ACTIVE: u32 = 0b00000001;

/// Accrual is frozen until the grant is resumed.
pub const STATUS_PAUSED: u32 = 0b00000010;

/// The whole amount has accrued.
pub const STATUS_COMPLETED: u32 = 0b00000100;

/// The grant was cancelled.
pub const STATUS_CANCELLED: u32 = 0b00001000;

/// The grant can be revoked.
pub const STATUS_REVOCABLE: u32 = 0b00010000;

/// The grant releases by milestone.
pub const STATUS_MILESTONE_BASED: u32 = 0b00100000;

/// The grant renews itself.
pub const STATUS_AUTO_RENEW: u32 = 0b01000000;

/// The grant is paused by an emergency.
pub const STATUS_EMERGENCY_PAUSE: u32 = 0b10000000;

/// The bits of a mask that hold the lifecycle state; the others are options of
/// the grant that no lifecycle operation touches.
pub const LIFECYCLE_MASK: u32 = 0b100001111;

/// Why an operation on the ledger failed. A failed operation changes nothing.
#[derive(Clone, Copy, Debug, PartialEq, Eq, Structural)]
pub enum LedgerError {
    NotInitialized,
    AlreadyInitialized,
    NotAuthorized,
    GrantNotFound,
    GrantAlreadyExists,
    InvalidRate,
    InvalidAmount,
    InvalidState,
    MathOverflow,
    InvalidStatusTransition,
    GrantNotInactive,
    RescueWouldViolateAllocated,
    SelfTerminate(SelfTerminateError),
}

/// Whether `mask` and `flag` share a bit.
pub open spec fn has_flag(mask: u32, flag: u32) -> bool {
    mask & flag != 0
}

/// Whether any bit of `flag` is set in `status_mask`.
pub fn has_status(status_mask: u32, flag: u32) -> (r: bool)
    ensures
        r == has_flag(status_mask, flag),
{
    (status_mask & flag) != 0
}

/// `status_mask` with the bits of `flag` set.
pub fn set_status(status_mask: u32, flag: u32) -> (r: u32)
    ensures
        r == status_mask | flag,
{
    status_mask | flag
}

/// `status_mask` with the bits of `flag` cleared.
pub fn clear_status(status_mask: u32, flag: u32) -> (r: u32)
    ensures
        r == status_mask & !flag,
{
    status_mask & !flag
}

/// `status_mask` with the bits of `flag` flipped.
pub fn toggle_status(status_mask: u32, flag: u32) -> (r: u32)
    ensures
        r == status_mask ^ flag,
{
    status_mask ^ flag
}

/// The changes of mask that the ledger accepts. Nothing leaves a completed or
/// cancelled mask. Otherwise a mask may become cancelled from anywhere, paused
/// from active, active from paused, completed from active or paused, and the
/// empty mask may become active.
pub open spec fn transition_allowed(current: u32, new: u32) -> bool {
    &&& !has_flag(current, STATUS_COMPLETED)
    &&& !has_flag(current, STATUS_CANCELLED)
    &&& {
        ||| has_flag(new, STATUS_CANCELLED)
        ||| (has_flag(current, STATUS_ACTIVE) && has_flag(new, STATUS_PAUSED) && !has_flag(
            new,
            STATUS_ACTIVE,
        ))
        ||| (has_flag(current, STATUS_PAUSED) && has_flag(new, STATUS_ACTIVE) && !has_flag(
            new,
            STATUS_PAUSED,
        ))
        ||| ((has_flag(current, STATUS_ACTIVE) || has_flag(current, STATUS_PAUSED)) && has_flag(
            new,
            STATUS_COMPLETED,
        ) && !has_flag(new, STATUS_ACTIVE) && !has_flag(new, STATUS_PAUSED))
        ||| (current == 0 && has_flag(new, STATUS_ACTIVE) && !has_flag(new, STATUS_PAUSED)
            && !has_flag(new, STATUS_COMPLETED))
    }
}

/// Accepts the change from `current_mask` to `new_mask` exactly when
/// `transition_allowed` holds of it.
pub fn validate_status_transition(current_mask: u32, new_mask: u32) -> (r: Result<(), LedgerError>)
    ensures
        r is Ok <==> transition_allowed(current_mask, new_mask),
        r is Err ==> r == Err::<(), LedgerError>(LedgerError::InvalidStatusTransition),
{
    if has_status(current_mask, STATUS_COMPLETED) || has_status(current_mask, STATUS_CANCELLED) {
        return Err(LedgerError::InvalidStatusTransition);
    }
    let to_active = has_status(new_mask, STATUS_ACTIVE);
    let to_paused = has_status(new_mask, STATUS_PAUSED);
    let to_completed = has_status(new_mask, STATUS_COMPLETED);
    let from_active = has_status(current_mask, STATUS_ACTIVE);
    let from_paused = has_status(current_mask, STATUS_PAUSED);
    if has_status(new_mask, STATUS_CANCELLED) {
        Ok(())
    } else if from_active && to_paused && !to_active {
        Ok(())
    } else if from_paused && to_active && !to_paused {
        Ok(())
    } else if (from_active || from_paused) && to_completed && !to_active && !to_paused {
        Ok(())
    } else if current_mask == 0 && to_active && !to_paused && !to_completed {
        Ok(())
    } else {
        Err(LedgerError::InvalidStatusTransition)
    }
}

/// The lifecycle state that a mask stands for: the last that is set of
/// active, paused, completed, cancelled and self-terminated, and `Proposed`
/// where none is.
pub open spec fn status_of(mask: u32) -> GrantStatus {
    if has_flag(mask, STATUS_SELF_TERMINATED) {
        GrantStatus::SelfTerminated
    } else if has_flag(mask, STATUS_CANCELLED) {
        GrantStatus::Cancelled
    } else if has_flag(mask, STATUS_COMPLETED) {
        GrantStatus::Completed
    } else if has_flag(mask, STATUS_PAUSED) {
        GrantStatus::Paused
    } else if has_flag(mask, STATUS_ACTIVE) {
        GrantStatus::Active
    } else {
        GrantStatus::Proposed
    }
}

/// The bit that stands for a lifecycle state, 0 for `Proposed`.
pub open spec fn flag_of(status: GrantStatus) -> u32 {
    match status {
        GrantStatus::Proposed => 0,
        GrantStatus::Active => STATUS_ACTIVE,
        GrantStatus::Paused => STATUS_PAUSED,
        GrantStatus::Completed => STATUS_COMPLETED,
        GrantStatus::Cancelled => STATUS_CANCELLED,
        GrantStatus::SelfTerminated => STATUS_SELF_TERMINATED,
    }
}

/// A mask holds one lifecycle state: at most one lifecycle bit is set.
pub open spec fn mask_wf(mask: u32) -> bool {
    mask & LIFECYCLE_MASK == flag_of(status_of(mask))
}

/// `mask` moved to the lifecycle state `status`, its options kept.
pub open spec fn mask_with(mask: u32, status: GrantStatus) -> u32 {
    (mask & !LIFECYCLE_MASK) | flag_of(status)
}

/// A mask moved to a state holds that state alone and keeps its options.
pub proof fn lemma_mask_with(mask: u32, status: GrantStatus)
    ensures
        status_of(mask_with(mask, status)) == status,
        mask_wf(mask_with(mask, status)),
        mask_with(mask, status) & !LIFECYCLE_MASK == mask & !LIFECYCLE_MASK,
        mask_wf(mask) && status_of(mask) == status ==> mask_with(mask, status) == mask,
{
    let f = flag_of(status);
    let m = (mask & !0b100001111u32) | f;
    assert(f == 0 || f == 1 || f == 2 || f == 4 || f == 8 || f == 0x100);
    assert(f == 0 || f == 1 || f == 2 || f == 4 || f == 8 || f == 0x100 ==> {
        &&& m & 0b100001111u32 == f
        &&& m & !0b100001111u32 == mask & !0b100001111u32
        &&& (m & 1 != 0) == (f == 1)
        &&& (m & 2 != 0) == (f == 2)
        &&& (m & 4 != 0) == (f == 4)
        &&& (m & 8 != 0) == (f == 8)
        &&& (m & 0x100 != 0) == (f == 0x100)
        &&& (mask & 0b100001111u32 == f ==> m == mask)
    }) by (bit_vector)
        requires
            m == (mask & !0b100001111u32) | f,
    ;
}

/// The lifecycle state that `status_mask` stands for.
pub fn status_from_mask(status_mask: u32) -> (r: GrantStatus)
    ensures
        r == status_of(status_mask),
{
    if has_status(status_mask, STATUS_SELF_TERMINATED) {
        GrantStatus::SelfTerminated
    } else if has_status(status_mask, STATUS_CANCELLED) {
        GrantStatus::Cancelled
    } else if has_status(status_mask, STATUS_COMPLETED) {
        GrantStatus::Completed
    } else if has_status(status_mask, STATUS_PAUSED) {
        GrantStatus::Paused
    } else if has_status(status_mask, STATUS_ACTIVE) {
        GrantStatus::Active
    } else {
        GrantStatus::Proposed
    }
}

/// The bit that stands for `status`, 0 for `Proposed`.
pub fn status_flag(status: GrantStatus) -> (r: u32)
    ensures
        r == flag_of(status),
{
    match status {
        GrantStatus::Proposed => 0,
        GrantStatus::Active => STATUS_ACTIVE,
        GrantStatus::Paused => STATUS_PAUSED,
        GrantStatus::Completed => STATUS_COMPLETED,
        GrantStatus::Cancelled => STATUS_CANCELLED,
        GrantStatus::SelfTerminated => STATUS_SELF_TERMINATED,
    }
}

/// `status_mask` moved to the lifecycle state `status`: its lifecycle bits
/// cleared, the bit of `status` set, its options kept.
pub fn with_status(status_mask: u32, status: GrantStatus) -> (r: u32)
    ensures
        r == mask_with(status_mask, status),
{
    set_status(clear_status(status_mask, LIFECYCLE_MASK), status_flag(status))
}

/// Whether `status_mask` holds one lifecycle state.
pub fn mask_is_wf(status_mask: u32) -> (r: bool)
    ensures
        r == mask_wf(status_mask),
{
    status_flag(status_from_mask(status_mask)) == status_mask & LIFECYCLE_MASK
}

} // verus!
