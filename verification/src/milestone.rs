//! Grants that release by milestone: a council votes on each milestone, and
//! the grantees share what is released by basis points.

use vstd::prelude::*;

use crate::address::Address;
use crate::{GrantError, GrantStatus};

verus! {

/// The basis points that make the whole of a grant.
pub const FULL_SHARE: u32 = 10000;

/// The time, in seconds, that a council has to vote once approval of a
/// milestone is proposed (7 days).
pub const DEFAULT_VOTING_PERIOD: u64 = 604_800;

/// The part of a grant that goes to one grantee.
#[derive(Clone, Copy, Debug, PartialEq, Eq)]
pub struct GranteeShare {
    pub grantee: Address,
    /// The part in basis points: 10000 is the whole.
    pub basis_points: u32,
}

/// A grant that releases by milestone.
#[derive(Debug, PartialEq, Eq)]
pub struct Grant {
    /// Who funds and steers the grant.
    pub admin: Address,
    /// Who receives, each with a share; no grantee is listed twice.
    pub grantees: Vec<GranteeShare>,
    pub total_amount: u128,
    /// What approved milestones and withdrawals have released.
    pub released_amount: u128,
    pub token_address: Address,
    pub created_at: u64,
    /// The instant before which nothing can be withdrawn; 0 for none.
    pub cliff_end: u64,
    pub status: GrantStatus,
    /// Who votes on milestones.
    pub council_members: Vec<Address>,
    /// The votes in favour that approve a milestone.
    pub voting_threshold: u32,
    /// The amount per second that streams besides the milestones.
    pub flow_rate: u128,
    /// The instant up to which the stream is settled.
    pub last_settled_at: u64,
}

/// A part of a grant that is released once the council approves it.
#[derive(Debug, PartialEq, Eq)]
pub struct Milestone {
    pub amount: u128,
    pub description: String,
    pub approved: bool,
    pub approved_at: Option<u64>,
    pub votes_for: u32,
    pub votes_against: u32,
    /// The last instant at which a vote counts.
    pub voting_deadline: u64,
}

/// Tokens that the host is to move into the contract once a milestone is
/// approved.
#[derive(Clone, Copy, Debug, PartialEq, Eq)]
pub struct Funding {
    pub token: Address,
    /// Who pays: the admin of the grant.
    pub from: Address,
    pub amount: u128,
}

/// The sum of the shares.
pub open spec fn total_shares(shares: Seq<GranteeShare>) -> int
    decreases shares.len(),
{
    if shares.len() == 0 {
        0
    } else {
        total_shares(shares.drop_last()) + shares.last().basis_points
    }
}

/// The share of `who`: that of the first entry that names it.
pub open spec fn share_of(shares: Seq<GranteeShare>, who: Address) -> Option<u32>
    decreases shares.len(),
{
    if shares.len() == 0 {
        None
    } else if shares[0].grantee == who {
        Some(shares[0].basis_points)
    } else {
        share_of(shares.drop_first(), who)
    }
}

/// Whether no grantee is listed twice.
pub open spec fn distinct_grantees(shares: Seq<GranteeShare>) -> bool {
    forall|i: int, j: int|
        0 <= i < shares.len() && 0 <= j < shares.len() && i != j ==> shares[i].grantee
            != shares[j].grantee
}

/// What a grantee with `basis_points` is entitled to of `total`, rounded
/// down.
pub open spec fn entitlement(total: u128, basis_points: u32) -> int {
    (total * basis_points) / (FULL_SHARE as int)
}

/// What is left of `entitled` once `already_withdrawn` is taken off.
pub open spec fn available(entitled: int, already_withdrawn: u128) -> int {
    if entitled > already_withdrawn {
        entitled - already_withdrawn
    } else {
        0
    }
}

/// The sum of the shares, or `None` where it is above `limit`.
fn sum_shares(shares: &Vec<GranteeShare>, limit: u32) -> (r: Option<u32>)
    ensures
        match r {
            Some(s) => s == total_shares(shares@) && s <= limit,
            None => total_shares(shares@) > limit,
        },
{
    let mut sum: u32 = 0;
    let mut i: usize = 0;
    while i < shares.len()
        invariant
            i <= shares.len(),
            sum == total_shares(shares@.take(i as int)),
            sum <= limit,
        decreases shares.len() - i,
    {
        proof {
            assert(shares@.take(i + 1).drop_last() == shares@.take(i as int));
            lemma_total_shares_grows(shares@, i + 1);
        }
        let share = shares[i].basis_points;
        if share > limit - sum {
            return None;
        }
        sum = sum + share;
        i += 1;
    }
    proof {
        assert(shares@.take(i as int) == shares@);
    }
    Some(sum)
}

proof fn lemma_total_shares_grows(shares: Seq<GranteeShare>, k: int)
    requires
        0 <= k <= shares.len(),
    ensures
        0 <= total_shares(shares.take(k)) <= total_shares(shares),
    decreases shares.len() - k,
{
    if k < shares.len() {
        lemma_total_shares_grows(shares, k + 1);
        assert(shares.take(k + 1).drop_last() == shares.take(k));
        lemma_total_shares_not_negative(shares.take(k));
    } else {
        assert(shares.take(k) == shares);
        lemma_total_shares_not_negative(shares);
    }
}

proof fn lemma_total_shares_not_negative(shares: Seq<GranteeShare>)
    ensures
        0 <= total_shares(shares),
    decreases shares.len(),
{
    if shares.len() > 0 {
        lemma_total_shares_not_negative(shares.drop_last());
    }
}

/// The share of `who` among `shares`, if it is a grantee.
pub fn find_share(shares: &Vec<GranteeShare>, who: &Address) -> (r: Option<u32>)
    ensures
        r == share_of(shares@, *who),
{
    let mut i: usize = 0;
    proof {
        assert(shares@.skip(0) == shares@);
    }
    while i < shares.len()
        invariant
            i <= shares.len(),
            share_of(shares@, *who) == share_of(shares@.skip(i as int), *who),
        decreases shares.len() - i,
    {
        proof {
            assert(shares@.skip(i as int).drop_first() == shares@.skip(i + 1));
        }
        if shares[i].grantee.same(who) {
            return Some(shares[i].basis_points);
        }
        i += 1;
    }
    None
}

/// Whether `who` is among `members`.
pub fn is_member(members: &Vec<Address>, who: &Address) -> (r: bool)
    ensures
        r == members@.contains(*who),
{
    let mut i: usize = 0;
    while i < members.len()
        invariant
            i <= members.len(),
            forall|j: int| 0 <= j < i ==> members@[j] != *who,
        decreases members.len() - i,
    {
        if members[i].same(who) {
            return true;
        }
        i += 1;
    }
    false
}

/// Whether no grantee is listed twice among `shares`.
pub fn has_distinct_grantees(shares: &Vec<GranteeShare>) -> (r: bool)
    ensures
        r == distinct_grantees(shares@),
{
    let mut i: usize = 0;
    while i < shares.len()
        invariant
            i <= shares.len(),
            forall|a: int, b: int|
                0 <= a < i && 0 <= b < shares.len() && a != b ==> shares@[a].grantee
                    != shares@[b].grantee,
        decreases shares.len() - i,
    {
        let mut j: usize = 0;
        while j < shares.len()
            invariant
                i < shares.len(),
                j <= shares.len(),
                forall|b: int| 0 <= b < j && b != i ==> shares@[i as int].grantee != shares@[b].grantee,
            decreases shares.len() - j,
        {
            if j != i && shares[i].grantee.same(&shares[j].grantee) {
                return false;
            }
            j += 1;
        }
        i += 1;
    }
    true
}

proof fn lemma_entitlement(total: int, share: int)
    requires
        0 <= total,
        0 <= share,
    ensures
        (total / 10000) * share + ((total % 10000) * share) / 10000 == (total * share) / 10000,
        0 <= (total % 10000) * share <= 9999 * share,
        0 <= (total / 10000) * share,
        share <= 10000 ==> (total * share) / 10000 <= total,
{
    let whole = total / 10000;
    let rem = total % 10000;
    assert(0 <= whole * share && 0 <= rem * share <= 9999 * share) by (nonlinear_arith)
        requires
            0 <= whole,
            0 <= share,
            0 <= rem <= 9999,
    ;
    assert(total * share == rem * share + (whole * share) * 10000) by (nonlinear_arith)
        requires
            total == 10000 * whole + rem,
    ;
    vstd::arithmetic::div_mod::lemma_hoist_over_denominator(rem * share, whole * share, 10000);
    if share <= 10000 {
        assert(total * share <= total * 10000) by (nonlinear_arith)
            requires
                0 <= total,
                0 <= share <= 10000,
        ;
    }
}

/// What a grantee with `basis_points` is entitled to of `total`, or `None`
/// where that leaves `u128`, which no share up to the whole does.
pub fn compute_entitlement(total: u128, basis_points: u32) -> (r: Option<u128>)
    ensures
        match r {
            Some(v) => v == entitlement(total, basis_points),
            None => entitlement(total, basis_points) > u128::MAX,
        },
        basis_points <= FULL_SHARE ==> r is Some && r->0 <= total,
{
    proof {
        lemma_entitlement(total as int, basis_points as int);
    }
    let share = basis_points as u128;
    let whole = match (total / 10000).checked_mul(share) {
        Some(v) => v,
        None => {
            return None;
        },
    };
    let part = ((total % 10000) * share) / 10000;
    whole.checked_add(part)
}

/// The contract of the milestone grants. Each function takes the records that
/// the host has stored and returns what the host is to store and to pay.
pub struct GrantContract;

impl Grant {
    /// Why `create_grant` makes no grant, if so: only the admin creates one,
    /// for an amount above zero, with shares that make the whole, a threshold
    /// that the council can reach, and no grantee listed twice.
    pub open spec fn creation_bar(
        caller: Address,
        admin: Address,
        grantees: Seq<GranteeShare>,
        total_amount: u128,
        council_members: Seq<Address>,
        voting_threshold: u32,
    ) -> Option<GrantError> {
        if caller != admin {
            Some(GrantError::Unauthorized)
        } else if total_amount == 0 {
            Some(GrantError::InvalidAmount)
        } else if total_shares(grantees) != FULL_SHARE {
            Some(GrantError::InvalidShares)
        } else if voting_threshold == 0 || voting_threshold > council_members.len() {
            Some(GrantError::InvalidAmount)
        } else if !distinct_grantees(grantees) {
            Some(GrantError::InvalidGrantee)
        } else {
            None
        }
    }

    /// Whether `now` is before the end of the cliff.
    pub open spec fn in_cliff(self, now: u64) -> bool {
        self.cliff_end > 0 && now < self.cliff_end
    }

    /// What `who` can withdraw at `now`, having withdrawn
    /// `already_withdrawn`: what is left of its entitlement, and nothing for
    /// one that is no grantee or during the cliff.
    pub open spec fn withdrawable(self, who: Address, already_withdrawn: u128, now: u64) -> int {
        match share_of(self.grantees@, who) {
            None => 0,
            Some(share) => if self.in_cliff(now) {
                0
            } else {
                available(entitlement(self.total_amount, share), already_withdrawn)
            },
        }
    }

    /// The grant with `amount` more released, completed where that is the
    /// total.
    pub open spec fn released(self, amount: u128) -> Grant {
        let released_amount = (self.released_amount + amount) as u128;
        Grant {
            released_amount,
            status: if released_amount == self.total_amount {
                GrantStatus::Completed
            } else {
                self.status
            },
            ..self
        }
    }

    /// The seconds of the stream that are not settled at `now`.
    pub open spec fn unsettled(self, now: u64) -> int {
        if now > self.last_settled_at {
            now - self.last_settled_at
        } else {
            0
        }
    }

    /// What the stream owes at `now`, held to `u128`.
    pub open spec fn owed(self, now: u64) -> int {
        if self.flow_rate * self.unsettled(now) > u128::MAX {
            u128::MAX as int
        } else {
            self.flow_rate * self.unsettled(now)
        }
    }

    /// The rate after a cut by `reduction_percentage` percent, rounded down.
    pub open spec fn reduced_rate(self, reduction_percentage: u32) -> int {
        let scaled = self.flow_rate * (100 - reduction_percentage);
        if scaled > u128::MAX {
            (u128::MAX / 100) as int
        } else {
            scaled / 100
        }
    }
}

impl Milestone {
    /// The milestone with one more vote counted.
    pub open spec fn tallied(self, approve: bool) -> Milestone {
        if approve {
            Milestone { votes_for: (self.votes_for + 1) as u32, ..self }
        } else {
            Milestone { votes_against: (self.votes_against + 1) as u32, ..self }
        }
    }
}

/// Why a vote does not count, if so: the voter is no member of the council,
/// the milestone is approved already, the deadline has passed, or the voter
/// has voted before.
pub open spec fn vote_bar(
    grant: Grant,
    milestone: Milestone,
    caller: Address,
    has_voted: bool,
    now: u64,
) -> Option<GrantError> {
    if !grant.council_members@.contains(caller) {
        Some(GrantError::NotCouncilMember)
    } else if milestone.approved {
        Some(GrantError::AlreadyApproved)
    } else if now > milestone.voting_deadline {
        Some(GrantError::VotingExpired)
    } else if has_voted {
        Some(GrantError::AlreadyVoted)
    } else {
        None
    }
}

/// The grant and the milestone after a vote, or why the vote fails. A vote
/// that counts is tallied. Once the votes in favour reach the threshold the
/// milestone is approved and its amount released, which fails where that takes
/// the grant above its total.
pub open spec fn vote_spec(
    grant: Grant,
    milestone: Milestone,
    caller: Address,
    has_voted: bool,
    approve: bool,
    now: u64,
) -> Result<(Grant, Milestone), GrantError> {
    match vote_bar(grant, milestone, caller, has_voted, now) {
        Some(e) => Err(e),
        None => {
            let tallied = milestone.tallied(approve);
            if tallied.votes_for < grant.voting_threshold {
                Ok((grant, tallied))
            } else if grant.released_amount + milestone.amount > grant.total_amount {
                Err(GrantError::ExceedsTotalAmount)
            } else {
                Ok(
                    (
                        grant.released(milestone.amount),
                        Milestone { approved: true, approved_at: Some(now), ..tallied },
                    ),
                )
            }
        },
    }
}

impl GrantContract {
    /// Makes a proposed grant for the admin `caller`.
    pub fn create_grant(
        caller: Address,
        admin: Address,
        grantees: Vec<GranteeShare>,
        total_amount: u128,
        token_address: Address,
        cliff_end: u64,
        council_members: Vec<Address>,
        voting_threshold: u32,
        now: u64,
    ) -> (r: Result<Grant, GrantError>)
        ensures
            match Grant::creation_bar(
                caller,
                admin,
                grantees@,
                total_amount,
                council_members@,
                voting_threshold,
            ) {
                Some(e) => r is Err && r->Err_0 == e,
                None => r is Ok && r->Ok_0 == (Grant {
                    admin,
                    grantees,
                    total_amount,
                    released_amount: 0,
                    token_address,
                    created_at: now,
                    cliff_end,
                    status: GrantStatus::Proposed,
                    council_members,
                    voting_threshold,
                    flow_rate: 0,
                    last_settled_at: now,
                }),
            },
    {
        if !caller.same(&admin) {
            return Err(GrantError::Unauthorized);
        }
        if total_amount == 0 {
            return Err(GrantError::InvalidAmount);
        }
        match sum_shares(&grantees, FULL_SHARE) {
            Some(s) => {
                if s != FULL_SHARE {
                    return Err(GrantError::InvalidShares);
                }
            },
            None => {
                return Err(GrantError::InvalidShares);
            },
        }
        if voting_threshold == 0 || voting_threshold as usize > council_members.len() {
            return Err(GrantError::InvalidAmount);
        }
        if !has_distinct_grantees(&grantees) {
            return Err(GrantError::InvalidGrantee);
        }
        Ok(
            Grant {
                admin,
                grantees,
                total_amount,
                released_amount: 0,
                token_address,
                created_at: now,
                cliff_end,
                status: GrantStatus::Proposed,
                council_members,
                voting_threshold,
                flow_rate: 0,
                last_settled_at: now,
            },
        )
    }

    /// Makes a milestone of `amount` for the admin `caller`, open to votes
    /// for `voting_period` seconds from `now`.
    pub fn add_milestone(
        grant: &Grant,
        caller: Address,
        amount: u128,
        description: String,
        voting_period: u64,
        now: u64,
    ) -> (r: Result<Milestone, GrantError>)
        requires
            now + voting_period <= u64::MAX,
        ensures
            caller != grant.admin ==> r is Err && r->Err_0 == GrantError::Unauthorized,
            caller == grant.admin && amount == 0 ==> r is Err && r->Err_0
                == GrantError::InvalidAmount,
            caller == grant.admin && amount != 0 ==> r is Ok && r->Ok_0 == (Milestone {
                amount,
                description,
                approved: false,
                approved_at: None,
                votes_for: 0,
                votes_against: 0,
                voting_deadline: (now + voting_period) as u64,
            }),
    {
        if !caller.same(&grant.admin) {
            return Err(GrantError::Unauthorized);
        }
        if amount == 0 {
            return Err(GrantError::InvalidAmount);
        }
        Ok(
            Milestone {
                amount,
                description,
                approved: false,
                approved_at: None,
                votes_for: 0,
                votes_against: 0,
                voting_deadline: now + voting_period,
            },
        )
    }

    /// Opens a milestone that is not approved yet to a new vote for the admin
    /// `caller`: the tally starts at zero and the deadline is seven days from
    /// `now`.
    pub fn propose_milestone_approval(
        grant: &Grant,
        caller: Address,
        milestone: &mut Milestone,
        now: u64,
    ) -> (r: Result<(), GrantError>)
        requires
            now + DEFAULT_VOTING_PERIOD <= u64::MAX,
        ensures
            caller != grant.admin ==> r is Err && r->Err_0 == GrantError::Unauthorized,
            caller == grant.admin && old(milestone).approved ==> r is Err && r->Err_0
                == GrantError::AlreadyApproved,
            r is Err ==> *final(milestone) == *old(milestone),
            caller == grant.admin && !old(milestone).approved ==> r is Ok && *final(milestone) == (
            Milestone {
                votes_for: 0,
                votes_against: 0,
                voting_deadline: (now + DEFAULT_VOTING_PERIOD) as u64,
                ..*old(milestone)
            }),
    {
        if !caller.same(&grant.admin) {
            return Err(GrantError::Unauthorized);
        }
        if milestone.approved {
            return Err(GrantError::AlreadyApproved);
        }
        milestone.votes_for = 0;
        milestone.votes_against = 0;
        milestone.voting_deadline = now + DEFAULT_VOTING_PERIOD;
        Ok(())
    }

    /// Counts the vote of the council member `caller` on a milestone, where
    /// `has_voted` says whether the host holds a vote of `caller` on it
    /// already. The vote that reaches the threshold approves the milestone,
    /// releases its amount, and returns the funding that the admin owes.
    pub fn vote_milestone(
        grant: &mut Grant,
        milestone: &mut Milestone,
        caller: Address,
        has_voted: bool,
        approve: bool,
        now: u64,
    ) -> (r: Result<Option<Funding>, GrantError>)
        requires
            approve ==> old(milestone).votes_for < u32::MAX,
            !approve ==> old(milestone).votes_against < u32::MAX,
        ensures
            match vote_spec(*old(grant), *old(milestone), caller, has_voted, approve, now) {
                Err(e) => r is Err && r->Err_0 == e && *final(grant) == *old(grant) && *final(milestone) == *old(milestone),
                Ok((g, m)) => {
                    &&& r is Ok
                    &&& *final(grant) == g
                    &&& *final(milestone) == m
                    &&& r->Ok_0 == if m.approved {
                        Some(
                            Funding {
                                token: old(grant).token_address,
                                from: old(grant).admin,
                                amount: m.amount,
                            },
                        )
                    } else {
                        None
                    }
                },
            },
    {
        if !is_member(&grant.council_members, &caller) {
            return Err(GrantError::NotCouncilMember);
        }
        if milestone.approved {
            return Err(GrantError::AlreadyApproved);
        }
        if now > milestone.voting_deadline {
            return Err(GrantError::VotingExpired);
        }
        if has_voted {
            return Err(GrantError::AlreadyVoted);
        }
        let votes_for = if approve {
            milestone.votes_for + 1
        } else {
            milestone.votes_for
        };
        if votes_for < grant.voting_threshold {
            if approve {
                milestone.votes_for = votes_for;
            } else {
                milestone.votes_against = milestone.votes_against + 1;
            }
            return Ok(None);
        }
        let new_released = match grant.released_amount.checked_add(milestone.amount) {
            Some(v) => v,
            None => {
                return Err(GrantError::ExceedsTotalAmount);
            },
        };
        if new_released > grant.total_amount {
            return Err(GrantError::ExceedsTotalAmount);
        }
        if approve {
            milestone.votes_for = votes_for;
        } else {
            milestone.votes_against = milestone.votes_against + 1;
        }
        milestone.approved = true;
        milestone.approved_at = Some(now);
        grant.released_amount = new_released;
        if new_released == grant.total_amount {
            grant.status = GrantStatus::Completed;
        }
        Ok(Some(Funding { token: grant.token_address, from: grant.admin, amount: milestone.amount }))
    }

    /// Pays the grantee `caller` all that is left of its entitlement at `now`,
    /// where `already_withdrawn` is what the host holds as paid to it before,
    /// and returns the amount. Nothing is paid during the cliff.
    pub fn withdraw(grant: &mut Grant, caller: Address, already_withdrawn: u128, now: u64) -> (r:
        Result<u128, GrantError>)
        ensures
            r is Err ==> *final(grant) == *old(grant),
            match share_of(old(grant).grantees@, caller) {
                None => r is Err && r->Err_0 == GrantError::InvalidGrantee,
                Some(share) => if old(grant).in_cliff(now) {
                    r is Ok && r->Ok_0 == 0 && *final(grant) == *old(grant)
                } else if entitlement(old(grant).total_amount, share) > u128::MAX {
                    r is Err && r->Err_0 == GrantError::InvalidShares
                } else if old(grant).released_amount + old(grant).withdrawable(
                    caller,
                    already_withdrawn,
                    now,
                ) > u128::MAX {
                    r is Err && r->Err_0 == GrantError::ExceedsTotalAmount
                } else {
                    &&& r is Ok
                    &&& r->Ok_0 == old(grant).withdrawable(caller, already_withdrawn, now)
                    &&& *final(grant) == (Grant {
                        released_amount: (old(grant).released_amount + r->Ok_0) as u128,
                        ..*old(grant)
                    })
                },
            },
    {
        let caller_share = match find_share(&grant.grantees, &caller) {
            Some(share) => share,
            None => {
                return Err(GrantError::InvalidGrantee);
            },
        };
        if grant.cliff_end > 0 && now < grant.cliff_end {
            return Ok(0);
        }
        let entitled = match compute_entitlement(grant.total_amount, caller_share) {
            Some(v) => v,
            None => {
                return Err(GrantError::InvalidShares);
            },
        };
        let available_for_caller = if entitled > already_withdrawn {
            entitled - already_withdrawn
        } else {
            0
        };
        if available_for_caller == 0 {
            return Ok(0);
        }
        let released = match grant.released_amount.checked_add(available_for_caller) {
            Some(v) => v,
            None => {
                return Err(GrantError::ExceedsTotalAmount);
            },
        };
        grant.released_amount = released;
        Ok(available_for_caller)
    }

    fn move_status(grant: &mut Grant, caller: Address, from: GrantStatus, to: GrantStatus) -> (r:
        Result<(), GrantError>)
        ensures
            caller != old(grant).admin ==> r is Err && r->Err_0 == GrantError::Unauthorized,
            caller == old(grant).admin && old(grant).status != from ==> r is Err && r->Err_0
                == GrantError::InvalidStatus,
            r is Err ==> *final(grant) == *old(grant),
            caller == old(grant).admin && old(grant).status == from ==> r is Ok && *final(grant)
                == (Grant { status: to, ..*old(grant) }),
    {
        if !caller.same(&grant.admin) {
            return Err(GrantError::Unauthorized);
        }
        if grant.status != from {
            return Err(GrantError::InvalidStatus);
        }
        grant.status = to;
        Ok(())
    }

    /// Makes a proposed grant active for the admin `caller`.
    pub fn activate_grant(grant: &mut Grant, caller: Address) -> (r: Result<(), GrantError>)
        ensures
            caller != old(grant).admin ==> r is Err && r->Err_0 == GrantError::Unauthorized,
            caller == old(grant).admin && old(grant).status != GrantStatus::Proposed ==> r is Err
                && r->Err_0 == GrantError::InvalidStatus,
            r is Err ==> *final(grant) == *old(grant),
            caller == old(grant).admin && old(grant).status == GrantStatus::Proposed ==> r is Ok
                && *final(grant) == (Grant { status: GrantStatus::Active, ..*old(grant) }),
    {
        Self::move_status(grant, caller, GrantStatus::Proposed, GrantStatus::Active)
    }

    /// Pauses an active grant for the admin `caller`.
    pub fn pause_grant(grant: &mut Grant, caller: Address) -> (r: Result<(), GrantError>)
        ensures
            caller != old(grant).admin ==> r is Err && r->Err_0 == GrantError::Unauthorized,
            caller == old(grant).admin && old(grant).status != GrantStatus::Active ==> r is Err
                && r->Err_0 == GrantError::InvalidStatus,
            r is Err ==> *final(grant) == *old(grant),
            caller == old(grant).admin && old(grant).status == GrantStatus::Active ==> r is Ok
                && *final(grant) == (Grant { status: GrantStatus::Paused, ..*old(grant) }),
    {
        Self::move_status(grant, caller, GrantStatus::Active, GrantStatus::Paused)
    }

    /// Makes a paused grant active again for the admin `caller`.
    pub fn resume_grant(grant: &mut Grant, caller: Address) -> (r: Result<(), GrantError>)
        ensures
            caller != old(grant).admin ==> r is Err && r->Err_0 == GrantError::Unauthorized,
            caller == old(grant).admin && old(grant).status != GrantStatus::Paused ==> r is Err
                && r->Err_0 == GrantError::InvalidStatus,
            r is Err ==> *final(grant) == *old(grant),
            caller == old(grant).admin && old(grant).status == GrantStatus::Paused ==> r is Ok
                && *final(grant) == (Grant { status: GrantStatus::Active, ..*old(grant) }),
    {
        Self::move_status(grant, caller, GrantStatus::Paused, GrantStatus::Active)
    }

    /// Cancels a proposed or paused grant for the admin `caller`.
    pub fn cancel_grant(grant: &mut Grant, caller: Address) -> (r: Result<(), GrantError>)
        ensures
            caller != old(grant).admin ==> r is Err && r->Err_0 == GrantError::Unauthorized,
            caller == old(grant).admin && old(grant).status != GrantStatus::Proposed && old(grant).status != GrantStatus::Paused ==> r is Err && r->Err_0 == GrantError::InvalidStatus,
            r is Err ==> *final(grant) == *old(grant),
            caller == old(grant).admin && (old(grant).status == GrantStatus::Proposed || old(grant).status == GrantStatus::Paused) ==> r is Ok && *final(grant) == (Grant {
                status: GrantStatus::Cancelled,
                ..*old(grant)
            }),
    {
        if !caller.same(&grant.admin) {
            return Err(GrantError::Unauthorized);
        }
        match grant.status {
            GrantStatus::Proposed | GrantStatus::Paused => {
                grant.status = GrantStatus::Cancelled;
                Ok(())
            },
            _ => Err(GrantError::InvalidStatus),
        }
    }

    /// Cuts the rate of the stream by `reduction_percentage` percent for the
    /// admin `caller`, after settling what the stream owes at `now`, and
    /// returns the new rate.
    pub fn slash_flow_rate(grant: &mut Grant, caller: Address, reduction_percentage: u32, now: u64) -> (r:
        Result<u128, GrantError>)
        ensures
            r is Err ==> *final(grant) == *old(grant),
            caller != old(grant).admin ==> r is Err && r->Err_0 == GrantError::Unauthorized,
            caller == old(grant).admin && reduction_percentage > 100 ==> r is Err && r->Err_0
                == GrantError::InvalidAmount,
            caller == old(grant).admin && reduction_percentage <= 100 ==> {
                let g = *old(grant);
                if g.owed(now) == 0 {
                    &&& r is Ok
                    &&& r->Ok_0 == g.reduced_rate(reduction_percentage)
                    &&& *final(grant) == (Grant { flow_rate: r->Ok_0, ..g })
                } else if g.released_amount + g.owed(now) > g.total_amount {
                    r is Err && r->Err_0 == GrantError::ExceedsTotalAmount
                } else {
                    &&& r is Ok
                    &&& r->Ok_0 == g.reduced_rate(reduction_percentage)
                    &&& *final(grant) == (Grant {
                        released_amount: (g.released_amount + g.owed(now)) as u128,
                        last_settled_at: now,
                        flow_rate: r->Ok_0,
                        ..g
                    })
                }
            },
    {
        if !caller.same(&grant.admin) {
            return Err(GrantError::Unauthorized);
        }
        if reduction_percentage > 100 {
            return Err(GrantError::InvalidAmount);
        }
        let elapsed: u64 = if now > grant.last_settled_at {
            now - grant.last_settled_at
        } else {
            0
        };
        let mut released = grant.released_amount;
        let mut settled_at = grant.last_settled_at;
        proof {
            assert(grant.flow_rate * 0 == 0);
            assert(elapsed > 0 && grant.flow_rate > 0 ==> grant.flow_rate * elapsed > 0)
                by (nonlinear_arith);
            assert(0 * elapsed == 0);
        }
        if elapsed > 0 && grant.flow_rate > 0 {
            let owed = match grant.flow_rate.checked_mul(elapsed as u128) {
                Some(v) => v,
                None => u128::MAX,
            };
            released = match grant.released_amount.checked_add(owed) {
                Some(v) => v,
                None => {
                    return Err(GrantError::ExceedsTotalAmount);
                },
            };
            if released > grant.total_amount {
                return Err(GrantError::ExceedsTotalAmount);
            }
            settled_at = now;
        }
        let kept: u128 = (100 - reduction_percentage) as u128;
        let new_rate = match grant.flow_rate.checked_mul(kept) {
            Some(v) => v / 100,
            None => u128::MAX / 100,
        };
        grant.released_amount = released;
        grant.last_settled_at = settled_at;
        grant.flow_rate = new_rate;
        Ok(new_rate)
    }

    /// What the grantee `caller` could withdraw at `now`, where
    /// `already_withdrawn` is what the host holds as paid to it before: nothing
    /// for one that is no grantee, during the cliff, or where the entitlement
    /// leaves `u128`.
    pub fn get_withdrawable_amount(grant: &Grant, caller: Address, already_withdrawn: u128, now: u64) -> (r:
        u128)
        ensures
            r == match share_of(grant.grantees@, caller) {
                Some(share) if entitlement(grant.total_amount, share) > u128::MAX => 0,
                _ => grant.withdrawable(caller, already_withdrawn, now),
            },
    {
        let caller_share = match find_share(&grant.grantees, &caller) {
            Some(share) => share,
            None => {
                return 0;
            },
        };
        if grant.cliff_end > 0 && now < grant.cliff_end {
            return 0;
        }
        match compute_entitlement(grant.total_amount, caller_share) {
            Some(entitled) => if entitled > already_withdrawn {
                entitled - already_withdrawn
            } else {
                0
            },
            None => 0,
        }
    }

    /// What of the total is not released yet.
    pub fn get_remaining_amount(grant: &Grant) -> (r: u128)
        ensures
            r == if grant.total_amount > grant.released_amount {
                grant.total_amount - grant.released_amount
            } else {
                0
            },
    {
        if grant.total_amount > grant.released_amount {
            grant.total_amount - grant.released_amount
        } else {
            0
        }
    }
}

} // verus!
