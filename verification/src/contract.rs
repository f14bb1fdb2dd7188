//! The ledger of streaming grants: who may do what to which grant, and what
//! each operation tells the host to pay out.

use std::collections::HashMap;
use vstd::prelude::*;

use crate::address::Address;
use crate::laws::{lemma_created_holds_invariant, lemma_step_keeps_invariant, Operation};
use crate::lifecycle::RateChange;
use crate::optimized::LedgerError;
use crate::settlement::{settle_spec, Grant};
use crate::GrantStatus;

verus! {

broadcast use vstd::std_specs::hash::group_hash_axioms;

/// The principals that the ledger answers to.
#[derive(Clone, Copy, Debug, PartialEq, Eq)]
pub struct Config {
    /// Creates grants and changes them.
    pub admin: Address,
    /// Applies multipliers to the rates.
    pub oracle: Address,
    /// Receives what is slashed.
    pub treasury: Address,
    /// The token that the grants pay in.
    pub grant_token: Address,
}

/// A payment that the host is to make from the ledger's balance.
#[derive(Clone, Copy, Debug, PartialEq, Eq)]
pub struct Transfer {
    /// Who is paid.
    pub to: Address,
    /// How much.
    pub amount: i128,
}

/// The ledger as a value: its principals, the ids of its grants in the order
/// of their creation, and the grant of each id.
pub struct Ledger {
    pub config: Option<Config>,
    pub ids: Seq<u64>,
    pub grants: Map<u64, Grant>,
}

/// Whether an operation with the result `r` took the ledger from `before` to
/// `after` as `expected` says: to the new ledger on success, to the same
/// ledger with the expected error on failure.
pub open spec fn applied<T>(
    before: Ledger,
    after: Ledger,
    r: Result<T, LedgerError>,
    expected: Result<Ledger, LedgerError>,
) -> bool {
    match expected {
        Ok(l) => r is Ok && after == l,
        Err(e) => r is Err && r->Err_0 == e && after == before,
    }
}

impl Ledger {
    /// Every id is listed once, the listed ids are those that have a grant,
    /// and every grant holds its invariant.
    pub open spec fn wf(self) -> bool {
        &&& self.ids.no_duplicates()
        &&& forall|id: u64| self.grants.contains_key(id) <==> self.ids.contains(id)
        &&& forall|id: u64| self.grants.contains_key(id) ==> (#[trigger] self.grants[id]).wf()
    }

    /// Why `caller` may not act as the admin, if so.
    pub open spec fn admin_bar(self, caller: Address) -> Option<LedgerError> {
        match self.config {
            None => Some(LedgerError::NotInitialized),
            Some(c) => if caller != c.admin {
                Some(LedgerError::NotAuthorized)
            } else {
                None
            },
        }
    }

    /// Why `caller` may not act as the oracle, if so.
    pub open spec fn oracle_bar(self, caller: Address) -> Option<LedgerError> {
        match self.config {
            None => Some(LedgerError::NotInitialized),
            Some(c) => if caller != c.oracle {
                Some(LedgerError::NotAuthorized)
            } else {
                None
            },
        }
    }

    /// The grant of `id`.
    pub open spec fn lookup(self, id: u64) -> Result<Grant, LedgerError> {
        if self.grants.contains_key(id) {
            Ok(self.grants[id])
        } else {
            Err(LedgerError::GrantNotFound)
        }
    }

    /// The ledger with `g` as the grant of `id`.
    pub open spec fn put(self, id: u64, g: Grant) -> Ledger {
        Ledger { grants: self.grants.insert(id, g), ..self }
    }

    /// The ledger after an operation on the grant of `id` that came out as
    /// `outcome`.
    pub open spec fn commit(self, id: u64, outcome: Result<Grant, LedgerError>) -> Result<
        Ledger,
        LedgerError,
    > {
        match outcome {
            Ok(g) => Ok(self.put(id, g)),
            Err(e) => Err(e),
        }
    }

    /// The ledger after `op` at `now` by the admin `caller` on the grant of
    /// `id`.
    pub open spec fn admin_step(self, caller: Address, id: u64, op: Operation, now: u64) -> Result<
        Ledger,
        LedgerError,
    > {
        match self.admin_bar(caller) {
            Some(e) => Err(e),
            None => match self.lookup(id) {
                Err(e) => Err(e),
                Ok(g) => self.commit(id, crate::laws::step(g, op, now)),
            },
        }
    }

    /// The ledger after `initialize`: it takes its principals once, from its
    /// admin.
    pub open spec fn initialize_spec(self, caller: Address, config: Config) -> Result<
        Ledger,
        LedgerError,
    > {
        if self.config is Some {
            Err(LedgerError::AlreadyInitialized)
        } else if caller != config.admin {
            Err(LedgerError::NotAuthorized)
        } else {
            Ok(Ledger { config: Some(config), ..self })
        }
    }

    /// The ledger after `create_grant`: the admin adds a grant under an id
    /// that is not in use.
    pub open spec fn create_grant_spec(
        self,
        caller: Address,
        id: u64,
        recipient: Address,
        total_amount: i128,
        flow_rate: i128,
        initial_status_mask: u32,
        now: u64,
    ) -> Result<Ledger, LedgerError> {
        match self.admin_bar(caller) {
            Some(e) => Err(e),
            None => match Grant::create_spec(
                recipient,
                total_amount,
                flow_rate,
                initial_status_mask,
                now,
            ) {
                Err(e) => Err(e),
                Ok(g) => if self.grants.contains_key(id) {
                    Err(LedgerError::GrantAlreadyExists)
                } else {
                    Ok(
                        Ledger {
                            ids: self.ids.push(id),
                            grants: self.grants.insert(id, g),
                            ..self
                        },
                    )
                },
            },
        }
    }
}

impl Ledger {
    /// The ledger after a change of rate by the admin: a negative rate is
    /// refused before the grant is looked for.
    pub open spec fn rate_step(
        self,
        caller: Address,
        id: u64,
        new_rate: i128,
        op: Operation,
        now: u64,
    ) -> Result<Ledger, LedgerError> {
        if self.admin_bar(caller) is None && new_rate < 0 {
            Err(LedgerError::InvalidRate)
        } else {
            self.admin_step(caller, id, op, now)
        }
    }

    /// The ledger after `apply_kpi_multiplier`: the oracle multiplies the
    /// rates of an active grant by a positive number.
    pub open spec fn apply_kpi_multiplier_spec(
        self,
        caller: Address,
        id: u64,
        multiplier: i128,
        now: u64,
    ) -> Result<Ledger, LedgerError> {
        match self.oracle_bar(caller) {
            Some(e) => Err(e),
            None => if multiplier <= 0 {
                Err(LedgerError::InvalidRate)
            } else {
                match self.lookup(id) {
                    Err(e) => Err(e),
                    Ok(g) => self.commit(id, g.apply_kpi_multiplier_spec(multiplier, now)),
                }
            },
        }
    }

    /// The ledger after `withdraw`: the recipient of the grant takes `amount`
    /// of what is claimable.
    pub open spec fn withdraw_spec(self, caller: Address, id: u64, amount: i128, now: u64) -> Result<
        Ledger,
        LedgerError,
    > {
        match self.lookup(id) {
            Err(e) => Err(e),
            Ok(g) => if caller != g.recipient {
                Err(LedgerError::NotAuthorized)
            } else {
                self.commit(id, g.withdraw_spec(amount, now))
            },
        }
    }

    /// The ledger after `slash_inactive_grant`, which anyone may call.
    pub open spec fn slash_spec(self, id: u64, now: u64) -> Result<Ledger, LedgerError> {
        if self.config is None {
            Err(LedgerError::NotInitialized)
        } else {
            match self.lookup(id) {
                Err(e) => Err(e),
                Ok(g) => self.commit(id, g.slash_spec(now)),
            }
        }
    }

    /// The grant of `id` as a settlement at `now` would leave it.
    pub open spec fn preview(self, id: u64, now: u64) -> Result<Grant, LedgerError> {
        match self.lookup(id) {
            Err(e) => Err(e),
            Ok(g) => settle_spec(g, now),
        }
    }

    /// What the ledger still owes to a grant: the total less what was
    /// withdrawn while the grant is active, nothing otherwise.
    pub open spec fn commitment(g: Grant) -> int {
        if g.status() == GrantStatus::Active {
            g.total_amount - g.withdrawn
        } else {
            0
        }
    }

    /// What the ledger owes to the grants of `ids`.
    pub open spec fn allocated_to(self, ids: Seq<u64>) -> int
        decreases ids.len(),
    {
        if ids.len() == 0 {
            0
        } else {
            self.allocated_to(ids.drop_last()) + Ledger::commitment(self.grants[ids.last()])
        }
    }

    /// What the ledger owes to all its grants.
    pub open spec fn total_allocated(self) -> int {
        self.allocated_to(self.ids)
    }

    /// Whether `rescue_tokens` lets `amount` of `token` go, or why not. Only
    /// the admin may ask, and for a positive amount. Of the token that the
    /// grants pay in, the balance must still cover what is owed to the grants;
    /// of any other token, any amount may go.
    pub open spec fn rescue_bar(
        self,
        caller: Address,
        token: Address,
        amount: i128,
        balance: i128,
    ) -> Option<LedgerError> {
        if self.admin_bar(caller) is Some {
            self.admin_bar(caller)
        } else if amount <= 0 {
            Some(LedgerError::InvalidAmount)
        } else if token != self.config->0.grant_token {
            None
        } else if self.total_allocated() > i128::MAX || balance - amount < i128::MIN {
            Some(LedgerError::MathOverflow)
        } else if balance - amount < self.total_allocated() {
            Some(LedgerError::RescueWouldViolateAllocated)
        } else {
            None
        }
    }
}

/// What is wrong with entry `i` of a list of grants by id, if anything: with
/// `InvalidState`, that its grant does not hold its invariant; else, with
/// `GrantAlreadyExists`, that an earlier entry has its id.
pub open spec fn defect_at(entries: Seq<(u64, Grant)>, i: int) -> Option<LedgerError> {
    if !entries[i].1.wf() {
        Some(LedgerError::InvalidState)
    } else if exists|j: int| 0 <= j < i && (#[trigger] entries[j]).0 == entries[i].0 {
        Some(LedgerError::GrantAlreadyExists)
    } else {
        None
    }
}

/// The ledger of streaming grants.
pub struct GrantContract {
    config: Option<Config>,
    grant_ids: Vec<u64>,
    grants: HashMap<u64, Grant>,
}

impl View for GrantContract {
    type V = Ledger;

    closed spec fn view(&self) -> Ledger {
        Ledger { config: self.config, ids: self.grant_ids@, grants: self.grants@ }
    }
}

impl GrantContract {
    /// The invariant of the ledger: that of its value.
    pub open spec fn wf(&self) -> bool {
        self@.wf()
    }

    /// A ledger without principals and without grants.
    pub fn new() -> (r: GrantContract)
        ensures
            r.wf(),
            r@.config is None,
            r@.ids == Seq::<u64>::empty(),
            r@.grants == Map::<u64, Grant>::empty(),
    {
        GrantContract { config: None, grant_ids: Vec::new(), grants: HashMap::new() }
    }

    /// The ledger with the principals `config` and the grants of `entries`,
    /// each under its id, in their order. It fails at the first entry that
    /// `defect_at` finds fault with.
    pub fn restore(config: Option<Config>, entries: &Vec<(u64, Grant)>) -> (r: Result<
        GrantContract,
        LedgerError,
    >)
        ensures
            match r {
                Ok(l) => {
                    &&& l.wf()
                    &&& l@.config == config
                    &&& l@.ids == entries@.map_values(|e: (u64, Grant)| e.0)
                    &&& forall|i: int|
                        0 <= i < entries.len() ==> l@.grants.contains_key(
                            (#[trigger] entries[i]).0,
                        ) && l@.grants[entries[i].0] == entries[i].1
                    &&& forall|i: int| 0 <= i < entries.len() ==> defect_at(entries@, i) is None
                },
                Err(e) => exists|i: int|
                    0 <= i < entries.len() && #[trigger] defect_at(entries@, i) == Some(e)
                        && forall|k: int| 0 <= k < i ==> defect_at(entries@, k) is None,
            },
    {
        let mut ledger = GrantContract { config, grant_ids: Vec::new(), grants: HashMap::new() };
        let mut i: usize = 0;
        while i < entries.len()
            invariant
                i <= entries.len(),
                ledger.wf(),
                ledger@.config == config,
                ledger@.ids == entries@.take(i as int).map_values(|e: (u64, Grant)| e.0),
                forall|k: int|
                    0 <= k < i ==> ledger@.grants.contains_key((#[trigger] entries[k]).0)
                        && ledger@.grants[entries[k].0] == entries[k].1,
                forall|k: int| 0 <= k < i ==> defect_at(entries@, k) is None,
            decreases entries.len() - i,
        {
            let (id, grant) = entries[i];
            if !grant.is_wf() {
                proof {
                    assert(defect_at(entries@, i as int) == Some(LedgerError::InvalidState));
                }
                return Err(LedgerError::InvalidState);
            }
            if ledger.grants.contains_key(&id) {
                proof {
                    assert(ledger@.ids.contains(id));
                    let j = choose|j: int| 0 <= j < ledger@.ids.len() && ledger@.ids[j] == id;
                    assert(entries[j].0 == id);
                    assert(defect_at(entries@, i as int) == Some(LedgerError::GrantAlreadyExists));
                }
                return Err(LedgerError::GrantAlreadyExists);
            }
            proof {
                assert forall|j: int| 0 <= j < i implies (#[trigger] entries[j]).0 != id by {
                    assert(ledger@.ids[j] == entries[j].0);
                    assert(ledger@.ids.contains(entries[j].0));
                }
            }
            let ghost before = ledger@;
            ledger.grant_ids.push(id);
            ledger.grants.insert(id, grant);
            proof {
                let after = ledger@;
                assert(after.ids == before.ids.push(id));
                assert(entries@.take(i + 1) == entries@.take(i as int).push(entries[i as int]));
                assert(after.ids == entries@.take(i + 1).map_values(|e: (u64, Grant)| e.0));
                assert forall|a: int, b: int|
                    0 <= a < after.ids.len() && 0 <= b < after.ids.len() && a != b implies after.ids[a]
                    != after.ids[b] by {
                    if a < before.ids.len() {
                        assert(before.ids.contains(after.ids[a]));
                    }
                    if b < before.ids.len() {
                        assert(before.ids.contains(after.ids[b]));
                    }
                }
                assert forall|k: u64| after.grants.contains_key(k) implies (
                #[trigger] after.grants[k]).wf() by {
                    if k != id {
                        assert(before.grants.contains_key(k));
                    }
                }
                assert forall|k: u64| after.grants.contains_key(k) <==> after.ids.contains(k) by {
                    if k == id {
                        assert(after.ids[before.ids.len() as int] == id);
                    } else if before.ids.contains(k) {
                        let j = choose|j: int| 0 <= j < before.ids.len() && before.ids[j] == k;
                        assert(after.ids[j] == k);
                    }
                }
                assert forall|k: int| 0 <= k < i + 1 implies after.grants.contains_key(
                    (#[trigger] entries[k]).0,
                ) && after.grants[entries[k].0] == entries[k].1 by {
                    if k < i {
                        assert(before.ids[k] == entries[k].0);
                        assert(before.ids.contains(entries[k].0));
                    }
                }
            }
            i += 1;
        }
        proof {
            assert(entries@.take(i as int) == entries@);
        }
        Ok(ledger)
    }

    /// The principals of the ledger, once it has them.
    pub fn config(&self) -> (r: Option<Config>)
        ensures
            r == self@.config,
    {
        self.config
    }

    /// The ids of the grants, in the order of their creation.
    pub fn grant_ids(&self) -> (r: &Vec<u64>)
        ensures
            r@ == self@.ids,
    {
        &self.grant_ids
    }

    /// That `caller` is the admin.
    pub fn require_admin(&self, caller: &Address) -> (r: Result<(), LedgerError>)
        ensures
            match self@.admin_bar(*caller) {
                Some(e) => r is Err && r->Err_0 == e,
                None => r is Ok,
            },
    {
        match self.config {
            None => Err(LedgerError::NotInitialized),
            Some(c) => if caller.same(&c.admin) {
                Ok(())
            } else {
                Err(LedgerError::NotAuthorized)
            },
        }
    }

    /// That `caller` is the oracle.
    pub fn require_oracle(&self, caller: &Address) -> (r: Result<(), LedgerError>)
        ensures
            match self@.oracle_bar(*caller) {
                Some(e) => r is Err && r->Err_0 == e,
                None => r is Ok,
            },
    {
        match self.config {
            None => Err(LedgerError::NotInitialized),
            Some(c) => if caller.same(&c.oracle) {
                Ok(())
            } else {
                Err(LedgerError::NotAuthorized)
            },
        }
    }

    /// The grant of `grant_id` as it is stored.
    pub fn read_grant(&self, grant_id: u64) -> (r: Result<Grant, LedgerError>)
        ensures
            r == self@.lookup(grant_id),
    {
        match self.grants.get(&grant_id) {
            Some(g) => Ok(*g),
            None => Err(LedgerError::GrantNotFound),
        }
    }

    /// Stores `grant` as the grant of `grant_id`, which has one already.
    pub(crate) fn write_grant(&mut self, grant_id: u64, grant: Grant)
        requires
            old(self).wf(),
            old(self)@.grants.contains_key(grant_id),
            grant.wf(),
        ensures
            final(self).wf(),
            final(self)@ == old(self)@.put(grant_id, grant),
    {
        self.grants.insert(grant_id, grant);
    }

    /// Gives the ledger its principals. This is done once, by the admin named
    /// in `config`.
    pub fn initialize(&mut self, caller: Address, config: Config) -> (r: Result<(), LedgerError>)
        requires
            old(self).wf(),
        ensures
            final(self).wf(),
            applied(old(self)@, final(self)@, r, old(self)@.initialize_spec(caller, config)),
    {
        if self.config.is_some() {
            return Err(LedgerError::AlreadyInitialized);
        }
        if !caller.same(&config.admin) {
            return Err(LedgerError::NotAuthorized);
        }
        self.config = Some(config);
        Ok(())
    }

    /// Creates an active grant under `grant_id` for the admin `caller`.
    pub fn create_grant(
        &mut self,
        caller: Address,
        grant_id: u64,
        recipient: Address,
        total_amount: i128,
        flow_rate: i128,
        initial_status_mask: u32,
        now: u64,
    ) -> (r: Result<(), LedgerError>)
        requires
            old(self).wf(),
        ensures
            final(self).wf(),
            applied(
                old(self)@,
                final(self)@,
                r,
                old(self)@.create_grant_spec(
                    caller,
                    grant_id,
                    recipient,
                    total_amount,
                    flow_rate,
                    initial_status_mask,
                    now,
                ),
            ),
    {
        self.require_admin(&caller)?;
        let grant = Grant::create(recipient, total_amount, flow_rate, initial_status_mask, now)?;
        if self.grants.contains_key(&grant_id) {
            return Err(LedgerError::GrantAlreadyExists);
        }
        proof {
            lemma_created_holds_invariant(
                recipient,
                total_amount,
                flow_rate,
                initial_status_mask,
                now,
            );
        }
        self.grant_ids.push(grant_id);
        self.grants.insert(grant_id, grant);
        proof {
            let before = old(self)@;
            let after = self@;
            assert(!before.ids.contains(grant_id));
            assert(after.ids == before.ids.push(grant_id));
            assert(after.grants == before.grants.insert(grant_id, grant));
            assert forall|i: int, j: int|
                0 <= i < after.ids.len() && 0 <= j < after.ids.len() && i != j implies after.ids[i]
                != after.ids[j] by {
                if i < before.ids.len() {
                    assert(before.ids.contains(after.ids[i]));
                }
                if j < before.ids.len() {
                    assert(before.ids.contains(after.ids[j]));
                }
            }
            assert forall|id: u64| after.grants.contains_key(id) implies (
            #[trigger] after.grants[id]).wf() by {
                if id != grant_id {
                    assert(before.grants.contains_key(id));
                }
            }
            assert forall|id: u64| after.grants.contains_key(id) <==> after.ids.contains(id) by {
                if id == grant_id {
                    assert(after.ids[before.ids.len() as int] == grant_id);
                } else if before.ids.contains(id) {
                    let i = choose|i: int| 0 <= i < before.ids.len() && before.ids[i] == id;
                    assert(after.ids[i] == id);
                }
            }
        }
        Ok(())
    }

    /// Cancels the grant of `grant_id` for the admin `caller`.
    pub fn cancel_grant(&mut self, caller: Address, grant_id: u64, now: u64) -> (r: Result<
        (),
        LedgerError,
    >)
        requires
            old(self).wf(),
        ensures
            final(self).wf(),
            applied(
                old(self)@,
                final(self)@,
                r,
                old(self)@.admin_step(caller, grant_id, Operation::Cancel, now),
            ),
    {
        self.require_admin(&caller)?;
        let mut grant = self.read_grant(grant_id)?;
        grant.cancel(now)?;
        proof {
            lemma_step_keeps_invariant(old(self)@.grants[grant_id], Operation::Cancel, now);
        }
        self.write_grant(grant_id, grant);
        Ok(())
    }

    /// Pauses the grant of `grant_id` for the admin `caller`.
    pub fn pause_grant(&mut self, caller: Address, grant_id: u64, now: u64) -> (r: Result<
        (),
        LedgerError,
    >)
        requires
            old(self).wf(),
        ensures
            final(self).wf(),
            applied(
                old(self)@,
                final(self)@,
                r,
                old(self)@.admin_step(caller, grant_id, Operation::Pause, now),
            ),
    {
        self.require_admin(&caller)?;
        let mut grant = self.read_grant(grant_id)?;
        grant.pause(now)?;
        proof {
            lemma_step_keeps_invariant(old(self)@.grants[grant_id], Operation::Pause, now);
        }
        self.write_grant(grant_id, grant);
        Ok(())
    }

    /// Resumes the grant of `grant_id` for the admin `caller`.
    pub fn resume_grant(&mut self, caller: Address, grant_id: u64, now: u64) -> (r: Result<
        (),
        LedgerError,
    >)
        requires
            old(self).wf(),
        ensures
            final(self).wf(),
            applied(
                old(self)@,
                final(self)@,
                r,
                old(self)@.admin_step(caller, grant_id, Operation::Resume, now),
            ),
    {
        self.require_admin(&caller)?;
        let mut grant = self.read_grant(grant_id)?;
        grant.resume(now)?;
        proof {
            lemma_step_keeps_invariant(old(self)@.grants[grant_id], Operation::Resume, now);
        }
        self.write_grant(grant_id, grant);
        Ok(())
    }

    /// Puts `new_rate` in force on the grant of `grant_id` for the admin
    /// `caller`, and reports the change with the rate that the settled grant
    /// had.
    pub fn update_rate(&mut self, caller: Address, grant_id: u64, new_rate: i128, now: u64) -> (r:
        Result<RateChange, LedgerError>)
        requires
            old(self).wf(),
        ensures
            final(self).wf(),
            applied(
                old(self)@,
                final(self)@,
                r,
                old(self)@.rate_step(
                    caller,
                    grant_id,
                    new_rate,
                    Operation::UpdateRate { new_rate },
                    now,
                ),
            ),
            r is Ok ==> r->Ok_0 == (RateChange {
                old_rate: old(self)@.preview(grant_id, now)->Ok_0.flow_rate,
                new_rate,
                effective_at: now,
            }),
    {
        self.require_admin(&caller)?;
        if new_rate < 0 {
            return Err(LedgerError::InvalidRate);
        }
        let mut grant = self.read_grant(grant_id)?;
        let change = grant.update_rate(new_rate, now)?;
        proof {
            lemma_step_keeps_invariant(
                old(self)@.grants[grant_id],
                Operation::UpdateRate { new_rate },
                now,
            );
        }
        self.write_grant(grant_id, grant);
        Ok(change)
    }

    /// Proposes `new_rate` for the grant of `grant_id` for the admin `caller`,
    /// and reports the change: an increase counts after the timelock, any
    /// other rate at once.
    pub fn propose_rate_change(
        &mut self,
        caller: Address,
        grant_id: u64,
        new_rate: i128,
        now: u64,
    ) -> (r: Result<RateChange, LedgerError>)
        requires
            old(self).wf(),
        ensures
            final(self).wf(),
            applied(
                old(self)@,
                final(self)@,
                r,
                old(self)@.rate_step(
                    caller,
                    grant_id,
                    new_rate,
                    Operation::ProposeRateChange { new_rate },
                    now,
                ),
            ),
            r is Ok ==> r->Ok_0.old_rate == old(self)@.preview(grant_id, now)->Ok_0.flow_rate
                && r->Ok_0.new_rate == new_rate && r->Ok_0.effective_at == old(self)@.preview(
                grant_id,
                now,
            )->Ok_0.effective_at(new_rate, now),
    {
        self.require_admin(&caller)?;
        if new_rate < 0 {
            return Err(LedgerError::InvalidRate);
        }
        let mut grant = self.read_grant(grant_id)?;
        let change = grant.propose_rate_change(new_rate, now)?;
        proof {
            lemma_step_keeps_invariant(
                old(self)@.grants[grant_id],
                Operation::ProposeRateChange { new_rate },
                now,
            );
        }
        self.write_grant(grant_id, grant);
        Ok(change)
    }

    /// Multiplies the rates of the grant of `grant_id` by `multiplier` for
    /// the oracle `caller`.
    pub fn apply_kpi_multiplier(
        &mut self,
        caller: Address,
        grant_id: u64,
        multiplier: i128,
        now: u64,
    ) -> (r: Result<(), LedgerError>)
        requires
            old(self).wf(),
        ensures
            final(self).wf(),
            applied(
                old(self)@,
                final(self)@,
                r,
                old(self)@.apply_kpi_multiplier_spec(caller, grant_id, multiplier, now),
            ),
    {
        self.require_oracle(&caller)?;
        if multiplier <= 0 {
            return Err(LedgerError::InvalidRate);
        }
        let mut grant = self.read_grant(grant_id)?;
        grant.apply_kpi_multiplier(multiplier, now)?;
        proof {
            lemma_step_keeps_invariant(
                old(self)@.grants[grant_id],
                Operation::ApplyKpiMultiplier { multiplier },
                now,
            );
        }
        self.write_grant(grant_id, grant);
        Ok(())
    }

    /// Pays `amount` of what the grant of `grant_id` has claimable at `now`
    /// to its recipient `caller`, and returns the payment to make.
    pub fn withdraw(&mut self, caller: Address, grant_id: u64, amount: i128, now: u64) -> (r:
        Result<Transfer, LedgerError>)
        requires
            old(self).wf(),
        ensures
            final(self).wf(),
            applied(
                old(self)@,
                final(self)@,
                r,
                old(self)@.withdraw_spec(caller, grant_id, amount, now),
            ),
            r is Ok ==> r->Ok_0 == (Transfer { to: caller, amount }),
    {
        let mut grant = self.read_grant(grant_id)?;
        if !caller.same(&grant.recipient) {
            return Err(LedgerError::NotAuthorized);
        }
        grant.withdraw(amount, now)?;
        proof {
            lemma_step_keeps_invariant(
                old(self)@.grants[grant_id],
                Operation::Withdraw { amount },
                now,
            );
        }
        self.write_grant(grant_id, grant);
        Ok(Transfer { to: caller, amount })
    }

    /// Cancels the grant of `grant_id` if its recipient has withdrawn nothing
    /// for the threshold, and returns the payment to make: to the treasury,
    /// the total less what was withdrawn.
    pub fn slash_inactive_grant(&mut self, grant_id: u64, now: u64) -> (r: Result<Transfer, LedgerError>)
        requires
            old(self).wf(),
        ensures
            final(self).wf(),
            applied(old(self)@, final(self)@, r, old(self)@.slash_spec(grant_id, now)),
            r is Ok ==> r->Ok_0.to == old(self)@.config->0.treasury && r->Ok_0.amount == old(self)@.grants[grant_id].total_amount - old(self)@.grants[grant_id].withdrawn,
    {
        let treasury = match self.config {
            Some(c) => c.treasury,
            None => {
                return Err(LedgerError::NotInitialized);
            },
        };
        let mut grant = self.read_grant(grant_id)?;
        let amount = grant.slash_inactive(now)?;
        proof {
            lemma_step_keeps_invariant(old(self)@.grants[grant_id], Operation::SlashInactive, now);
        }
        self.write_grant(grant_id, grant);
        Ok(Transfer { to: treasury, amount })
    }

    /// The grant of `grant_id` as a settlement at `now` would leave it. The
    /// ledger is not changed.
    pub fn get_grant(&self, grant_id: u64, now: u64) -> (r: Result<Grant, LedgerError>)
        ensures
            r == self@.preview(grant_id, now),
    {
        let grant = self.read_grant(grant_id)?;
        grant.preview(now)
    }

    /// What the grant of `grant_id` has claimable at `now`. The ledger is not
    /// changed.
    pub fn claimable(&self, grant_id: u64, now: u64) -> (r: Result<i128, LedgerError>)
        ensures
            match self@.preview(grant_id, now) {
                Ok(g) => r == Ok::<i128, LedgerError>(g.claimable),
                Err(e) => r == Err::<i128, LedgerError>(e),
            },
    {
        let grant = self.get_grant(grant_id, now)?;
        Ok(grant.claimable)
    }

    /// The mask of the grant of `grant_id` as it is stored.
    pub fn get_grant_status(&self, grant_id: u64) -> (r: Result<u32, LedgerError>)
        ensures
            match self@.lookup(grant_id) {
                Ok(g) => r == Ok::<u32, LedgerError>(g.status_mask),
                Err(e) => r == Err::<u32, LedgerError>(e),
            },
    {
        let grant = self.read_grant(grant_id)?;
        Ok(grant.status_mask)
    }

    fn status_at(&self, grant_id: u64, now: u64) -> (r: Result<GrantStatus, LedgerError>)
        ensures
            match self@.preview(grant_id, now) {
                Ok(g) => r == Ok::<GrantStatus, LedgerError>(g.status()),
                Err(e) => r == Err::<GrantStatus, LedgerError>(e),
            },
    {
        let grant = self.get_grant(grant_id, now)?;
        Ok(grant.get_status())
    }

    /// Whether the grant of `grant_id`, settled at `now`, is active.
    pub fn is_grant_active(&self, grant_id: u64, now: u64) -> (r: Result<bool, LedgerError>)
        ensures
            match self@.preview(grant_id, now) {
                Ok(g) => r == Ok::<bool, LedgerError>(g.status() == GrantStatus::Active),
                Err(e) => r == Err::<bool, LedgerError>(e),
            },
    {
        match self.status_at(grant_id, now)? {
            GrantStatus::Active => Ok(true),
            _ => Ok(false),
        }
    }

    /// Whether the grant of `grant_id`, settled at `now`, is paused.
    pub fn is_grant_paused(&self, grant_id: u64, now: u64) -> (r: Result<bool, LedgerError>)
        ensures
            match self@.preview(grant_id, now) {
                Ok(g) => r == Ok::<bool, LedgerError>(g.status() == GrantStatus::Paused),
                Err(e) => r == Err::<bool, LedgerError>(e),
            },
    {
        match self.status_at(grant_id, now)? {
            GrantStatus::Paused => Ok(true),
            _ => Ok(false),
        }
    }

    /// Whether the grant of `grant_id`, settled at `now`, is completed.
    pub fn is_grant_completed(&self, grant_id: u64, now: u64) -> (r: Result<bool, LedgerError>)
        ensures
            match self@.preview(grant_id, now) {
                Ok(g) => r == Ok::<bool, LedgerError>(g.status() == GrantStatus::Completed),
                Err(e) => r == Err::<bool, LedgerError>(e),
            },
    {
        match self.status_at(grant_id, now)? {
            GrantStatus::Completed => Ok(true),
            _ => Ok(false),
        }
    }

    /// Whether the grant of `grant_id`, settled at `now`, is cancelled.
    pub fn is_grant_cancelled(&self, grant_id: u64, now: u64) -> (r: Result<bool, LedgerError>)
        ensures
            match self@.preview(grant_id, now) {
                Ok(g) => r == Ok::<bool, LedgerError>(g.status() == GrantStatus::Cancelled),
                Err(e) => r == Err::<bool, LedgerError>(e),
            },
    {
        match self.status_at(grant_id, now)? {
            GrantStatus::Cancelled => Ok(true),
            _ => Ok(false),
        }
    }

    /// Sets the bits of `flags_to_set` in the mask of the grant of `grant_id`,
    /// then clears those of `flags_to_clear`, for the admin `caller`.
    pub fn set_grant_flags(
        &mut self,
        caller: Address,
        grant_id: u64,
        flags_to_set: u32,
        flags_to_clear: u32,
        now: u64,
    ) -> (r: Result<(), LedgerError>)
        requires
            old(self).wf(),
        ensures
            final(self).wf(),
            applied(
                old(self)@,
                final(self)@,
                r,
                old(self)@.admin_step(
                    caller,
                    grant_id,
                    Operation::SetFlags { flags_to_set, flags_to_clear },
                    now,
                ),
            ),
    {
        self.require_admin(&caller)?;
        let mut grant = self.read_grant(grant_id)?;
        grant.set_flags(flags_to_set, flags_to_clear, now)?;
        proof {
            lemma_step_keeps_invariant(
                old(self)@.grants[grant_id],
                Operation::SetFlags { flags_to_set, flags_to_clear },
                now,
            );
        }
        self.write_grant(grant_id, grant);
        Ok(())
    }

    /// What the ledger owes to its grants: for each active grant, the total
    /// less what was withdrawn. It fails where the sum leaves `i128`.
    pub fn total_allocated_funds(&self) -> (r: Result<i128, LedgerError>)
        requires
            self.wf(),
        ensures
            match r {
                Ok(v) => v == self@.total_allocated(),
                Err(e) => e == LedgerError::MathOverflow && self@.total_allocated() > i128::MAX,
            },
    {
        let mut total: i128 = 0;
        let mut i: usize = 0;
        while i < self.grant_ids.len()
            invariant
                self.wf(),
                i <= self.grant_ids.len(),
                self.grant_ids@ == self@.ids,
                self.grants@ == self@.grants,
                total == self@.allocated_to(self@.ids.take(i as int)),
                total >= 0,
            decreases self.grant_ids.len() - i,
        {
            let id = self.grant_ids[i];
            proof {
                assert(self@.ids.contains(id));
                assert(self@.ids.take(i + 1).drop_last() == self@.ids.take(i as int));
                lemma_allocated_grows(self@, i + 1);
            }
            let owed: i128 = match self.grants.get(&id) {
                Some(g) => match g.get_status() {
                    GrantStatus::Active => g.total_amount - g.withdrawn,
                    _ => 0,
                },
                None => 0,
            };
            total = match total.checked_add(owed) {
                Some(v) => v,
                None => {
                    return Err(LedgerError::MathOverflow);
                },
            };
            i += 1;
        }
        proof {
            assert(self@.ids.take(i as int) == self@.ids);
        }
        Ok(total)
    }

    /// Whether `amount` of `token` may leave the ledger, whose balance of that
    /// token is `balance`, for `to`; on success, the payment to make. The
    /// ledger is not changed.
    pub fn rescue_tokens(
        &self,
        caller: Address,
        token: Address,
        amount: i128,
        to: Address,
        balance: i128,
    ) -> (r: Result<Transfer, LedgerError>)
        requires
            self.wf(),
        ensures
            match self@.rescue_bar(caller, token, amount, balance) {
                Some(e) => r == Err::<Transfer, LedgerError>(e),
                None => r == Ok::<Transfer, LedgerError>(Transfer { to, amount }),
            },
    {
        self.require_admin(&caller)?;
        if amount <= 0 {
            return Err(LedgerError::InvalidAmount);
        }
        let grant_token = match self.config {
            Some(c) => c.grant_token,
            None => {
                return Err(LedgerError::NotInitialized);
            },
        };
        if token.same(&grant_token) {
            let allocated = self.total_allocated_funds()?;
            let left = match balance.checked_sub(amount) {
                Some(v) => v,
                None => {
                    return Err(LedgerError::MathOverflow);
                },
            };
            if left < allocated {
                return Err(LedgerError::RescueWouldViolateAllocated);
            }
        }
        Ok(Transfer { to, amount })
    }
}

/// What is owed to the first `k` grants is not negative and no more than what
/// is owed to all.
pub proof fn lemma_allocated_grows(l: Ledger, k: int)
    requires
        l.wf(),
        0 <= k <= l.ids.len(),
    ensures
        0 <= l.allocated_to(l.ids.take(k)) <= l.total_allocated(),
    decreases l.ids.len() - k,
{
    lemma_allocated_not_negative(l, l.ids.take(k));
    if k < l.ids.len() {
        lemma_allocated_grows(l, k + 1);
        let id = l.ids[k];
        assert(l.ids.contains(id));
        assert(l.ids.take(k + 1).drop_last() == l.ids.take(k));
        assert(l.grants[id].wf());
    } else {
        assert(l.ids.take(k) == l.ids);
    }
}

proof fn lemma_allocated_not_negative(l: Ledger, ids: Seq<u64>)
    requires
        l.wf(),
        forall|i: int| 0 <= i < ids.len() ==> l.ids.contains(#[trigger] ids[i]),
    ensures
        0 <= l.allocated_to(ids),
    decreases ids.len(),
{
    if ids.len() > 0 {
        lemma_allocated_not_negative(l, ids.drop_last());
        assert(l.ids.contains(ids[ids.len() - 1]));
        assert(l.grants[ids.last()].wf());
    }
}

} // verus!
