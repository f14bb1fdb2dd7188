//! Records of what the operations of the ledger cost on a host, and what a
//! new set of records saves against the costs known before.

use vstd::prelude::*;

verus! {

/// What one operation cost.
#[derive(Clone, Debug, PartialEq, Eq)]
pub struct GasBenchmark {
    /// The name of the operation.
    pub operation: String,
    pub gas_consumed: u64,
    pub storage_cost: u64,
    pub cpu_cost: u64,
}

/// What creating a grant cost before: several entries were stored.
pub const OLD_GRANT_CREATION_COST: u64 = 850000;

/// What a check of the status cost before: several entries were read.
pub const OLD_STATUS_CHECK_COST: u64 = 45000;

/// What a pause and a resumption cost before: several entries were written.
pub const OLD_PAUSE_RESUME_COST: u64 = 120000;

/// What a withdrawal cost before.
pub const OLD_WITHDRAWAL_COST: u64 = 95000;

impl GasBenchmark {
    /// The record of `operation` with the given costs.
    pub fn new(operation: &str, gas_consumed: u64, storage_cost: u64, cpu_cost: u64) -> (r:
        GasBenchmark)
        ensures
            r.operation@ == operation@,
            r.gas_consumed == gas_consumed,
            r.storage_cost == storage_cost,
            r.cpu_cost == cpu_cost,
    {
        GasBenchmark { operation: operation.to_owned(), gas_consumed, storage_cost, cpu_cost }
    }

    /// Whether this is the record of `operation` with the costs `measured`:
    /// gas, storage and processor, in this order.
    pub open spec fn records(self, operation: Seq<char>, measured: (u64, u64, u64)) -> bool {
        &&& self.operation@ == operation
        &&& self.gas_consumed == measured.0
        &&& self.storage_cost == measured.1
        &&& self.cpu_cost == measured.2
    }
}

/// Files the five measurements of a run, each as gas, storage and processor
/// cost, under the names of their operations.
pub fn run_benchmarks(
    grant_creation: (u64, u64, u64),
    status_check: (u64, u64, u64),
    pause_resume: (u64, u64, u64),
    withdrawal: (u64, u64, u64),
    batch_operations: (u64, u64, u64),
) -> (r: Vec<GasBenchmark>)
    ensures
        r@.len() == 5,
        r@[0].records("Grant Creation (Optimized)"@, grant_creation),
        r@[1].records("Status Check (Bitwise)"@, status_check),
        r@[2].records("Pause/Resume (Bitwise)"@, pause_resume),
        r@[3].records("Withdrawal (Optimized)"@, withdrawal),
        r@[4].records("Batch Status Operations"@, batch_operations),
{
    let mut benchmarks = Vec::new();
    benchmarks.push(
        GasBenchmark::new(
            "Grant Creation (Optimized)",
            grant_creation.0,
            grant_creation.1,
            grant_creation.2,
        ),
    );
    benchmarks.push(
        GasBenchmark::new("Status Check (Bitwise)", status_check.0, status_check.1, status_check.2),
    );
    benchmarks.push(
        GasBenchmark::new("Pause/Resume (Bitwise)", pause_resume.0, pause_resume.1, pause_resume.2),
    );
    benchmarks.push(
        GasBenchmark::new("Withdrawal (Optimized)", withdrawal.0, withdrawal.1, withdrawal.2),
    );
    benchmarks.push(
        GasBenchmark::new(
            "Batch Status Operations",
            batch_operations.0,
            batch_operations.1,
            batch_operations.2,
        ),
    );
    benchmarks
}

/// Whether `pattern` stands somewhere in `text`.
pub open spec fn occurs_in(pattern: Seq<char>, text: Seq<char>) -> bool {
    exists|i: int|
        0 <= i && i + pattern.len() <= text.len() && #[trigger] text.subrange(
            i,
            i + pattern.len(),
        ) == pattern
}

/// Calls `str::contains` of std with a string as the pattern, which is
/// documented to tell whether the pattern matches a part of the text.
#[verifier::external_body]
fn name_contains(text: &String, pattern: &str) -> (r: bool)
    ensures
        r == occurs_in(pattern@, text@),
{
    text.contains(pattern)
}

/// The gas of the first record whose name holds `pattern`, 0 where there is
/// none.
pub open spec fn cost_of(benchmarks: Seq<GasBenchmark>, pattern: Seq<char>) -> u64
    decreases benchmarks.len(),
{
    if benchmarks.len() == 0 {
        0
    } else if occurs_in(pattern, benchmarks[0].operation@) {
        benchmarks[0].gas_consumed
    } else {
        cost_of(benchmarks.drop_first(), pattern)
    }
}

/// The gas of the first of `benchmarks` whose name holds `pattern`, 0 where
/// there is none.
pub fn find_cost(benchmarks: &Vec<GasBenchmark>, pattern: &str) -> (r: u64)
    ensures
        r == cost_of(benchmarks@, pattern@),
{
    let mut i: usize = 0;
    proof {
        assert(benchmarks@.skip(0) == benchmarks@);
    }
    while i < benchmarks.len()
        invariant
            i <= benchmarks.len(),
            cost_of(benchmarks@, pattern@) == cost_of(benchmarks@.skip(i as int), pattern@),
        decreases benchmarks.len() - i,
    {
        proof {
            assert(benchmarks@.skip(i as int).drop_first() == benchmarks@.skip(i + 1));
        }
        if name_contains(&benchmarks[i].operation, pattern) {
            return benchmarks[i].gas_consumed;
        }
        i += 1;
    }
    0
}

/// What the four operations cost before, taken together.
pub open spec fn old_total_cost() -> int {
    OLD_GRANT_CREATION_COST + OLD_STATUS_CHECK_COST + OLD_PAUSE_RESUME_COST + OLD_WITHDRAWAL_COST
}

/// What the four operations cost in `benchmarks`, taken together.
pub open spec fn new_total_cost(benchmarks: Seq<GasBenchmark>) -> int {
    cost_of(benchmarks, "Grant Creation"@) + cost_of(benchmarks, "Status Check"@) + cost_of(
        benchmarks,
        "Pause/Resume"@,
    ) + cost_of(benchmarks, "Withdrawal"@)
}

/// What `benchmarks` save against the costs known before: the gas by which
/// creation, status check, pause and resumption, and withdrawal together are
/// cheaper, and 0 where they are not.
pub fn gas_savings(benchmarks: &Vec<GasBenchmark>) -> (r: u64)
    ensures
        r == if old_total_cost() > new_total_cost(benchmarks@) {
            old_total_cost() - new_total_cost(benchmarks@)
        } else {
            0
        },
{
    let total_old_cost: u64 = OLD_GRANT_CREATION_COST + OLD_STATUS_CHECK_COST
        + OLD_PAUSE_RESUME_COST + OLD_WITHDRAWAL_COST;
    let mut left = total_old_cost;
    let creation = find_cost(benchmarks, "Grant Creation");
    let status_check = find_cost(benchmarks, "Status Check");
    let pause_resume = find_cost(benchmarks, "Pause/Resume");
    let withdrawal = find_cost(benchmarks, "Withdrawal");
    left = left.saturating_sub(creation);
    left = left.saturating_sub(status_check);
    left = left.saturating_sub(pause_resume);
    left.saturating_sub(withdrawal)
}

} // verus!
