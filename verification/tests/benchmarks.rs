use grant_contracts::benchmarks::{
    find_cost, gas_savings, run_benchmarks, GasBenchmark, OLD_GRANT_CREATION_COST,
    OLD_PAUSE_RESUME_COST, OLD_STATUS_CHECK_COST, OLD_WITHDRAWAL_COST,
};

fn sample() -> Vec<GasBenchmark> {
    run_benchmarks((600_000, 1, 2), (30_000, 3, 4), (100_000, 5, 6), (80_000, 7, 8), (9_000, 9, 10))
}

#[test]
fn new_records_what_it_is_given() {
    let b = GasBenchmark::new("Withdrawal (Optimized)", 10, 20, 30);
    assert_eq!(
        b,
        GasBenchmark {
            operation: String::from("Withdrawal (Optimized)"),
            gas_consumed: 10,
            storage_cost: 20,
            cpu_cost: 30,
        }
    );
    assert_eq!(GasBenchmark::new("", 0, 0, 0).operation, "");
}

#[test]
fn a_run_files_five_records_in_order() {
    let run = sample();
    assert_eq!(
        run,
        vec![
            GasBenchmark::new("Grant Creation (Optimized)", 600_000, 1, 2),
            GasBenchmark::new("Status Check (Bitwise)", 30_000, 3, 4),
            GasBenchmark::new("Pause/Resume (Bitwise)", 100_000, 5, 6),
            GasBenchmark::new("Withdrawal (Optimized)", 80_000, 7, 8),
            GasBenchmark::new("Batch Status Operations", 9_000, 9, 10),
        ]
    );
}

#[test]
fn cost_is_that_of_the_first_record_that_matches() {
    let run = sample();
    assert_eq!(find_cost(&run, "Grant Creation"), 600_000);
    assert_eq!(find_cost(&run, "Status"), 30_000);
    assert_eq!(find_cost(&run, "Bitwise"), 30_000);
    assert_eq!(find_cost(&run, "Batch Status Operations"), 9_000);
    assert_eq!(find_cost(&run, "Optimized)"), 600_000);
    assert_eq!(find_cost(&run, ""), 600_000);
    assert_eq!(find_cost(&run, "withdrawal"), 0);
    assert_eq!(find_cost(&run, "Batch Status Operations "), 0);
    assert_eq!(find_cost(&vec![], "Withdrawal"), 0);
    assert_eq!(find_cost(&vec![GasBenchmark::new("Withdrawal", 5, 0, 0)], "Withdrawal (Optimized)"), 0);
}

#[test]
fn savings_are_old_costs_less_new_costs() {
    assert_eq!(OLD_GRANT_CREATION_COST, 850_000);
    assert_eq!(OLD_STATUS_CHECK_COST, 45_000);
    assert_eq!(OLD_PAUSE_RESUME_COST, 120_000);
    assert_eq!(OLD_WITHDRAWAL_COST, 95_000);
    assert_eq!(gas_savings(&sample()), 1_110_000 - 810_000);
    assert_eq!(gas_savings(&vec![]), 1_110_000);
    assert_eq!(gas_savings(&vec![GasBenchmark::new("Withdrawal", 1_110_000, 0, 0)]), 0);
    assert_eq!(gas_savings(&vec![GasBenchmark::new("Withdrawal", 1_109_999, 0, 0)]), 1);
    assert_eq!(gas_savings(&vec![GasBenchmark::new("Status Check", u64::MAX, 0, 0)]), 0);
    assert_eq!(
        gas_savings(&vec![
            GasBenchmark::new("Status Check", u64::MAX, 0, 0),
            GasBenchmark::new("Withdrawal", u64::MAX, 0, 0),
        ]),
        0
    );
    assert_eq!(
        gas_savings(&vec![GasBenchmark::new("Status Check and Withdrawal", 10, 0, 0)]),
        1_110_000 - 20
    );
}
