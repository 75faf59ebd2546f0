use catalyst::reanchor::{extract_block_transactions, reanchor_window, ReanchorJob, ReanchorStep, ReanchorWalk};

#[test]
fn window_is_bounded_by_the_gap() {
    assert_eq!(reanchor_window(10, 1000, 995), (996, 5));
    assert_eq!(reanchor_window(3, 1000, 900), (998, 3));
    assert_eq!(reanchor_window(0, 1000, 900), (1001, 0));
    assert_eq!(reanchor_window(4, 1000, 1000), (1001, 0));
}

/// Runs the walk with a stub that reanchors every block, reporting a forced
/// inclusion for the positions listed in `fi_before`, once each.
fn run(flags: &[bool], has_txs: &[bool], max: u64, fi_before: &[usize]) -> (Vec<ReanchorJob>, u64) {
    let mut walk = ReanchorWalk::new(flags.len(), max);
    let mut jobs = Vec::new();
    let mut fi_used = Vec::new();
    loop {
        match walk.next(flags) {
            ReanchorStep::Done => break,
            ReanchorStep::Inspect(p) => {
                if let Some(job) = walk.decide(has_txs[p]) {
                    jobs.push(job);
                    let fi = job.allow_forced_inclusion && fi_before.contains(&p) && !fi_used.contains(&p);
                    if fi {
                        fi_used.push(p);
                    }
                    walk.record_reanchored(fi);
                }
            }
        }
    }
    (jobs, walk.processed())
}

#[test]
fn forced_inclusion_blocks_are_skipped() {
    let (jobs, processed) = run(&[false, true, false], &[true, true, true], 10, &[]);
    let positions: Vec<usize> = jobs.iter().map(|j| j.position).collect();
    assert_eq!(positions, vec![0, 2]);
    assert_eq!(processed, 2);
    assert!(jobs[0].use_first_slot_info);
    assert!(!jobs[1].use_first_slot_info);
    assert!(jobs[0].allow_forced_inclusion);
    assert!(!jobs[1].allow_forced_inclusion);
}

#[test]
fn empty_blocks_are_skipped_after_the_first() {
    let (jobs, _) = run(&[false, false, false, false], &[false, false, true, false], 10, &[]);
    let positions: Vec<usize> = jobs.iter().map(|j| j.position).collect();
    assert_eq!(positions, vec![0, 2]);
}

#[test]
fn maximum_stops_the_walk() {
    let (jobs, processed) = run(&[false; 5], &[true; 5], 2, &[]);
    assert_eq!(processed, 2);
    assert_eq!(jobs.len(), 2);
    assert!(!jobs[1].allow_forced_inclusion);
}

#[test]
fn forced_inclusion_repeats_the_block() {
    let (jobs, processed) = run(&[false, false], &[true, true], 10, &[0]);
    let positions: Vec<usize> = jobs.iter().map(|j| j.position).collect();
    assert_eq!(positions, vec![0, 0, 1]);
    assert_eq!(processed, 3);
}

#[test]
fn nothing_to_do_for_no_blocks() {
    let (jobs, processed) = run(&[], &[], 10, &[]);
    assert!(jobs.is_empty());
    assert_eq!(processed, 0);
}

#[test]
fn failed_reanchor_ends_the_walk() {
    let mut walk = ReanchorWalk::new(3, 10);
    match walk.next(&[false, false, false]) {
        ReanchorStep::Inspect(p) => assert_eq!(p, 0),
        ReanchorStep::Done => panic!("expected a block to inspect"),
    }
    assert!(walk.decide(true).is_some());
    let f = walk.record_failure(1207, "engine unavailable");
    assert!(f.cancel_on_critical_error);
    assert_eq!(f.error.message(), "Failed to reanchor block 1207: engine unavailable");
}

#[test]
fn block_transactions_drop_the_anchor() {
    assert_eq!(extract_block_transactions(5, Some(vec!["anchor", "a"])).unwrap(), vec!["a"]);
    for missing in [None, Some(Vec::<&str>::new())] {
        let f = extract_block_transactions(5, missing).unwrap_err();
        assert!(!f.cancel_on_critical_error);
        assert_eq!(f.error.message(), "Cannot extract transactions from block 5");
    }
}
