use rpm_timer::source::SliceRun;
use rpm_timer::RpmTimer;

// one item per second, in thousandths of an item per minute
const ONE_PER_SECOND: u64 = 60_000;
const TICK: u64 = 100_000_000;

/// Drives a slice run with a simulated clock (a fixed elapsed time per tick)
/// and instantaneous workers, returning every dispatched batch together with
/// the index of the tick that dispatched it.
fn drive<'a, T>(
    timer: &RpmTimer,
    items: &'a [T],
    tick_nanos: u64,
    max_ticks: usize,
) -> Vec<(usize, &'a [T])> {
    let mut run = SliceRun::new(items, timer.begin());
    let mut dispatched = Vec::new();
    let mut tick_index: usize = 0;
    while !run.is_finished() && tick_index < max_ticks {
        let elapsed = if tick_index == 0 { 0 } else { tick_nanos };
        if let Some(batch) = run.tick(elapsed, 0) {
            dispatched.push((tick_index, batch));
        }
        tick_index += 1;
    }
    assert!(run.is_finished(), "the source was not exhausted in {max_ticks} ticks");
    dispatched
}

#[test]
fn one_item_per_second_scenario() {
    let items = [1, 2, 3, 4, 5];
    let timer = RpmTimer::default()
        .rps_limit(1_000)
        .tick(TICK)
        .max_threads(Some(1));
    let dispatched = drive(&timer, &items, TICK, 1_000);

    // five batches of one item each, in original order
    assert_eq!(dispatched.len(), 5);
    let flat: Vec<i32> = dispatched.iter().flat_map(|(_, b)| b.iter().copied()).collect();
    assert_eq!(flat, vec![1, 2, 3, 4, 5]);
    for (_, batch) in &dispatched {
        assert_eq!(batch.len(), 1);
    }
    // admissions one simulated second (ten ticks) apart, four seconds in all
    let ticks: Vec<usize> = dispatched.iter().map(|(t, _)| *t).collect();
    assert_eq!(ticks, vec![0, 10, 20, 30, 40]);
}

#[test]
fn empty_source_returns_immediately() {
    let items: [i32; 0] = [];
    let timer = RpmTimer::default().max_threads(Some(1));
    let mut run = SliceRun::new(&items, timer.begin());
    let first = run.tick(0, 0);
    // nothing is dispatched and the run is over after the very first tick
    assert!(first.is_none());
    assert!(run.is_finished());
}

#[test]
fn unthrottled_run_finishes_in_few_batches() {
    let items: Vec<u32> = (0..100).collect();
    // one thousand items per second: effectively unthrottled for 100 items
    let timer = RpmTimer::default()
        .rps_limit(1_000_000)
        .tick(TICK)
        .max_threads(Some(4));
    let dispatched = drive(&timer, &items, TICK, 1_000);

    assert!(dispatched.len() <= 4, "{} batches", dispatched.len());
    let flat: Vec<u32> = dispatched.iter().flat_map(|(_, b)| b.iter().copied()).collect();
    assert_eq!(flat, items);
}

#[test]
fn saturated_pool_blocks_admission_and_banks_credit() {
    let items: Vec<u32> = (0..50).collect();
    let timer = RpmTimer::default().rpm_limit(ONE_PER_SECOND).max_threads(Some(1));
    let mut run = SliceRun::new(&items, timer.begin());

    // five simulated seconds with the single worker busy: nothing may go out
    for _ in 0..5 {
        assert!(run.tick(1_000_000_000, 1).is_none());
    }
    // the moment the worker frees up, the banked credit is released at once:
    // the initial item plus five seconds' worth
    let batch = run.tick(0, 0).expect("backlog should be admitted");
    assert_eq!(batch, &[0, 1, 2, 3, 4, 5]);
    assert!(!run.is_finished());
}

#[test]
fn batches_partition_the_source_under_changing_load() {
    let items: Vec<u32> = (0..37).collect();
    let timer = RpmTimer::default()
        .rps_limit(7_500)
        .tick(TICK)
        .max_threads(Some(2));
    let mut run = SliceRun::new(&items, timer.begin());
    let mut flat: Vec<u32> = Vec::new();
    let mut batches: usize = 0;
    let mut tick_index: usize = 0;
    while !run.is_finished() {
        // workers look busy on every third tick
        let active = if tick_index % 3 == 2 { 2 } else { 1 };
        if let Some(batch) = run.tick(TICK, active) {
            flat.extend_from_slice(batch);
            assert!(!batch.is_empty());
            batches += 1;
        }
        tick_index += 1;
        assert!(tick_index < 10_000);
    }
    // completeness and order: the batches concatenate to the source
    assert_eq!(flat, items);
    assert!(batches > 1);
}

#[test]
fn no_admission_without_credit() {
    let items = [9, 9, 9];
    let timer = RpmTimer::default().rpm_limit(ONE_PER_SECOND).max_threads(Some(1));
    let mut run = SliceRun::new(&items, timer.begin());
    // the initial whole item goes out on the first tick
    assert!(run.tick(0, 0).is_some());
    // after a tenth of a second only a tenth of an item is held
    assert!(run.tick(TICK, 0).is_none());
}

#[test]
fn zero_rate_admits_only_the_initial_credit() {
    // a degenerate rate of zero is not validated: the initial whole item
    // still goes out, and the run then never finishes on its own
    let items = [1, 2, 3];
    let timer = RpmTimer::default().rpm_limit(0).max_threads(Some(1));
    let mut run = SliceRun::new(&items, timer.begin());
    let first = run.tick(0, 0).expect("the initial credit admits one item");
    assert_eq!(first, &[1][..]);
    for _ in 0..1_000 {
        assert!(run.tick(1_000_000_000, 0).is_none());
    }
    assert!(!run.is_finished());
}

#[test]
fn zero_capacity_never_admits() {
    // with no worker allowed, the pool is saturated from the start
    let items = [1, 2, 3];
    let timer = RpmTimer::default().max_threads(Some(0));
    let mut run = SliceRun::new(&items, timer.begin());
    for _ in 0..100 {
        assert!(run.tick(1_000_000_000, 0).is_none());
    }
    assert!(!run.is_finished());
}
