use vellum::GameLoop;

#[test]
fn sixty_hertz_period() {
    let clock = GameLoop::new(60);
    assert_eq!(clock.update_period(), 16_666_666);
    assert_eq!(clock.accumulated(), 0);
}

#[test]
fn short_frames_accumulate_then_update() {
    let mut clock = GameLoop::new(60);
    let first = clock.advance(16_000_000);
    assert_eq!(first, 0);
    assert_eq!(clock.accumulated(), 16_000_000);
    let second = clock.advance(16_000_000);
    assert_eq!(second, 1);
    assert_eq!(clock.accumulated(), 32_000_000 - 16_666_666);
    assert_eq!(clock.accumulated(), 15_333_334);
}

#[test]
fn stall_produces_burst_of_updates() {
    let mut clock = GameLoop::new(60);
    let count = clock.advance(500_000_000);
    assert_eq!(count, 30);
    assert_eq!(clock.accumulated(), 20);
}

#[test]
fn zero_delta_runs_no_update() {
    let mut clock = GameLoop::new(60);
    assert_eq!(clock.advance(0), 0);
    assert_eq!(clock.accumulated(), 0);
}

#[test]
fn exact_period_drains_bucket() {
    let mut clock = GameLoop::new(100);
    assert_eq!(clock.advance(10_000_000), 1);
    assert_eq!(clock.accumulated(), 0);
    assert_eq!(clock.advance(30_000_000), 3);
    assert_eq!(clock.accumulated(), 0);
}

#[test]
fn updates_never_outrun_time_fed_in() {
    let mut clock = GameLoop::new(60);
    let deltas: Vec<u64> = vec![3_000_000, 16_000_000, 17_000_000, 0, 250_000_000, 1, 33_333_333];
    let mut fed: u64 = 0;
    let mut updates: u64 = 0;
    for d in deltas {
        fed += d;
        updates += clock.advance(d);
        assert!(clock.accumulated() < clock.update_period());
        assert!(updates * clock.update_period() <= fed);
        assert_eq!(updates * clock.update_period() + clock.accumulated(), fed);
    }
}

#[test]
fn one_update_per_nanosecond_at_most() {
    let mut clock = GameLoop::new(1_000_000_000);
    assert_eq!(clock.update_period(), 1);
    assert_eq!(clock.advance(7), 7);
    assert_eq!(clock.accumulated(), 0);
}

#[test]
fn tick_keeps_bucket_consistent() {
    let mut clock = GameLoop::new(1000);
    let period = clock.update_period();
    let before = clock.accumulated();
    let (elapsed, count) = clock.tick();
    assert!(clock.accumulated() < period);
    assert_eq!(before + elapsed, count * period + clock.accumulated());
    let before = clock.accumulated();
    let (elapsed, count) = clock.tick();
    assert_eq!(before + elapsed, count * period + clock.accumulated());
}

#[test]
fn tick_at_measures_from_the_given_reading() {
    let start = std::time::Instant::now();
    let mut clock = GameLoop::new_at(60, start);
    assert_eq!(clock.last_update(), start);
    let later = start + std::time::Duration::from_millis(16);
    assert_eq!(clock.tick_at(later, 16_000_000), (16_000_000, 0));
    assert_eq!(clock.last_update(), later);
    let next = later + std::time::Duration::from_millis(16);
    assert_eq!(clock.tick_at(next, 16_000_000), (16_000_000, 1));
    assert_eq!(clock.last_update(), next);
    assert_eq!(clock.accumulated(), 15_333_334);
}

#[test]
fn tick_at_saturates_at_what_the_bucket_can_take() {
    let start = std::time::Instant::now();
    let mut clock = GameLoop::new_at(1_000_000_000, start);
    let (counted, updates) = clock.tick_at(start, u128::MAX);
    assert_eq!(counted, u64::MAX);
    assert_eq!(updates, u64::MAX);
    assert_eq!(clock.accumulated(), 0);
}

#[test]
fn tick_moves_the_reference_point_forward() {
    let mut clock = GameLoop::new(60);
    let first = clock.last_update();
    clock.tick();
    let second = clock.last_update();
    assert!(second >= first);
    clock.tick();
    assert!(clock.last_update() >= second);
}
