use sim2d::timer::Timer;
use std::time::{Duration, Instant};

#[test]
fn tock_returns_the_time_since_the_tick_and_averages_it() {
    let mut timer = Timer::new_at(Instant::now(), 0, 0, 1_000);
    timer.tick_at(100);
    assert_eq!(timer.tock_at(130), 30);
    timer.tick_at(200);
    assert_eq!(timer.tock_at(250), 50);
    timer.tick_at(300);
    assert_eq!(timer.tock_at(311), 11);
    // (30 + 50 + 11) / 3, folded in one sample at a time: 30, 40, 30
    assert_eq!(timer.report_average_at(999, 999), None);
    assert_eq!(timer.report_average_at(1_000, 1_005), Some(30));
    // the next report is due a report rate after the reset time
    assert_eq!(timer.report_average_at(2_004, 2_004), None);
    assert_eq!(timer.report_average_at(2_005, 2_005), Some(0));
}

#[test]
fn tock_before_the_tick_counts_nothing() {
    let mut timer = Timer::new_at(Instant::now(), 500, 0, 10);
    assert_eq!(timer.tock_at(400), 0);
}

#[test]
fn running_average_rounds_down_each_step() {
    let mut timer = Timer::new_at(Instant::now(), 0, 0, 1);
    timer.tick_at(0);
    assert_eq!(timer.tock_at(1), 1);
    timer.tick_at(0);
    assert_eq!(timer.tock_at(2), 2);
    // (1 * 1 + 2) / 2 = 1
    assert_eq!(timer.report_average_at(10, 10), Some(1));
}

#[test]
fn can_tock_at_guards_the_duration_range() {
    let timer = Timer::new_at(Instant::now(), 0, 0, 1);
    assert!(timer.can_tock_at(1_000));
    assert!(timer.can_tock_at(18_446_744_073_709_551_615_999_999_999));
    assert!(!timer.can_tock_at(18_446_744_073_709_551_616_000_000_000));
}

#[test]
fn clock_timer_measures_real_time() {
    let mut timer = Timer::new_with_report_rate(Duration::from_secs(3600));
    timer.tick();
    let delta = timer.tock().unwrap();
    assert!(delta < Duration::from_secs(3600));
    assert_eq!(timer.report_average(), None);
    let mut reporting = Timer::new_with_report_rate(Duration::from_secs(0));
    reporting.tick();
    reporting.tock().unwrap();
    assert!(reporting.report_average().is_some());
    assert_eq!(reporting.report_average(), Some(Duration::from_secs(0)));
}

#[test]
fn reported_average_of_one_sample_is_that_sample() {
    let mut timer = Timer::new_with_report_rate(Duration::from_secs(0));
    timer.tick();
    let start = Instant::now();
    while start.elapsed() < Duration::from_millis(2) {}
    let delta = timer.tock().unwrap();
    assert!(delta >= Duration::from_millis(2));
    assert_eq!(timer.report_average(), Some(delta));
}

#[test]
fn equal_samples_average_to_that_sample() {
    let mut timer = Timer::new_at(Instant::now(), 0, 0, 100);
    for start in [0u128, 10, 20, 30] {
        timer.tick_at(start);
        assert_eq!(timer.tock_at(start + 7), 7);
    }
    assert_eq!(timer.report_average_at(100, 100), Some(7));
}

#[test]
fn report_due_from_the_start_is_always_given() {
    let mut timer = Timer::new_at(Instant::now(), 0, 0, 0);
    assert!(timer.tock().is_some());
    assert!(timer.report_average().is_some());
}
