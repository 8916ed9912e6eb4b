use kicad_sch_ui::stats::{FrameStats, DEFAULT_WINDOW, STALL_NANOS};

const MS: u64 = 1_000_000;

fn stats_with(intervals: &[u64]) -> FrameStats {
    let mut stats = FrameStats::new(180);
    let mut now = 0;
    stats.tick_at(now);
    for ms in intervals {
        now += ms * MS;
        stats.tick_at(now);
    }
    stats
}

#[test]
fn a_fresh_window_reports_nothing() {
    let stats = FrameStats::default();
    assert!(stats.is_empty());
    assert_eq!(stats.capacity(), DEFAULT_WINDOW);
    assert_eq!(stats.total_nanos(), 0);
    assert!(stats.sorted_samples().is_empty());
}

#[test]
fn the_first_tick_is_a_boundary_not_an_interval() {
    let mut stats = FrameStats::default();
    stats.tick_at(123);
    assert_eq!(stats.len(), 0);
    assert_eq!(stats.frame_count(), 1);
}

#[test]
fn the_window_is_bounded() {
    let mut stats = FrameStats::new(8);
    let mut now = 0;
    for _ in 0..50 {
        stats.tick_at(now);
        now += 8 * MS;
    }
    assert_eq!(stats.len(), 8);
}

#[test]
fn a_suspended_window_does_not_poison_the_measurements() {
    let mut stats = FrameStats::new(16);
    let mut now = 0;
    stats.tick_at(now);
    for _ in 0..4 {
        now += 8 * MS;
        stats.tick_at(now);
    }
    now += 30_000 * MS;
    stats.tick_at(now);
    assert!(stats.is_empty(), "the outlier should clear the window");
}

#[test]
fn toggling_reports_the_new_state() {
    let mut stats = FrameStats::default();
    assert!(stats.toggle());
    assert!(stats.is_enabled());
    assert!(!stats.toggle());
}

#[test]
fn intervals_are_kept_oldest_first_and_sum_exactly() {
    let stats = stats_with(&[8, 9, 8, 10, 8]);
    assert_eq!(stats.samples(), vec![8 * MS, 9 * MS, 8 * MS, 10 * MS, 8 * MS]);
    assert_eq!(stats.total_nanos(), 43 * MS as u128);
    assert_eq!(stats.sorted_samples(), vec![8 * MS, 8 * MS, 8 * MS, 9 * MS, 10 * MS]);
    assert_eq!(stats.sample(3), 10 * MS);
    assert_eq!(stats.frame_count(), 6);
}

#[test]
fn a_second_exactly_is_not_a_stall() {
    let mut stats = FrameStats::new(4);
    stats.tick_at(0);
    stats.tick_at(STALL_NANOS);
    assert_eq!(stats.len(), 1);
    stats.tick_at(2 * STALL_NANOS + 1);
    assert!(stats.is_empty());
}

#[test]
fn a_clock_that_goes_back_measures_nothing_long() {
    let mut stats = FrameStats::new(4);
    stats.tick_at(10 * MS);
    stats.tick_at(5 * MS);
    assert_eq!(stats.samples(), vec![0]);
}

#[test]
fn a_zero_capacity_still_keeps_one_interval() {
    let mut stats = FrameStats::new(0);
    assert_eq!(stats.capacity(), 1);
    stats.tick_at(0);
    stats.tick_at(MS);
    stats.tick_at(3 * MS);
    assert_eq!(stats.samples(), vec![2 * MS]);
}

#[test]
fn resetting_restarts_the_clock() {
    let mut stats = stats_with(&[8, 8]);
    stats.set_enabled(true);
    stats.reset();
    assert!(stats.is_empty());
    assert!(stats.is_enabled());
    stats.tick_at(1_000 * MS);
    assert!(stats.is_empty());
    assert_eq!(stats.frame_count(), 4);
}
