use karaoke::timer::reading_of;
use karaoke::timer::Timer;

#[test]
fn new_timer_is_paused_and_has_counted_nothing() {
    let mut timer = Timer::new();
    assert!(timer.is_paused());
    assert_eq!(timer.elapsed_time_at(5_000), 0);
    assert_eq!(timer.elapsed_time(), 0);
    assert_eq!(timer.duration_since_touch_at(5_000), 0);
    assert_eq!(timer.time_left_to_process_at(5_000), 0);
}

#[test]
fn elapsed_counts_the_interval_in_progress() {
    let mut timer = Timer::new();
    timer.resume_at(100);
    assert!(!timer.is_paused());
    assert_eq!(timer.elapsed_time_at(350), 250);
    assert_eq!(timer.elapsed_time_at(100), 0);
}

#[test]
fn elapsed_adds_up_the_intervals_between_resume_and_pause() {
    let mut timer = Timer::new();
    timer.resume_at(100);
    timer.pause_at(400);
    assert_eq!(timer.elapsed_time_at(1_000), 300);
    timer.resume_at(2_000);
    assert_eq!(timer.elapsed_time_at(2_100), 400);
    timer.pause_at(2_500);
    assert_eq!(timer.elapsed_time_at(9_999), 800);
}

#[test]
fn pause_twice_is_pause_once() {
    let mut once = Timer::new();
    once.resume_at(10);
    once.pause_at(60);
    let mut twice = Timer::new();
    twice.resume_at(10);
    twice.pause_at(60);
    twice.pause_at(500);
    assert!(twice.is_paused());
    for now in [0u64, 60, 500, 10_000] {
        assert_eq!(once.elapsed_time_at(now), 50);
        assert_eq!(twice.elapsed_time_at(now), 50);
        assert_eq!(once.duration_since_touch_at(now), twice.duration_since_touch_at(now));
    }
}

#[test]
fn elapsed_never_goes_back_while_running() {
    let mut timer = Timer::new();
    timer.resume_at(1_000);
    let mut last = 0;
    for now in [1_000u64, 1_001, 1_500, 1_500, 80_000, u64::MAX] {
        let elapsed = timer.elapsed_time_at(now);
        assert!(elapsed >= last);
        last = elapsed;
    }
    assert_eq!(last, u64::MAX - 1_000);
}

#[test]
fn elapsed_on_the_machine_clock_never_goes_back() {
    let mut timer = Timer::new();
    timer.resume();
    let first = timer.elapsed_time();
    let mut spin = 0u64;
    for i in 0..100_000u64 {
        spin = spin.wrapping_add(i);
    }
    assert!(spin > 0);
    let second = timer.elapsed_time();
    assert!(second >= first);
    timer.pause();
    let third = timer.elapsed_time();
    assert!(third >= second);
    assert_eq!(timer.elapsed_time(), third);
    timer.pause();
    assert_eq!(timer.elapsed_time(), third);
}

#[test]
fn a_reading_before_the_resume_counts_as_nothing() {
    let mut timer = Timer::new();
    timer.resume_at(500);
    assert_eq!(timer.elapsed_time_at(100), 0);
    timer.pause_at(100);
    assert_eq!(timer.elapsed_time_at(900), 0);
}

#[test]
fn touch_sets_the_second_stopwatch_back() {
    let mut timer = Timer::new();
    timer.resume_at(0);
    assert_eq!(timer.duration_since_touch_at(70), 70);
    timer.touch_at(100);
    assert_eq!(timer.duration_since_touch_at(130), 30);
    assert_eq!(timer.elapsed_time_at(130), 130);
}

#[test]
fn time_since_touch_counts_running_time_only() {
    let mut timer = Timer::new();
    timer.touch_at(0);
    timer.resume_at(100);
    assert_eq!(timer.duration_since_touch_at(150), 50);
    timer.pause_at(200);
    assert_eq!(timer.duration_since_touch_at(900), 100);
    timer.resume_at(1_000);
    assert_eq!(timer.duration_since_touch_at(1_010), 110);
    timer.touch_at(1_020);
    timer.pause_at(1_050);
    assert_eq!(timer.duration_since_touch_at(5_000), 30);
}

#[test]
fn processed_time_is_taken_off_the_elapsed_time() {
    let mut timer = Timer::new();
    timer.resume_at(0);
    timer.process(40);
    assert_eq!(timer.time_left_to_process_at(100), 60);
    timer.process(80);
    assert_eq!(timer.time_left_to_process_at(100), 0);
    assert_eq!(timer.time_left_to_process_at(121), 1);
    assert_eq!(timer.elapsed_time_at(121), 121);
}

#[test]
fn processed_time_stops_at_the_largest_number() {
    let mut timer = Timer::new();
    timer.resume_at(0);
    timer.process(u64::MAX);
    timer.process(5);
    assert_eq!(timer.time_left_to_process_at(u64::MAX), 0);
}

#[test]
fn resume_while_running_loses_no_running_time() {
    let mut timer = Timer::new();
    timer.resume_at(0);
    assert_eq!(timer.elapsed_time_at(100), 100);
    timer.resume_at(150);
    assert!(!timer.is_paused());
    assert_eq!(timer.elapsed_time_at(150), 150);
    assert_eq!(timer.elapsed_time_at(160), 160);
    timer.pause_at(200);
    assert_eq!(timer.elapsed_time_at(500), 200);
}

#[test]
fn resume_while_running_keeps_the_time_since_the_touch() {
    let mut timer = Timer::new();
    timer.resume_at(0);
    timer.touch_at(40);
    assert_eq!(timer.duration_since_touch_at(100), 60);
    timer.resume_at(100);
    assert_eq!(timer.duration_since_touch_at(100), 60);
    assert_eq!(timer.duration_since_touch_at(130), 90);
    timer.touch_at(140);
    assert_eq!(timer.duration_since_touch_at(150), 10);
}

#[test]
fn now_reads_a_clock_that_does_not_go_back() {
    let timer = Timer::new();
    let first = timer.now();
    let second = timer.now();
    assert!(second >= first);
}

#[test]
fn reading_stops_at_the_largest_number() {
    assert_eq!(reading_of(0), 0);
    assert_eq!(reading_of(1_500), 1_500);
    assert_eq!(reading_of(u64::MAX as u128), u64::MAX);
    assert_eq!(reading_of(u64::MAX as u128 + 1), u64::MAX);
    assert_eq!(reading_of(u128::MAX), u64::MAX);
}
