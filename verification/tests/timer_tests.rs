use chase_me::resources::{update_game_time, FrameTime, GameTime, Score};
use chase_me::timer::{Timer, TimerMode};

#[test]
fn a_one_shot_timer_stops_at_its_duration() {
    let mut t = Timer::new(1_000, TimerMode::Once);
    assert!(t.is_valid());
    t.tick(400);
    assert_eq!(t.elapsed, 400);
    assert!(!t.finished());
    t.tick(700);
    assert_eq!(t.elapsed, 1_000);
    assert!(t.finished());
    t.tick(700);
    assert_eq!(t.elapsed, 1_000);
    assert!(t.finished());
}

#[test]
fn a_repeating_timer_wraps_around() {
    let mut t = Timer::new(1_000, TimerMode::Repeating);
    t.tick(400);
    assert!(!t.finished());
    t.tick(700);
    assert!(t.finished());
    assert_eq!(t.elapsed, 100);
    t.tick(100);
    assert!(!t.finished());
    assert_eq!(t.elapsed, 200);
    t.tick(2_800);
    assert!(t.finished());
    assert_eq!(t.elapsed, 0);
}

#[test]
fn a_timer_without_duration_finishes_on_its_first_tick() {
    let mut once = Timer::new(0, TimerMode::Once);
    assert!(!once.finished());
    once.tick(0);
    assert!(once.finished());
    let mut again = Timer::new(0, TimerMode::Repeating);
    again.tick(5);
    assert!(again.finished());
    assert_eq!(again.elapsed, 0);
}

#[test]
fn reset_starts_a_timer_over() {
    let mut t = Timer::new(1_000, TimerMode::Once);
    t.tick(1_000);
    t.reset();
    assert_eq!(t, Timer::new(1_000, TimerMode::Once));
}

#[test]
fn timer_validity() {
    assert!(!Timer { duration: 10, elapsed: 11, finished: false, mode: TimerMode::Once }
        .is_valid());
    assert!(!Timer { duration: 10, elapsed: 5, finished: true, mode: TimerMode::Once }.is_valid());
    assert!(Timer { duration: 10, elapsed: 5, finished: true, mode: TimerMode::Repeating }
        .is_valid());
    assert!(!Timer::new(-1, TimerMode::Once).is_valid());
}

#[test]
fn score_and_clock_start_at_zero() {
    assert_eq!(Score::default(), Score(0));
    assert_eq!(GameTime::default(), GameTime { time: 0 });
}

#[test]
fn the_clock_adds_up_frame_times() {
    let mut t = GameTime::default();
    update_game_time(&mut t, 16);
    update_game_time(&mut t, 17);
    assert_eq!(t.time, 33);
    let mut late = GameTime { time: i64::MAX - 1 };
    update_game_time(&mut late, 16);
    assert_eq!(late.time, i64::MAX);
}

#[test]
fn frame_times_carry_what_is_left_of_a_millisecond() {
    let mut frame = FrameTime::default();
    assert_eq!(frame, FrameTime { millis: 0, carry_micros: 0 });
    frame.measure(16_667);
    assert_eq!(frame, FrameTime { millis: 16, carry_micros: 667 });
    frame.measure(16_667);
    assert_eq!(frame, FrameTime { millis: 17, carry_micros: 334 });
    frame.measure(0);
    assert_eq!(frame, FrameTime { millis: 0, carry_micros: 334 });
    frame.measure(u64::MAX);
    assert_eq!(frame.millis, 1_000_000_000);
    assert!(frame.carry_micros < 1_000);
    let mut total = 0;
    let mut frame = FrameTime::default();
    for _ in 0..600 {
        frame.measure(16_667);
        total += frame.millis;
    }
    assert_eq!(total, 10_000);
}

#[test]
fn whole_points_round_down() {
    assert_eq!(Score(0).floor_points(), 0);
    assert_eq!(Score(999).floor_points(), 0);
    assert_eq!(Score(1_000).floor_points(), 1);
    assert_eq!(Score(12_999).floor_points(), 12);
    assert_eq!(Score(-1).floor_points(), 0);
    assert_eq!(Score(i64::MAX).floor_points(), u32::MAX);
}

#[test]
fn award_adds_to_the_score() {
    let mut s = Score(10);
    s.award(130_000);
    assert_eq!(s, Score(130_010));
    s.award(-130_010);
    assert_eq!(s, Score(0));
}
