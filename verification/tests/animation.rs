//! Tests of the frame selector steps and the animation timer.

use naughty_and_nice::{AnimationTimer, PingPong, determine_frame_moving, determine_frame_oneshot};

#[test]
fn ping_pong_cycle_three_frames() {
    // Over [0, 2], starting at the range start and playing forward, the
    // frame sequence walks up to the end, bounces, walks back down, and
    // repeats with period 4 = 2 * (2 - 0).
    let mut frame: usize = 0;
    let mut flag = PingPong::Ping;
    let mut seen: Vec<usize> = vec![frame];
    for _ in 0..8 {
        let (f, p) = determine_frame_moving(0, 2, frame, flag);
        frame = f;
        flag = p;
        seen.push(frame);
    }
    assert_eq!(seen, vec![0, 1, 2, 1, 0, 1, 2, 1, 0]);
}

#[test]
fn ping_pong_two_frame_cycle() {
    // Over [4, 5] the sequence alternates between the two frames.
    let mut frame: usize = 4;
    let mut flag = PingPong::Ping;
    let mut seen: Vec<usize> = vec![frame];
    for _ in 0..4 {
        let (f, p) = determine_frame_moving(4, 5, frame, flag);
        frame = f;
        flag = p;
        seen.push(frame);
    }
    assert_eq!(seen, vec![4, 5, 4, 5, 4]);
}

#[test]
fn ping_pong_range_reentry() {
    // A frame outside the range re-enters at the start, playing forward,
    // whatever the previous flag was.
    assert_eq!(determine_frame_moving(3, 5, 9, PingPong::Pong), (3, PingPong::Ping));
    assert_eq!(determine_frame_moving(3, 5, 9, PingPong::Ping), (3, PingPong::Ping));
    assert_eq!(determine_frame_moving(3, 5, 0, PingPong::Pong), (3, PingPong::Ping));
    assert_eq!(determine_frame_moving(3, 5, 0, PingPong::Ping), (3, PingPong::Ping));
}

#[test]
fn ping_pong_top_bounce() {
    // Range [0, 2], frame 2, playing forward: bounce to (1, Pong).
    assert_eq!(determine_frame_moving(0, 2, 2, PingPong::Ping), (1, PingPong::Pong));
}

#[test]
fn ping_pong_backward_interior_step() {
    // Range [0, 2], frame 1, playing backward: frame 1 is interior, so the
    // plain backward step applies and reports Ping: (0, Ping).
    assert_eq!(determine_frame_moving(0, 2, 1, PingPong::Pong), (0, PingPong::Ping));
    // The bottom-bounce rule proper, at frame == start: (1, Ping).
    assert_eq!(determine_frame_moving(0, 2, 0, PingPong::Pong), (1, PingPong::Ping));
}

#[test]
fn ping_pong_single_frame_range() {
    // A range with start == end must not loop or panic: the bounce steps one
    // frame outside, and the next step re-enters at the start.
    assert_eq!(determine_frame_moving(5, 5, 5, PingPong::Ping), (4, PingPong::Pong));
    assert_eq!(determine_frame_moving(5, 5, 4, PingPong::Pong), (5, PingPong::Ping));
}

#[test]
fn one_shot_starts_outside_range() {
    assert_eq!(determine_frame_oneshot(12, 14, 3), (12, PingPong::Ping));
    assert_eq!(determine_frame_oneshot(12, 14, 40), (12, PingPong::Ping));
}

#[test]
fn one_shot_advances_and_holds() {
    assert_eq!(determine_frame_oneshot(12, 14, 12), (13, PingPong::Ping));
    assert_eq!(determine_frame_oneshot(12, 14, 13), (14, PingPong::Ping));
    // Once the last frame is reached, every further step returns it again.
    let mut frame: usize = 14;
    for _ in 0..5 {
        let (f, _) = determine_frame_oneshot(12, 14, frame);
        frame = f;
        assert_eq!(frame, 14);
    }
}

#[test]
fn timer_counts_down_then_fires() {
    let mut timer = AnimationTimer::new(300);
    assert!(!timer.advance(100));
    assert_eq!(timer.remaining_ms, 200);
    assert!(!timer.advance(199));
    assert_eq!(timer.remaining_ms, 1);
    assert!(timer.advance(1));
    assert_eq!(timer.remaining_ms, 300);
}

#[test]
fn timer_fires_at_most_once_per_call() {
    // An elapsed time spanning several periods fires once and resets to one
    // full period: missed periods are not queued.
    let mut timer = AnimationTimer::new(300);
    assert!(timer.advance(10_000));
    assert_eq!(timer.remaining_ms, 300);
    assert!(!timer.advance(299));
    assert_eq!(timer.remaining_ms, 1);
}
