use sky_atmosphere::frame_pacing::{
    duration_since, framerate_limited, framerate_paced, limit_framerate, pace_framerate,
    FramePacing, FrameTimer, DEFAULT_SAFETY_MARGIN, MAX_DURATION,
};

const MILLISECOND: u128 = 1_000_000;

fn settings() -> FramePacing {
    FramePacing { frametime_limit: 16 * MILLISECOND, frame_pacing_safety_margin: 500_000 }
}

#[test]
fn constants() {
    assert_eq!(DEFAULT_SAFETY_MARGIN, 500_000);
    assert_eq!(MAX_DURATION, u64::MAX as u128 * 1_000_000_000 + 999_999_999);
}

#[test]
fn configuration_from_frame_period() {
    let pacing = FramePacing::from_frame_period(2);
    assert_eq!(pacing.frametime_limit, 2 * MILLISECOND);
    assert_eq!(pacing.frame_pacing_safety_margin, 500_000);
    assert_eq!(FramePacing::from_frame_period(0).frametime_limit, 0);
    let longest = u64::MAX / 1_000;
    assert_eq!(
        FramePacing::from_frame_period(longest).frametime_limit,
        longest as u128 * 1_000_000
    );
}

#[test]
fn duration_since_saturates() {
    assert_eq!(duration_since(10, 4), 6);
    assert_eq!(duration_since(4, 4), 0);
    assert_eq!(duration_since(4, 10), 0);
}

#[test]
fn new_timer() {
    assert_eq!(
        FrameTimer::new(42),
        FrameTimer { frame_start: 42, frame_limiter_sleep: 0, render_start: 42 }
    );
}

#[test]
fn limiter_sleeps_for_the_rest_of_the_limit() {
    let timer = FrameTimer { frame_start: 0, frame_limiter_sleep: 0, render_start: 100 * MILLISECOND };
    assert_eq!(limit_framerate(&settings(), &timer, 106 * MILLISECOND), 10 * MILLISECOND);
    assert_eq!(limit_framerate(&settings(), &timer, 100 * MILLISECOND), 16 * MILLISECOND);
    assert_eq!(limit_framerate(&settings(), &timer, 116 * MILLISECOND - 1), 1);
}

#[test]
fn limiter_does_not_sleep_after_a_long_frame() {
    let timer = FrameTimer { frame_start: 0, frame_limiter_sleep: 0, render_start: 100 * MILLISECOND };
    assert_eq!(limit_framerate(&settings(), &timer, 116 * MILLISECOND), 0);
    assert_eq!(limit_framerate(&settings(), &timer, 500 * MILLISECOND), 0);
}

#[test]
fn limiter_sleeps_the_whole_limit_if_the_clock_went_back() {
    let timer = FrameTimer { frame_start: 0, frame_limiter_sleep: 0, render_start: 100 * MILLISECOND };
    assert_eq!(limit_framerate(&settings(), &timer, 90 * MILLISECOND), 16 * MILLISECOND);
}

#[test]
fn limiter_records_its_sleep() {
    let mut timer = FrameTimer { frame_start: 7, frame_limiter_sleep: 3, render_start: 100 };
    framerate_limited(&mut timer, 1_000, 1_250);
    assert_eq!(timer, FrameTimer { frame_start: 7, frame_limiter_sleep: 250, render_start: 1_250 });
    framerate_limited(&mut timer, 2_000, 1_900);
    assert_eq!(timer, FrameTimer { frame_start: 7, frame_limiter_sleep: 0, render_start: 1_900 });
}

#[test]
fn pacer_sleeps_for_what_the_next_frame_will_not_need() {
    // The frame lasted 12 ms, of which the limiter slept 8 ms: 4 ms of work.
    let timer = FrameTimer {
        frame_start: 100 * MILLISECOND,
        frame_limiter_sleep: 8 * MILLISECOND,
        render_start: 0,
    };
    // 16 ms - (4 ms + 0.5 ms)
    assert_eq!(pace_framerate(&settings(), &timer, 112 * MILLISECOND), 11_500_000);
}

#[test]
fn pacer_does_not_sleep_if_the_frame_needs_the_limit() {
    let timer =
        FrameTimer { frame_start: 100 * MILLISECOND, frame_limiter_sleep: 0, render_start: 0 };
    assert_eq!(pace_framerate(&settings(), &timer, 115_500_000), 0);
    assert_eq!(pace_framerate(&settings(), &timer, 115_500_000 - 1), 1);
    assert_eq!(pace_framerate(&settings(), &timer, 300 * MILLISECOND), 0);
}

#[test]
fn pacer_starts_the_next_frame() {
    let mut timer = FrameTimer { frame_start: 7, frame_limiter_sleep: 3, render_start: 100 };
    framerate_paced(&mut timer, 2_000);
    assert_eq!(timer, FrameTimer { frame_start: 2_000, frame_limiter_sleep: 3, render_start: 100 });
}
