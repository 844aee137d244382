//! Frame pacing: how long the renderer sleeps so that frames are neither
//! produced faster than a limit nor started earlier than they need to be.
//!
//! Points in time and durations are counts of nanoseconds; a point in time
//! counts from an origin that the caller chooses and keeps.

use vstd::prelude::*;

verus! {

/// The longest duration that the clock can express, in nanoseconds:
/// 2^64 seconds less one nanosecond.
pub const MAX_DURATION: u128 = 18_446_744_073_709_551_615_999_999_999;

/// The safety margin of a new configuration, in nanoseconds.
pub const DEFAULT_SAFETY_MARGIN: u128 = 500_000;

/// Frame pacing and frame limiting configuration.
#[derive(Clone, Copy, Debug, PartialEq, Eq, Hash, Structural)]
pub struct FramePacing {
    /// The least time from the start of one frame to the start of the
    /// next.
    pub frametime_limit: u128,
    /// How much earlier than predicted the renderer wakes, so that a frame
    /// that takes longer than the last one is still in time.
    pub frame_pacing_safety_margin: u128,
}

/// The time that the frame limiter or pacer has yet to wait: what is left
/// of the limit after `elapsed`; nothing, if the limit has been reached.
pub open spec fn spec_remaining(limit: u128, elapsed: u128) -> u128 {
    if elapsed >= limit {
        0
    } else {
        (limit - elapsed) as u128
    }
}

/// The time from `earlier` to `later`; nothing, if `earlier` is the later
/// of the two.
pub open spec fn spec_duration_since(later: u128, earlier: u128) -> u128 {
    if later >= earlier {
        (later - earlier) as u128
    } else {
        0
    }
}

/// The time from `earlier` to `later`; nothing, if `earlier` is the later
/// of the two.
pub fn duration_since(later: u128, earlier: u128) -> (elapsed: u128)
    ensures
        elapsed == spec_duration_since(later, earlier),
{
    if later >= earlier {
        later - earlier
    } else {
        0
    }
}

impl FramePacing {
    /// The configuration for frames that last `frame_period` thousand
    /// microseconds, with the default safety margin. The limit must be a
    /// count of microseconds that fits in 64 bits.
    pub fn from_frame_period(frame_period: u64) -> (settings: Self)
        requires
            frame_period * 1_000 <= u64::MAX,
        ensures
            settings.frametime_limit == frame_period * 1_000 * 1_000,
            settings.frame_pacing_safety_margin == DEFAULT_SAFETY_MARGIN,
    {
        let micros: u128 = frame_period as u128 * 1_000;
        FramePacing {
            frametime_limit: micros * 1_000,
            frame_pacing_safety_margin: DEFAULT_SAFETY_MARGIN,
        }
    }
}

/// The times that the renderer keeps from frame to frame.
#[derive(Clone, Copy, Debug, PartialEq, Eq, Hash, Structural)]
pub struct FrameTimer {
    /// When this frame started.
    pub frame_start: u128,
    /// How long the frame limiter has slept this frame.
    pub frame_limiter_sleep: u128,
    /// When the frame was handed to the device.
    pub render_start: u128,
}

impl FrameTimer {
    /// The timer of a renderer that starts at `now`.
    pub fn new(now: u128) -> (timer: Self)
        ensures
            timer == (FrameTimer { frame_start: now, frame_limiter_sleep: 0, render_start: now }),
    {
        FrameTimer { frame_start: now, frame_limiter_sleep: 0, render_start: now }
    }
}

/// Frame limiting, first half: how long to sleep at `function_start` so
/// that the frame is not handed to the device sooner than the limit after
/// the last one.
pub fn limit_framerate(settings: &FramePacing, timer: &FrameTimer, function_start: u128) -> (sleep_needed:
    u128)
    ensures
        sleep_needed == spec_remaining(
            settings.frametime_limit,
            spec_duration_since(function_start, timer.render_start),
        ),
        sleep_needed <= settings.frametime_limit,
{
    let last_frametime = duration_since(function_start, timer.render_start);
    let last_frametime_capped = if settings.frametime_limit < last_frametime {
        settings.frametime_limit
    } else {
        last_frametime
    };
    settings.frametime_limit - last_frametime_capped
}

/// Frame limiting, second half: at `now`, after the sleep that began at
/// `function_start`, the frame is handed to the device.
pub fn framerate_limited(timer: &mut FrameTimer, function_start: u128, now: u128)
    ensures
        *final(timer) == (FrameTimer {
            render_start: now,
            frame_limiter_sleep: spec_duration_since(now, function_start),
            ..*old(timer)
        }),
{
    timer.render_start = now;
    timer.frame_limiter_sleep = duration_since(now, function_start);
}

/// The time that the last frame took without the sleep of the frame
/// limiter, with the safety margin added.
pub open spec fn spec_estimated_frametime(
    settings: FramePacing,
    timer: FrameTimer,
    render_end: u128,
) -> int {
    spec_duration_since(render_end, timer.frame_start) - timer.frame_limiter_sleep
        + settings.frame_pacing_safety_margin
}

/// Frame pacing, first half: how long to sleep at `render_end`, when the
/// frame has been rendered, before the next frame starts: what the limit
/// leaves of the time that the next frame is expected to need.
///
/// The frame limiter cannot have slept longer than the frame has lasted,
/// and the estimate must be a duration that the clock can express.
pub fn pace_framerate(settings: &FramePacing, timer: &FrameTimer, render_end: u128) -> (estimated_sleep_needed:
    u128)
    requires
        timer.frame_limiter_sleep <= spec_duration_since(render_end, timer.frame_start),
        spec_estimated_frametime(*settings, *timer, render_end) <= MAX_DURATION,
    ensures
        estimated_sleep_needed == spec_remaining(
            settings.frametime_limit,
            spec_estimated_frametime(*settings, *timer, render_end) as u128,
        ),
        estimated_sleep_needed <= settings.frametime_limit,
{
    let last_frametime = duration_since(render_end, timer.frame_start);
    let last_actual_frametime = last_frametime - timer.frame_limiter_sleep;
    let estimated_frametime_needed = last_actual_frametime + settings.frame_pacing_safety_margin;
    let estimated_frametime_needed_capped = if settings.frametime_limit
        < estimated_frametime_needed {
        settings.frametime_limit
    } else {
        estimated_frametime_needed
    };
    settings.frametime_limit - estimated_frametime_needed_capped
}

/// Frame pacing, second half: at `now`, after the sleep, the next frame
/// starts.
pub fn framerate_paced(timer: &mut FrameTimer, now: u128)
    ensures
        *final(timer) == (FrameTimer { frame_start: now, ..*old(timer) }),
{
    timer.frame_start = now;
}

} // verus!
