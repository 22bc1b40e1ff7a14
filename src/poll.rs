use vstd::prelude::*;

use crate::types::PinMap;

verus! {

/// Pause between two polls of the buttons, in milliseconds.
pub const POLL_INTERVAL_MS: u64 = 200;

/// Time after which an unchanged frame is drawn afresh, in milliseconds.
pub const REFRESH_INTERVAL_MS: u64 = 3000;

/// Time without a key press after which the display is blanked, in
/// milliseconds.
pub const BLANK_TIMEOUT_MS: u64 = 20000;

/// What the outer loop does after one poll of the buttons.
#[derive(Debug, Clone, Copy, PartialEq, Eq, Structural)]
pub enum LoopAction {
    /// A key was pressed: apply it to the screen and draw the frame.
    Navigate(PinMap),
    /// No key was pressed for too long: blank the display.
    Blank,
    /// The frame is old enough: draw it afresh.
    Redraw,
    /// Nothing to do before the next poll.
    Wait,
}

/// When the frame was last drawn and when a key was last pressed, in
/// milliseconds of a monotonic clock.
#[derive(Debug, Clone, Copy, PartialEq, Eq, Structural)]
pub struct LoopTimers {
    pub last_refresh_ms: u64,
    pub last_input_ms: u64,
}

impl LoopTimers {
    /// Timers that both start at `now_ms`.
    pub fn new(now_ms: u64) -> (r: LoopTimers)
        ensures
            r == (LoopTimers { last_refresh_ms: now_ms, last_input_ms: now_ms }),
    {
        LoopTimers { last_refresh_ms: now_ms, last_input_ms: now_ms }
    }
}

/// The time from `since` to `now`; none if the clock reads earlier.
pub open spec fn elapsed(since: u64, now: u64) -> int {
    if now >= since {
        now - since
    } else {
        0
    }
}

/// The decision of one poll: a key press wins and restarts both timers;
/// otherwise the display is blanked after the idle timeout, or redrawn once
/// the refresh interval has passed.
pub open spec fn step_spec(timers: LoopTimers, now: u64, key: Option<PinMap>) -> (LoopTimers, LoopAction) {
    match key {
        Some(k) => (LoopTimers { last_refresh_ms: now, last_input_ms: now }, LoopAction::Navigate(k)),
        None => {
            if elapsed(timers.last_input_ms, now) > BLANK_TIMEOUT_MS {
                (timers, LoopAction::Blank)
            } else if elapsed(timers.last_refresh_ms, now) > REFRESH_INTERVAL_MS {
                (
                    LoopTimers { last_refresh_ms: now, last_input_ms: timers.last_input_ms },
                    LoopAction::Redraw,
                )
            } else {
                (timers, LoopAction::Wait)
            }
        },
    }
}

/// Decides what the outer loop does after polling the buttons at `now_ms`.
pub fn poll_step(timers: LoopTimers, now_ms: u64, key: Option<PinMap>) -> (r: (LoopTimers, LoopAction))
    ensures
        r == step_spec(timers, now_ms, key),
{
    match key {
        Some(k) => (LoopTimers::new(now_ms), LoopAction::Navigate(k)),
        None => {
            let idle = now_ms.saturating_sub(timers.last_input_ms);
            let age = now_ms.saturating_sub(timers.last_refresh_ms);
            if idle > BLANK_TIMEOUT_MS {
                (timers, LoopAction::Blank)
            } else if age > REFRESH_INTERVAL_MS {
                (
                    LoopTimers { last_refresh_ms: now_ms, last_input_ms: timers.last_input_ms },
                    LoopAction::Redraw,
                )
            } else {
                (timers, LoopAction::Wait)
            }
        },
    }
}

/// The first key, in polling order, whose reading is pressed.
pub open spec fn first_pressed_spec(readings: Seq<(PinMap, bool)>) -> Option<PinMap>
    decreases readings.len(),
{
    if readings.len() == 0 {
        None
    } else if readings[0].1 {
        Some(readings[0].0)
    } else {
        first_pressed_spec(readings.drop_first())
    }
}

/// The first key, in polling order, whose reading is pressed.
pub fn first_pressed(readings: &Vec<(PinMap, bool)>) -> (r: Option<PinMap>)
    ensures
        r == first_pressed_spec(readings@),
{
    let mut i: usize = 0;
    assert(readings@.skip(0) =~= readings@);
    while i < readings.len()
        invariant
            i <= readings@.len(),
            first_pressed_spec(readings@.skip(i as int)) == first_pressed_spec(readings@),
        decreases readings@.len() - i,
    {
        assert(readings@.skip(i as int).drop_first() =~= readings@.skip(i + 1));
        let (key, pressed) = readings[i];
        if pressed {
            return Some(key);
        }
        i = i + 1;
    }
    None
}

} // verus!
