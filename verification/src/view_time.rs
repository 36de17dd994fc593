//! Wall-clock deltas for the view layer.

use vstd::prelude::*;

verus! {

/// Relies on std::time::SystemTime::now: the wall clock, read as whole
/// microseconds since the epoch; zero when the clock sits before the epoch.
/// Nothing can be promised of a clock reading.
#[verifier::external_body]
fn now_micros() -> (r: u64) {
    match std::time::SystemTime::now().duration_since(std::time::UNIX_EPOCH) {
        Ok(elapsed) => elapsed.as_micros() as u64,
        Err(_) => 0,
    }
}

/// A frame timer: hands out the wall-clock time elapsed since it was last
/// asked.
pub struct ViewTime {
    pub start: u64,
}

impl ViewTime {
    /// A timer starting now.
    pub fn new() -> (t: ViewTime) {
        ViewTime { start: now_micros() }
    }

    /// Microseconds since the last call, or since construction for the first
    /// call; zero if the clock went backwards. Resets the timer.
    pub fn get_delta_micros(&mut self) -> (r: u64) {
        let now = now_micros();
        let delta = if now >= self.start {
            now - self.start
        } else {
            0
        };
        self.start = now;
        delta
    }
}

} // verus!
