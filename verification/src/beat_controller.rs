//! A beat timer for the view layer: counts delivered samples into beat and
//! bar periods and says when a beat flash may be drawn.

use vstd::prelude::*;

verus! {

/// Counts samples toward the next beat and the next bar; `can_draw` holds
/// for exactly the update that crossed a beat boundary.
pub struct BeatController {
    pub beat_per_minute: u16,
    pub beat_count: u8,
    pub bar_count: u8,
    pub beat_period: u32,
    pub beat_timer: u32,
    pub bar_timer: u32,
    pub can_draw: bool,
}

impl BeatController {
    /// A timer at the start of a bar, with a beat every
    /// `sample_rate * 60 / beat_per_minute` samples.
    pub fn new(sample_rate: u32, beat_per_minute: u16, beat_count: u8, bar_count: u8) -> (c:
        BeatController)
        requires
            beat_per_minute >= 1,
            sample_rate as int * 60 <= u32::MAX as int,
        ensures
            c.beat_per_minute == beat_per_minute,
            c.beat_count == beat_count,
            c.bar_count == bar_count,
            c.beat_period as int == sample_rate as int * 60 / (beat_per_minute as int),
            c.beat_timer == 0,
            c.bar_timer == 0,
            !c.can_draw,
    {
        let beat_period = (sample_rate * 60) / (beat_per_minute as u32);
        BeatController {
            beat_per_minute,
            beat_count,
            bar_count,
            beat_period,
            beat_timer: 0,
            bar_timer: 0,
            can_draw: false,
        }
    }

    /// Count `delta_samples` more samples: when the beat timer reaches the
    /// beat period it resets and the beat may be drawn; when the bar timer
    /// reaches a whole bar at that same moment, it resets too.
    pub fn update(&mut self, delta_samples: u32)
        requires
            old(self).beat_timer + delta_samples <= u32::MAX,
            old(self).bar_timer + delta_samples <= u32::MAX,
            old(self).beat_period as int * old(self).beat_count as int <= u32::MAX as int,
        ensures
            final(self).beat_per_minute == old(self).beat_per_minute,
            final(self).beat_count == old(self).beat_count,
            final(self).bar_count == old(self).bar_count,
            final(self).beat_period == old(self).beat_period,
            final(self).can_draw == (old(self).beat_timer + delta_samples >= old(
                self,
            ).beat_period),
            final(self).beat_timer == (if old(self).beat_timer + delta_samples >= old(
                self,
            ).beat_period {
                0int
            } else {
                old(self).beat_timer + delta_samples
            }),
            final(self).bar_timer == (if old(self).beat_timer + delta_samples >= old(
                self,
            ).beat_period && old(self).bar_timer + delta_samples >= old(self).beat_period as int
                * old(self).beat_count as int {
                0int
            } else {
                old(self).bar_timer + delta_samples
            }),
    {
        self.can_draw = false;
        let samples = delta_samples;
        self.beat_timer = self.beat_timer + samples;
        self.bar_timer = self.bar_timer + samples;

        if self.beat_timer >= self.beat_period {
            self.can_draw = true;
            self.beat_timer = 0;
            if self.bar_timer >= self.beat_period * (self.beat_count as u32) {
                self.bar_timer = 0;
            }
        }
    }
}

} // verus!
