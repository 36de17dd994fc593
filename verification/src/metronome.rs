//! A sample-counting metronome: beat index and click-audibility window are
//! pure functions of the number of samples processed.

use vstd::prelude::*;

verus! {

/// How many samples after each tick boundary the click stays audible.
pub const BEAT_WINDOW: u64 = 10_000;

/// Beats elapsed after `sample_count` samples with a tick every
/// `tick_period` samples.
pub open spec fn beat_index_of(sample_count: u64, tick_period: u64) -> int
    recommends
        tick_period >= 1,
{
    sample_count as int / tick_period as int
}

/// Whether the click is audible at `sample_count`: within the first
/// `BEAT_WINDOW` samples after a tick boundary, the boundary itself excluded.
pub open spec fn show_beat_of(sample_count: u64, tick_period: u64) -> bool
    recommends
        tick_period >= 1,
{
    let rem = sample_count as int % tick_period as int;
    0 < rem < BEAT_WINDOW as int
}

/// A sample-counting timer that derives beat events from an accumulated
/// sample count and a tempo. Tick counting is monotonic and never reset;
/// `is_running` only gates whether the mixer honors the click.
pub struct Metronome {
    pub is_running: bool,
    pub beat_index: u64,
    pub sample_count: u64,
    pub tick_period: u64,
    pub show_beat: bool,
}

impl Metronome {
    /// `beat_index` and `show_beat` are pure functions of `sample_count`.
    pub open spec fn wf(self) -> bool {
        &&& self.tick_period >= 1
        &&& self.beat_index as int == beat_index_of(self.sample_count, self.tick_period)
        &&& self.show_beat == show_beat_of(self.sample_count, self.tick_period)
    }

    /// The metronome after `n` more samples.
    pub open spec fn advanced_spec(self, n: u64) -> Metronome
        recommends
            self.sample_count + n <= u64::MAX,
    {
        Metronome {
            sample_count: (self.sample_count + n) as u64,
            beat_index: beat_index_of((self.sample_count + n) as u64, self.tick_period) as u64,
            show_beat: show_beat_of((self.sample_count + n) as u64, self.tick_period),
            ..self
        }
    }

    /// A stopped metronome at sample zero, ticking every
    /// `sample_rate * channel_count * 60 / bpm` samples.
    pub fn new(bpm: u16, sample_rate: u32, channel_count: u32) -> (m: Metronome)
        requires
            bpm >= 1,
            sample_rate as int * channel_count as int * 60 <= u64::MAX as int,
            bpm as int <= sample_rate as int * channel_count as int * 60,
        ensures
            m.wf(),
            !m.is_running,
            m.sample_count == 0,
            m.beat_index == 0,
            !m.show_beat,
            m.tick_period as int == sample_rate as int * channel_count as int * 60 / (
            bpm as int),
    {
        let tick_period: u64 = (sample_rate as u64) * (channel_count as u64) * 60 / (bpm as u64);
        proof {
            vstd::arithmetic::div_mod::lemma_div_non_zero(
                sample_rate as int * channel_count as int * 60,
                bpm as int,
            );
            vstd::arithmetic::div_mod::lemma_small_mod(0, tick_period as nat);
        }
        Metronome {
            is_running: false,
            beat_index: 0,
            sample_count: 0,
            tick_period,
            show_beat: false,
        }
    }

    /// Add `n` samples to the counter and recompute `beat_index` and
    /// `show_beat`.
    pub fn advance(&mut self, n: u64)
        requires
            old(self).wf(),
            old(self).sample_count + n <= u64::MAX,
        ensures
            final(self).wf(),
            *final(self) == old(self).advanced_spec(n),
    {
        self.sample_count = self.sample_count + n;
        let remainder = self.sample_count % self.tick_period;
        self.show_beat = remainder > 0 && remainder < BEAT_WINDOW;
        self.beat_index = self.sample_count / self.tick_period;
        proof {
            vstd::arithmetic::div_mod::lemma_mod_bound(
                self.sample_count as int,
                self.tick_period as int,
            );
            vstd::arithmetic::div_mod::lemma_div_pos_is_pos(
                self.sample_count as int,
                self.tick_period as int,
            );
            vstd::arithmetic::div_mod::lemma_div_nonincreasing(
                self.sample_count as int,
                self.tick_period as int,
            );
        }
    }

    /// Count one more processed sample.
    pub fn update(&mut self)
        requires
            old(self).wf(),
            old(self).sample_count < u64::MAX,
        ensures
            final(self).wf(),
            *final(self) == old(self).advanced_spec(1),
    {
        self.advance(1);
    }

    pub fn get_beat_index(&self) -> (r: u64)
        ensures
            r == self.beat_index,
    {
        self.beat_index
    }

    pub fn show_beat(&self) -> (r: bool)
        ensures
            r == self.show_beat,
    {
        self.show_beat
    }
}

/// Metronome purity law: two metronomes with the same tick period and sample
/// count agree on beat index and click window, whatever else differs.
pub proof fn lemma_beat_is_function_of_count(a: Metronome, b: Metronome)
    requires
        a.wf(),
        b.wf(),
        a.tick_period == b.tick_period,
        a.sample_count == b.sample_count,
    ensures
        a.beat_index == b.beat_index,
        a.show_beat == b.show_beat,
{
}

} // verus!
