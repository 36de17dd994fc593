//! A tape: a fixed-length sample buffer with volume, mute and solo state.

use crate::sample::{sat_add, sat_add_spec, VOLUME_MAX};
use vstd::prelude::*;

verus! {

/// A fixed-length buffer of recorded samples. `audio.len()` never changes
/// after construction: recording replaces the whole contents, never resizes.
#[derive(Clone)]
pub struct Tape {
    pub volume: u8,
    pub is_muted: bool,
    pub is_solo: bool,
    pub audio: Vec<i64>,
}

impl Tape {
    /// Volume stays a step count in `0 ..= VOLUME_MAX`.
    pub open spec fn wf(self) -> bool {
        self.volume <= VOLUME_MAX
    }

    pub open spec fn spec_volume(self) -> u8 {
        self.volume
    }

    pub open spec fn spec_muted(self) -> bool {
        self.is_muted
    }

    pub open spec fn spec_solo(self) -> bool {
        self.is_solo
    }

    /// The gain every mixed sample is scaled by: zero when muted, else the
    /// volume step count.
    pub open spec fn gain_spec(self) -> int {
        if self.is_muted {
            0
        } else {
            self.volume as int
        }
    }

    /// A fresh tape: full volume, neither muted nor solo, every sample
    /// `default`.
    pub fn new(default: i64, length: usize) -> (t: Tape)
        ensures
            t.wf(),
            t.audio@ == Seq::new(length as nat, |i: int| default),
            t.spec_volume() == VOLUME_MAX,
            !t.spec_muted(),
            !t.spec_solo(),
    {
        let mut audio: Vec<i64> = Vec::new();
        let mut i: usize = 0;
        while i < length
            invariant
                i <= length,
                audio@ =~= Seq::new(i as nat, |j: int| default),
            decreases length - i,
        {
            audio.push(default);
            i = i + 1;
        }
        proof {
            assert(audio@ =~= Seq::new(length as nat, |i: int| default));
        }
        Tape { volume: VOLUME_MAX, is_muted: false, is_solo: false, audio }
    }

    /// The effective gain: zero whenever the tape is muted, regardless of
    /// volume; else the volume step count.
    pub fn get_volume(&self) -> (r: u8)
        ensures
            r as int == self.gain_spec(),
    {
        if self.is_muted {
            0
        } else {
            self.volume
        }
    }

    pub fn toggle_mute(&mut self)
        ensures
            *final(self) == (Tape { is_muted: !old(self).is_muted, ..*old(self) }),
    {
        self.is_muted = !self.is_muted;
    }

    pub fn toggle_solo(&mut self)
        ensures
            *final(self) == (Tape { is_solo: !old(self).is_solo, ..*old(self) }),
    {
        self.is_solo = !self.is_solo;
    }

    pub fn is_solo(&self) -> (r: bool)
        ensures
            r == self.spec_solo(),
    {
        self.is_solo
    }

    /// One volume step up, clamped at `VOLUME_MAX`.
    pub fn volume_up(&mut self)
        requires
            old(self).wf(),
        ensures
            final(self).wf(),
            *final(self) == (Tape { volume: vol_up_spec(old(self).volume), ..*old(self) }),
    {
        if self.volume < VOLUME_MAX {
            self.volume = self.volume + 1;
        }
    }

    /// One volume step down, clamped at zero.
    pub fn volume_down(&mut self)
        requires
            old(self).wf(),
        ensures
            final(self).wf(),
            *final(self) == (Tape { volume: vol_down_spec(old(self).volume), ..*old(self) }),
    {
        if self.volume > 0 {
            self.volume = self.volume - 1;
        }
    }

    /// Overwrite every sample with `default`; the length never changes.
    pub fn clear(&mut self, default: i64)
        ensures
            *final(self) == (Tape {
                audio: final(self).audio,
                ..*old(self)
            }),
            final(self).audio@ == Seq::new(old(self).audio@.len(), |i: int| default),
    {
        let len = self.audio.len();
        let mut i: usize = 0;
        while i < len
            invariant
                i <= len,
                self.audio@.len() == len,
                self.volume == old(self).volume,
                self.is_muted == old(self).is_muted,
                self.is_solo == old(self).is_solo,
                forall|j: int| 0 <= j < i ==> self.audio@[j] == default,
                forall|j: int| i <= j < len ==> self.audio@[j] == old(self).audio@[j],
            decreases len - i,
        {
            self.audio.set(i, default);
            i = i + 1;
        }
        proof {
            assert(self.audio@ =~= Seq::new(old(self).audio@.len(), |i: int| default));
        }
    }

    /// Element-wise saturating sum of `other` into this tape's samples.
    pub fn add(&mut self, other: &Vec<i64>)
        requires
            other@.len() == old(self).audio@.len(),
        ensures
            *final(self) == (Tape {
                audio: final(self).audio,
                ..*old(self)
            }),
            final(self).audio@ == Seq::new(
                old(self).audio@.len(),
                |i: int| sat_add_spec(old(self).audio@[i] as int, other@[i] as int) as i64,
            ),
    {
        let len = self.audio.len();
        let mut i: usize = 0;
        while i < len
            invariant
                i <= len,
                self.audio@.len() == len,
                other@.len() == len,
                self.volume == old(self).volume,
                self.is_muted == old(self).is_muted,
                self.is_solo == old(self).is_solo,
                forall|j: int|
                    0 <= j < i ==> self.audio@[j] as int == sat_add_spec(
                        old(self).audio@[j] as int,
                        other@[j] as int,
                    ),
                forall|j: int| i <= j < len ==> self.audio@[j] == old(self).audio@[j],
            decreases len - i,
        {
            let s = sat_add(self.audio[i], other[i]);
            self.audio.set(i, s);
            i = i + 1;
        }
        proof {
            assert(self.audio@ =~= Seq::new(
                old(self).audio@.len(),
                |i: int| sat_add_spec(old(self).audio@[i] as int, other@[i] as int) as i64,
            ));
        }
    }
}

/// One volume step up, clamped at `VOLUME_MAX`.
pub open spec fn vol_up_spec(v: u8) -> u8 {
    if v < VOLUME_MAX {
        (v + 1) as u8
    } else {
        v
    }
}

/// `n` volume steps up, clamped at `VOLUME_MAX`.
pub open spec fn vol_up_n(v: u8, n: int) -> u8
    decreases n,
{
    if n <= 0 {
        v
    } else {
        vol_up_spec(vol_up_n(v, n - 1))
    }
}

/// `n` volume steps down, clamped at zero.
pub open spec fn vol_down_n(v: u8, n: int) -> u8
    decreases n,
{
    if n <= 0 {
        v
    } else {
        vol_down_spec(vol_down_n(v, n - 1))
    }
}

/// One volume step down, clamped at zero.
pub open spec fn vol_down_spec(v: u8) -> u8 {
    if v > 0 {
        (v - 1) as u8
    } else {
        v
    }
}

/// Small step counts of the volume operations, written out.
pub proof fn lemma_vol_steps_unfold(v: u8)
    ensures
        vol_up_n(v, 0) == v,
        vol_up_n(v, 1) == vol_up_spec(v),
        vol_up_n(v, 2) == vol_up_spec(vol_up_spec(v)),
        vol_down_n(v, 0) == v,
        vol_down_n(v, 1) == vol_down_spec(v),
        vol_down_n(v, 2) == vol_down_spec(vol_down_spec(v)),
{
    reveal_with_fuel(vol_up_n, 3);
    reveal_with_fuel(vol_down_n, 3);
}

/// Tape gain law: a muted tape's effective gain is zero, whatever its volume.
pub proof fn lemma_muted_gain_is_zero(t: Tape)
    requires
        t.spec_muted(),
    ensures
        t.gain_spec() == 0,
{
}

/// Volume clamp law: one step never leaves `0 ..= VOLUME_MAX`.
pub proof fn lemma_volume_steps_stay_clamped(v: u8)
    requires
        v <= VOLUME_MAX,
    ensures
        vol_up_spec(v) <= VOLUME_MAX,
        vol_down_spec(v) <= VOLUME_MAX,
        vol_down_spec(v) >= 0,
{
}

/// Volume clamp law, repeated: however many steps up are taken, the volume
/// never passes `VOLUME_MAX`; however many steps down, it never passes zero.
pub proof fn lemma_repeated_volume_steps_stay_clamped(v: u8, n: int)
    requires
        v <= VOLUME_MAX,
    ensures
        vol_up_n(v, n) <= VOLUME_MAX,
        vol_down_n(v, n) <= VOLUME_MAX,
        vol_down_n(v, n) >= 0,
    decreases
            (if n > 0 {
                n
            } else {
                0
            }),
{
    if n > 0 {
        lemma_repeated_volume_steps_stay_clamped(v, n - 1);
    }
}

} // verus!
