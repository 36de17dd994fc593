//! Shared constants and the control-protocol message types.

use vstd::prelude::*;

verus! {

/// Number of tape slots the engine owns for its whole lifetime.
pub const TAPE_COUNT: usize = 8;

/// Number of entries in a tape's down-sampled waveform summary.
pub const SAMPLE_GRAPH_SIZE: usize = 100;

/// Channel count of the disk-export container.
pub const CHANNELS: u16 = 4;

/// Sample rate of the disk-export container.
pub const SAMPLE_RATE: u32 = 44100;

/// Bits per sample of the disk-export container.
pub const BITS_PER_SAMPLE: u16 = 16;

/// One captured input sample together with its absolute tape position.
#[derive(Clone, Copy, Debug, PartialEq, Eq, Structural)]
pub struct Input {
    pub index: usize,
    pub sample: i64,
}

/// A command from the controller to the engine. Every variant is total over
/// the engine state: indices are clamped into range before use.
#[derive(Clone, Copy, Debug, PartialEq, Eq, Structural)]
pub enum ModulAction {
    SelectPrimaryTape(usize),
    SelectSecondaryTape(usize),
    MergeTapes,
    Record,
    Playback,
    PlayThrough,
    Write,
    Clear,
    ClearAll,
    ToggleMute,
    ToggleSolo,
    VolumeUp,
    VolumeDown,
    StartMetronome,
    StopMetronome,
}

/// A state delta from the engine to the controller. Deltas for distinct
/// fields are independent messages; per field they arrive in the order the
/// engine produced them.
#[derive(Clone, Debug, PartialEq, Eq)]
pub enum ModulMessage {
    AudioIndex(usize),
    Recording(bool),
    RecordingPlayback(bool),
    PlayThrough(bool),
    ShowBeat(bool),
    BeatIndex(u64),
    SampleAverages(Vec<i64>),
    SamplesForGraphs(Vec<Vec<i64>>),
}

/// A human-readable notice from the engine, kept structured so that a front
/// end can format it however it likes.
#[derive(Clone, Debug, PartialEq, Eq)]
pub enum LogEntry {
    /// The output queue was full; carries its occupied length at that moment.
    BufferFull(usize),
    /// The output queue's occupied length was no multiple of the channel
    /// count; one zero sample was appended. Carries the channel count.
    AlignmentFixed(usize),
    /// One tape was cleared; carries its one-based number.
    ClearedTape(usize),
    ClearedAll,
    /// Tapes were merged; carries the primary slot and the secondary set.
    Merging { primary: usize, secondary: Vec<bool> },
}

/// A silent sample buffer of `len` samples.
pub fn zeros(len: usize) -> (r: Vec<i64>)
    ensures
        r@ == Seq::new(len as nat, |i: int| 0i64),
{
    let mut r: Vec<i64> = Vec::new();
    let mut i: usize = 0;
    while i < len
        invariant
            i <= len,
            r@ =~= Seq::new(i as nat, |j: int| 0i64),
        decreases len - i,
    {
        r.push(0);
        i = i + 1;
    }
    proof {
        assert(r@ =~= Seq::new(len as nat, |i: int| 0i64));
    }
    r
}

/// An element-wise copy of a tape-selection set.
pub fn copy_bools(v: &Vec<bool>) -> (r: Vec<bool>)
    ensures
        r@ == v@,
{
    let mut r: Vec<bool> = Vec::new();
    let mut i: usize = 0;
    while i < v.len()
        invariant
            i <= v@.len(),
            r@ =~= v@.take(i as int),
        decreases v@.len() - i,
    {
        r.push(v[i]);
        i = i + 1;
    }
    proof {
        assert(v@.take(v@.len() as int) =~= v@);
    }
    r
}

/// An element-wise copy of a sample buffer.
pub fn copy_samples(v: &Vec<i64>) -> (r: Vec<i64>)
    ensures
        r@ == v@,
{
    let mut r: Vec<i64> = Vec::new();
    let mut i: usize = 0;
    while i < v.len()
        invariant
            i <= v@.len(),
            r@ =~= v@.take(i as int),
        decreases v@.len() - i,
    {
        r.push(v[i]);
        i = i + 1;
    }
    proof {
        assert(v@.take(v@.len() as int) =~= v@);
    }
    r
}

/// An element-wise copy of a waveform-summary matrix.
pub fn copy_graphs(v: &Vec<Vec<i64>>) -> (r: Vec<Vec<i64>>)
    ensures
        r@.len() == v@.len(),
        forall|i: int| 0 <= i < v@.len() ==> (#[trigger] r@[i])@ == v@[i]@,
{
    let mut r: Vec<Vec<i64>> = Vec::new();
    let mut i: usize = 0;
    while i < v.len()
        invariant
            i <= v@.len(),
            r@.len() == i,
            forall|j: int| 0 <= j < i ==> (#[trigger] r@[j])@ == v@[j]@,
        decreases v@.len() - i,
    {
        r.push(copy_samples(&v[i]));
        i = i + 1;
    }
    r
}

/// The input boundary's frames for one captured buffer: each sample is paired
/// with an absolute tape position that advances by one per sample and wraps
/// at `tape_length`.
pub fn frames_for_buffer(start_index: usize, samples: &Vec<i64>, tape_length: usize) -> (r: (
    Vec<Input>,
    usize,
))
    requires
        start_index < tape_length,
    ensures
        r.0@.len() == samples@.len(),
        forall|i: int|
            0 <= i < samples@.len() ==> r.0@[i] == (Input {
                index: ((start_index + i) % (tape_length as int)) as usize,
                sample: samples@[i],
            }),
        r.1 as int == (start_index + samples@.len()) % (tape_length as int),
{
    let mut frames: Vec<Input> = Vec::new();
    let mut index: usize = start_index;
    let mut i: usize = 0;
    proof {
        vstd::arithmetic::div_mod::lemma_small_mod(start_index as nat, tape_length as nat);
    }
    while i < samples.len()
        invariant
            i <= samples@.len(),
            start_index < tape_length,
            index < tape_length,
            index as int == (start_index + i) % (tape_length as int),
            frames@.len() == i,
            forall|j: int|
                0 <= j < i ==> frames@[j] == (Input {
                    index: ((start_index + j) % (tape_length as int)) as usize,
                    sample: samples@[j],
                }),
        decreases samples@.len() - i,
    {
        frames.push(Input { index, sample: samples[i] });
        proof {
            lemma_mod_step(start_index as int, i as int, tape_length as int);
        }
        index = if index + 1 == tape_length {
            0
        } else {
            index + 1
        };
        i = i + 1;
    }
    (frames, index)
}

/// Stepping a wrapped counter by one keeps it equal to the counter modulo the
/// wrap length.
pub(crate) proof fn lemma_mod_step(s: int, i: int, n: int)
    requires
        n >= 1,
        s >= 0,
        i >= 0,
    ensures
        (s + i) % n == n - 1 ==> (s + i + 1) % n == 0,
        (s + i) % n < n - 1 ==> (s + i + 1) % n == (s + i) % n + 1,
{
    let a = s + i;
    vstd::arithmetic::div_mod::lemma_fundamental_div_mod(a, n);
    vstd::arithmetic::div_mod::lemma_mod_bound(a, n);
    let q = a / n;
    let r = a % n;
    if r == n - 1 {
        assert(a + 1 == n * (q + 1)) by (nonlinear_arith)
            requires
                a == n * q + r,
                r == n - 1,
        ;
        vstd::arithmetic::div_mod::lemma_mod_multiples_vanish(q + 1, 0, n);
        vstd::arithmetic::div_mod::lemma_small_mod(0, n as nat);
    } else {
        vstd::arithmetic::div_mod::lemma_mod_multiples_vanish(q, r + 1, n);
        vstd::arithmetic::div_mod::lemma_small_mod((r + 1) as nat, n as nat);
    }
}

} // verus!
