//! The audio engine: the owner of all tapes, the metronome and the
//! authoritative playhead. It drains captured input, mixes, applies the
//! metronome click and play-through, writes the result to a bounded output
//! queue, and applies queued controller actions — all without blocking.

use crate::metronome::Metronome;
use crate::queues::{
    action_queue_cap, action_queue_seq, input_queue_cap, input_queue_seq, log_queue_cap,
    log_queue_seq, message_queue_cap, message_queue_seq, sample_queue_cap, sample_queue_seq,
    ActionQueue, InputQueue, LogQueue, MessageQueue, SampleQueue,
};
use crate::sample::{apply_gain, sat_add, sat_add_spec, scaled_spec, VOLUME_MAX};
use crate::tape::Tape;
use crate::utils::{
    copy_bools, copy_graphs, copy_samples, Input, LogEntry, ModulAction, ModulMessage,
    SAMPLE_GRAPH_SIZE,
    TAPE_COUNT,
};
use crate::wave::{downsample, downsample_spec, scatter, scatter_spec};
use vstd::prelude::*;

verus! {

/// Capacity of the input and output sample queues.
pub const RING_BUFFER_CAPACITY: usize = 8192;

/// Capacity of the inbound action queue: user intent, not bulk data.
pub const ACTION_QUEUE_CAPACITY: usize = 16;

/// Capacity of the outbound state-delta queue.
pub const MESSAGE_QUEUE_CAPACITY: usize = 1024;

/// Capacity of the outbound log queue.
pub const LOG_QUEUE_CAPACITY: usize = 10;

/// The fixed set of `TAPE_COUNT` tapes the engine owns.
pub struct TapeModel {
    pub tapes: Vec<Tape>,
}

impl TapeModel {
    pub open spec fn wf(self, length: nat) -> bool {
        &&& self.tapes@.len() == TAPE_COUNT
        &&& forall|i: int| 0 <= i < TAPE_COUNT ==> (#[trigger] self.tapes@[i]).wf()
        &&& forall|i: int|
            0 <= i < TAPE_COUNT ==> (#[trigger] self.tapes@[i]).audio@.len() == length
    }

    /// `TAPE_COUNT` fresh, silent tapes of `length` samples each.
    pub fn new(length: usize) -> (t: TapeModel)
        ensures
            t.wf(length as nat),
            forall|i: int|
                0 <= i < TAPE_COUNT ==> (#[trigger] t.tapes@[i]).audio@ == Seq::new(
                    length as nat,
                    |j: int| 0i64,
                ),
            forall|i: int|
                0 <= i < TAPE_COUNT ==> (#[trigger] t.tapes@[i]).spec_volume() == VOLUME_MAX
                    && !t.tapes@[i].spec_muted() && !t.tapes@[i].spec_solo(),
    {
        let mut tapes: Vec<Tape> = Vec::new();
        let mut i: usize = 0;
        while i < TAPE_COUNT
            invariant
                i <= TAPE_COUNT,
                tapes@.len() == i,
                forall|j: int|
                    0 <= j < i ==> (#[trigger] tapes@[j]).wf() && tapes@[j].audio@ == Seq::new(
                        length as nat,
                        |k: int| 0i64,
                    ) && tapes@[j].spec_volume() == VOLUME_MAX && !tapes@[j].spec_muted()
                        && !tapes@[j].spec_solo(),
            decreases TAPE_COUNT - i,
        {
            tapes.push(Tape::new(0, length));
            i = i + 1;
        }
        TapeModel { tapes }
    }
}

/// Whether any tape is currently marked solo.
pub open spec fn any_solo(tapes: Seq<Tape>) -> bool {
    exists|i: int| 0 <= i < tapes.len() && (#[trigger] tapes[i]).is_solo
}

/// The mixed contribution of tape `i` at playhead `idx`: zero for a non-solo
/// tape while any tape is solo, else the tape's sample scaled by its
/// effective gain (which is zero when muted).
pub open spec fn contribution(tapes: Seq<Tape>, i: int, idx: int) -> int {
    if any_solo(tapes) && !tapes[i].is_solo {
        0
    } else {
        scaled_spec(tapes[i].audio@[idx] as int, tapes[i].gain_spec())
    }
}

/// Saturating sum of the first `n` tapes' contributions at playhead `idx`.
pub open spec fn mix_upto(tapes: Seq<Tape>, idx: int, n: int) -> int
    decreases n,
{
    if n <= 0 {
        0
    } else {
        sat_add_spec(mix_upto(tapes, idx, n - 1), contribution(tapes, n - 1, idx))
    }
}

/// The full tape mix at playhead `idx`.
pub open spec fn tapes_mix(tapes: Seq<Tape>, idx: int) -> int {
    mix_upto(tapes, idx, TAPE_COUNT as int)
}

/// A bounded queue's contents after a best-effort push: the item is appended
/// when a slot is free, else dropped.
pub open spec fn after_push<T>(pre: Seq<T>, cap: nat, item: T) -> Seq<T> {
    if pre.len() < cap {
        pre.push(item)
    } else {
        pre
    }
}

/// A bounded queue's contents moved from `pre` to `post` by a best-effort
/// push of `item`.
pub open spec fn pushed_best_effort<T>(pre: Seq<T>, post: Seq<T>, cap: nat, item: T) -> bool {
    post == after_push(pre, cap, item)
}

/// Whether `m` is a waveform-summary delta carrying exactly `graphs`.
pub open spec fn is_graphs_message(m: ModulMessage, graphs: Seq<Vec<i64>>) -> bool {
    &&& m is SamplesForGraphs
    &&& (m->SamplesForGraphs_0)@.len() == graphs.len()
    &&& forall|i: int|
        0 <= i < graphs.len() ==> ((#[trigger] (m->SamplesForGraphs_0)@[i])@ == graphs[i]@)
}

/// A best-effort push of a waveform-summary delta carrying `graphs`.
pub open spec fn pushed_graphs_message(
    pre: Seq<ModulMessage>,
    post: Seq<ModulMessage>,
    cap: nat,
    graphs: Seq<Vec<i64>>,
) -> bool {
    if pre.len() < cap {
        &&& post.len() == pre.len() + 1
        &&& post.drop_last() == pre
        &&& is_graphs_message(post.last(), graphs)
    } else {
        post == pre
    }
}

/// Index clamping for tape-slot payloads: every index at or past the last
/// slot falls back to the last slot, so actions are total.
pub open spec fn clamp_slot_spec(i: usize) -> int {
    if i < TAPE_COUNT {
        i as int
    } else {
        TAPE_COUNT - 1
    }
}

/// How often a group operation lands on tape `i`: once for the primary tape,
/// once more for every tape marked secondary.
pub open spec fn group_times(primary: int, secondary: Seq<bool>, i: int) -> int {
    (if i == primary {
        1int
    } else {
        0int
    }) + (if secondary[i] {
        1int
    } else {
        0int
    })
}

/// A tape with its mute flag toggled `times` times.
pub open spec fn mute_toggled(t: Tape, times: int) -> Tape {
    if times % 2 == 1 {
        Tape { is_muted: !t.is_muted, ..t }
    } else {
        t
    }
}

/// A tape with its solo flag toggled `times` times.
pub open spec fn solo_toggled(t: Tape, times: int) -> Tape {
    if times % 2 == 1 {
        Tape { is_solo: !t.is_solo, ..t }
    } else {
        t
    }
}

/// The primary tape's samples after merging in the first `n` tape slots that
/// are marked secondary (the primary slot itself is skipped).
pub open spec fn merged_upto(
    tapes: Seq<Tape>,
    primary: int,
    secondary: Seq<bool>,
    n: int,
) -> Seq<i64>
    decreases n,
{
    if n <= 0 {
        tapes[primary].audio@
    } else {
        let prev = merged_upto(tapes, primary, secondary, n - 1);
        if secondary[n - 1] && n - 1 != primary {
            Seq::new(
                prev.len(),
                |j: int| sat_add_spec(prev[j] as int, tapes[n - 1].audio@[j] as int) as i64,
            )
        } else {
            prev
        }
    }
}

/// The primary tape's samples after a whole merge.
pub open spec fn merged_spec(tapes: Seq<Tape>, primary: int, secondary: Seq<bool>) -> Seq<i64> {
    merged_upto(tapes, primary, secondary, TAPE_COUNT as int)
}

/// Whether `e` is a merge notice naming exactly this primary slot and
/// secondary set.
pub open spec fn is_merging_entry(e: LogEntry, primary: usize, secondary: Seq<bool>) -> bool {
    e matches LogEntry::Merging { primary: p, secondary: s } && p == primary && s@ == secondary
}

/// A best-effort push of a merge notice.
pub open spec fn pushed_merging_entry(
    pre: Seq<LogEntry>,
    post: Seq<LogEntry>,
    cap: nat,
    primary: usize,
    secondary: Seq<bool>,
) -> bool {
    if pre.len() < cap {
        &&& post.len() == pre.len() + 1
        &&& post.drop_last() == pre
        &&& is_merging_entry(post.last(), primary, secondary)
    } else {
        post == pre
    }
}

/// Effects of the `Record` action: stopping scatters the recording buffer
/// into the primary tape and recomputes its waveform; starting clears the
/// recording buffer. Both echo the flag changes as state deltas.
pub open spec fn record_applied(pre: AudioModel, post: AudioModel) -> bool {
    let p = pre.primary_tape as int;
    let mcap = message_queue_cap(pre.message_queue);
    if pre.is_recording {
        let audio = scatter_spec(pre.recording_tape@, pre.tape_length as nat);
        let m1 = after_push(
            message_queue_seq(pre.message_queue),
            mcap,
            ModulMessage::RecordingPlayback(false),
        );
        let m2 = after_push(m1, mcap, ModulMessage::Recording(false));
        &&& post == (AudioModel {
            is_recording: false,
            is_recording_playback: false,
            recording_tape: post.recording_tape,
            tape_model: post.tape_model,
            samples_for_graphs: post.samples_for_graphs,
            message_queue: post.message_queue,
            ..pre
        })
        &&& post.recording_tape@ == Seq::<Input>::empty()
        &&& post.tape_model.tapes@.len() == TAPE_COUNT
        &&& forall|i: int|
            0 <= i < TAPE_COUNT && i != p ==> (#[trigger] post.tape_model.tapes@[i])
                == pre.tape_model.tapes@[i]
        &&& post.tape_model.tapes@[p] == (Tape {
            audio: post.tape_model.tapes@[p].audio,
            ..pre.tape_model.tapes@[p]
        })
        &&& post.tape_model.tapes@[p].audio@ == audio
        &&& post.samples_for_graphs@.len() == TAPE_COUNT
        &&& forall|i: int|
            0 <= i < TAPE_COUNT && i != p ==> (#[trigger] post.samples_for_graphs@[i])
                == pre.samples_for_graphs@[i]
        &&& post.samples_for_graphs@[p]@ == downsample_spec(audio)
        &&& message_queue_cap(post.message_queue) == mcap
        &&& pushed_graphs_message(
            m2,
            message_queue_seq(post.message_queue),
            mcap,
            post.samples_for_graphs@,
        )
    } else {
        &&& post == (AudioModel {
            is_recording: true,
            recording_tape: post.recording_tape,
            message_queue: post.message_queue,
            ..pre
        })
        &&& post.recording_tape@ == Seq::<Input>::empty()
        &&& message_queue_cap(post.message_queue) == mcap
        &&& message_queue_seq(post.message_queue) == after_push(
            message_queue_seq(pre.message_queue),
            mcap,
            ModulMessage::Recording(true),
        )
    }
}

/// Effects of clearing one tape slot: its samples are overwritten with
/// silence, its waveform summary is zeroed, a notice naming the one-based
/// tape number is logged.
pub open spec fn cleared_slot(pre: AudioModel, post: AudioModel, slot: int) -> bool {
    &&& post.tape_model.tapes@.len() == TAPE_COUNT
    &&& forall|i: int|
        0 <= i < TAPE_COUNT && i != slot ==> (#[trigger] post.tape_model.tapes@[i])
            == pre.tape_model.tapes@[i]
    &&& post.tape_model.tapes@[slot] == (Tape {
        audio: post.tape_model.tapes@[slot].audio,
        ..pre.tape_model.tapes@[slot]
    })
    &&& post.tape_model.tapes@[slot].audio@ == Seq::new(pre.tape_length as nat, |j: int| 0i64)
    &&& post.samples_for_graphs@.len() == TAPE_COUNT
    &&& forall|i: int|
        0 <= i < TAPE_COUNT && i != slot ==> (#[trigger] post.samples_for_graphs@[i])
            == pre.samples_for_graphs@[i]
    &&& post.samples_for_graphs@[slot]@ == downsample_spec(
        Seq::new(SAMPLE_GRAPH_SIZE as nat, |j: int| 0i64),
    )
}

/// Effects of the `Clear` action on the primary tape.
pub open spec fn clear_applied(pre: AudioModel, post: AudioModel) -> bool {
    let p = pre.primary_tape as int;
    &&& post == (AudioModel {
        tape_model: post.tape_model,
        samples_for_graphs: post.samples_for_graphs,
        message_queue: post.message_queue,
        log_queue: post.log_queue,
        ..pre
    })
    &&& cleared_slot(pre, post, p)
    &&& log_queue_cap(post.log_queue) == log_queue_cap(pre.log_queue)
    &&& log_queue_seq(post.log_queue) == after_push(
        log_queue_seq(pre.log_queue),
        log_queue_cap(pre.log_queue),
        LogEntry::ClearedTape((pre.primary_tape + 1) as usize),
    )
    &&& message_queue_cap(post.message_queue) == message_queue_cap(pre.message_queue)
    &&& pushed_graphs_message(
        message_queue_seq(pre.message_queue),
        message_queue_seq(post.message_queue),
        message_queue_cap(pre.message_queue),
        post.samples_for_graphs@,
    )
}

/// Effects of the `ClearAll` action: every tape slot is silenced and its
/// waveform summary zeroed; one notice is logged; each slot publishes a
/// waveform delta, best effort.
pub open spec fn clear_all_applied(pre: AudioModel, post: AudioModel) -> bool {
    let m0 = message_queue_seq(pre.message_queue);
    let m1 = message_queue_seq(post.message_queue);
    &&& post == (AudioModel {
        tape_model: post.tape_model,
        samples_for_graphs: post.samples_for_graphs,
        message_queue: post.message_queue,
        log_queue: post.log_queue,
        ..pre
    })
    &&& post.tape_model.tapes@.len() == TAPE_COUNT
    &&& forall|i: int|
        0 <= i < TAPE_COUNT ==> (#[trigger] post.tape_model.tapes@[i]) == (Tape {
            audio: post.tape_model.tapes@[i].audio,
            ..pre.tape_model.tapes@[i]
        })
    &&& forall|i: int|
        0 <= i < TAPE_COUNT ==> (#[trigger] post.tape_model.tapes@[i]).audio@ == Seq::new(
            pre.tape_length as nat,
            |j: int| 0i64,
        )
    &&& post.samples_for_graphs@.len() == TAPE_COUNT
    &&& forall|i: int|
        0 <= i < TAPE_COUNT ==> (#[trigger] post.samples_for_graphs@[i])@ == downsample_spec(
            Seq::new(SAMPLE_GRAPH_SIZE as nat, |j: int| 0i64),
        )
    &&& log_queue_cap(post.log_queue) == log_queue_cap(pre.log_queue)
    &&& log_queue_seq(post.log_queue) == after_push(
        log_queue_seq(pre.log_queue),
        log_queue_cap(pre.log_queue),
        LogEntry::ClearedAll,
    )
    &&& message_queue_cap(post.message_queue) == message_queue_cap(pre.message_queue)
    &&& m0.len() <= m1.len() <= m0.len() + TAPE_COUNT
    &&& m1.subrange(0, m0.len() as int) == m0
    &&& forall|k: int| m0.len() <= k < m1.len() ==> (#[trigger] m1[k]) is SamplesForGraphs
}

/// Effects of the `MergeTapes` action: a notice naming the selection is
/// logged, then every secondary tape other than the primary is summed into
/// the primary and its waveform is recomputed.
pub open spec fn merge_applied(pre: AudioModel, post: AudioModel) -> bool {
    let p = pre.primary_tape as int;
    &&& post == (AudioModel {
        tape_model: post.tape_model,
        samples_for_graphs: post.samples_for_graphs,
        message_queue: post.message_queue,
        log_queue: post.log_queue,
        ..pre
    })
    &&& post.tape_model.tapes@.len() == TAPE_COUNT
    &&& forall|i: int|
        0 <= i < TAPE_COUNT && i != p ==> (#[trigger] post.tape_model.tapes@[i])
            == pre.tape_model.tapes@[i]
    &&& post.tape_model.tapes@[p] == (Tape {
        audio: post.tape_model.tapes@[p].audio,
        ..pre.tape_model.tapes@[p]
    })
    &&& post.tape_model.tapes@[p].audio@ == merged_spec(
        pre.tape_model.tapes@,
        p,
        pre.secondary_tapes@,
    )
    &&& post.samples_for_graphs@.len() == TAPE_COUNT
    &&& forall|i: int|
        0 <= i < TAPE_COUNT && i != p ==> (#[trigger] post.samples_for_graphs@[i])
            == pre.samples_for_graphs@[i]
    &&& post.samples_for_graphs@[p]@ == downsample_spec(
        merged_spec(pre.tape_model.tapes@, p, pre.secondary_tapes@),
    )
    &&& log_queue_cap(post.log_queue) == log_queue_cap(pre.log_queue)
    &&& pushed_merging_entry(
        log_queue_seq(pre.log_queue),
        log_queue_seq(post.log_queue),
        log_queue_cap(pre.log_queue),
        pre.primary_tape,
        pre.secondary_tapes@,
    )
    &&& message_queue_cap(post.message_queue) == message_queue_cap(pre.message_queue)
    &&& pushed_graphs_message(
        message_queue_seq(pre.message_queue),
        message_queue_seq(post.message_queue),
        message_queue_cap(pre.message_queue),
        post.samples_for_graphs@,
    )
}

/// Effects of a boolean-flag toggle that echoes the new value as a state
/// delta (`Playback` and `PlayThrough`).
pub open spec fn flag_echoed(
    pre: Seq<ModulMessage>,
    post: Seq<ModulMessage>,
    cap: nat,
    m: ModulMessage,
) -> bool {
    post == after_push(pre, cap, m)
}

/// Whether `post` extends `pre`: appended to, never rewritten — the shape of
/// every outbound queue across an engine step.
pub open spec fn extends<T>(pre: Seq<T>, post: Seq<T>) -> bool {
    pre.len() <= post.len() && post.subrange(0, pre.len() as int) == pre
}

proof fn lemma_extends_trans<T>(a: Seq<T>, b: Seq<T>, c: Seq<T>)
    requires
        extends(a, b),
        extends(b, c),
    ensures
        extends(a, c),
{
    assert(c.subrange(0, a.len() as int) =~= a) by {
        assert forall|k: int| 0 <= k < a.len() implies c[k] == a[k] by {
            assert(b[k] == b.subrange(0, a.len() as int)[k]);
            assert(c[k] == c.subrange(0, b.len() as int)[k]);
        }
    }
}

proof fn lemma_extends_after_push<T>(pre: Seq<T>, cap: nat, item: T)
    ensures
        extends(pre, after_push(pre, cap, item)),
{
    if pre.len() < cap {
        assert(pre.push(item).subrange(0, pre.len() as int) =~= pre);
    } else {
        assert(pre.subrange(0, pre.len() as int) =~= pre);
    }
}

proof fn lemma_extends_drop_last<T>(pre: Seq<T>, post: Seq<T>)
    requires
        post.len() == pre.len() + 1,
        post.drop_last() == pre,
    ensures
        extends(pre, post),
{
    assert(post.subrange(0, pre.len() as int) =~= pre) by {
        assert forall|k: int| 0 <= k < pre.len() implies post[k] == pre[k] by {
            assert(post.drop_last()[k] == post[k]);
        }
    }
}

proof fn lemma_extends_refl<T>(pre: Seq<T>)
    ensures
        extends(pre, pre),
{
    assert(pre.subrange(0, pre.len() as int) =~= pre);
}

/// The engine's transition relation: what each controller action does to the
/// engine state. Every action is total; tape-slot payloads are clamped into
/// range before use.
pub open spec fn action_applied(pre: AudioModel, post: AudioModel, action: ModulAction) -> bool {
    match action {
        ModulAction::SelectPrimaryTape(p) => post == (AudioModel {
            primary_tape: clamp_slot_spec(p) as usize,
            ..pre
        }),
        ModulAction::SelectSecondaryTape(s) => {
            &&& post == (AudioModel { secondary_tapes: post.secondary_tapes, ..pre })
            &&& post.secondary_tapes@ == pre.secondary_tapes@.update(
                clamp_slot_spec(s),
                !pre.secondary_tapes@[clamp_slot_spec(s)],
            )
        },
        ModulAction::MergeTapes => merge_applied(pre, post),
        ModulAction::Record => record_applied(pre, post),
        ModulAction::Playback => {
            &&& post == (AudioModel {
                is_recording_playback: !pre.is_recording_playback,
                message_queue: post.message_queue,
                ..pre
            })
            &&& message_queue_cap(post.message_queue) == message_queue_cap(pre.message_queue)
            &&& flag_echoed(
                message_queue_seq(pre.message_queue),
                message_queue_seq(post.message_queue),
                message_queue_cap(pre.message_queue),
                ModulMessage::RecordingPlayback(!pre.is_recording_playback),
            )
        },
        ModulAction::PlayThrough => {
            &&& post == (AudioModel {
                is_play_through: !pre.is_play_through,
                message_queue: post.message_queue,
                ..pre
            })
            &&& message_queue_cap(post.message_queue) == message_queue_cap(pre.message_queue)
            &&& flag_echoed(
                message_queue_seq(pre.message_queue),
                message_queue_seq(post.message_queue),
                message_queue_cap(pre.message_queue),
                ModulMessage::PlayThrough(!pre.is_play_through),
            )
        },
        ModulAction::Write => post == (AudioModel { write_requested: true, ..pre }),
        ModulAction::Clear => clear_applied(pre, post),
        ModulAction::ClearAll => clear_all_applied(pre, post),
        ModulAction::ToggleMute => {
            &&& post == (AudioModel { tape_model: post.tape_model, ..pre })
            &&& post.tape_model.tapes@.len() == TAPE_COUNT
            &&& forall|i: int|
                0 <= i < TAPE_COUNT ==> (#[trigger] post.tape_model.tapes@[i]) == mute_toggled(
                    pre.tape_model.tapes@[i],
                    group_times(pre.primary_tape as int, pre.secondary_tapes@, i),
                )
        },
        ModulAction::ToggleSolo => {
            &&& post == (AudioModel { tape_model: post.tape_model, ..pre })
            &&& post.tape_model.tapes@.len() == TAPE_COUNT
            &&& forall|i: int|
                0 <= i < TAPE_COUNT ==> (#[trigger] post.tape_model.tapes@[i]) == solo_toggled(
                    pre.tape_model.tapes@[i],
                    group_times(pre.primary_tape as int, pre.secondary_tapes@, i),
                )
        },
        ModulAction::VolumeUp => {
            &&& post == (AudioModel { tape_model: post.tape_model, ..pre })
            &&& post.tape_model.tapes@.len() == TAPE_COUNT
            &&& forall|i: int|
                0 <= i < TAPE_COUNT ==> (#[trigger] post.tape_model.tapes@[i]) == (Tape {
                    volume: crate::tape::vol_up_n(
                        pre.tape_model.tapes@[i].volume,
                        group_times(pre.primary_tape as int, pre.secondary_tapes@, i),
                    ),
                    ..pre.tape_model.tapes@[i]
                })
        },
        ModulAction::VolumeDown => {
            &&& post == (AudioModel { tape_model: post.tape_model, ..pre })
            &&& post.tape_model.tapes@.len() == TAPE_COUNT
            &&& forall|i: int|
                0 <= i < TAPE_COUNT ==> (#[trigger] post.tape_model.tapes@[i]) == (Tape {
                    volume: crate::tape::vol_down_n(
                        pre.tape_model.tapes@[i].volume,
                        group_times(pre.primary_tape as int, pre.secondary_tapes@, i),
                    ),
                    ..pre.tape_model.tapes@[i]
                })
        },
        ModulAction::StartMetronome => post == (AudioModel {
            metronome: Metronome { is_running: true, ..pre.metronome },
            ..pre
        }),
        ModulAction::StopMetronome => post == (AudioModel {
            metronome: Metronome { is_running: false, ..pre.metronome },
            ..pre
        }),
    }
}

/// Every action leaves the outbound queues extended, never rewritten, and
/// their capacities unchanged.
proof fn lemma_action_step_extends(pre: AudioModel, post: AudioModel, action: ModulAction)
    requires
        action_applied(pre, post, action),
    ensures
        extends(message_queue_seq(pre.message_queue), message_queue_seq(post.message_queue)),
        extends(log_queue_seq(pre.log_queue), log_queue_seq(post.log_queue)),
        message_queue_cap(post.message_queue) == message_queue_cap(pre.message_queue),
        log_queue_cap(post.log_queue) == log_queue_cap(pre.log_queue),
{
    let m0 = message_queue_seq(pre.message_queue);
    let m1 = message_queue_seq(post.message_queue);
    let l0 = log_queue_seq(pre.log_queue);
    let l1 = log_queue_seq(post.log_queue);
    let mcap = message_queue_cap(pre.message_queue);
    let lcap = log_queue_cap(pre.log_queue);
    lemma_extends_refl(m0);
    lemma_extends_refl(l0);
    match action {
        ModulAction::MergeTapes => {
            if l0.len() < lcap {
                lemma_extends_drop_last(l0, l1);
            }
            if m0.len() < mcap {
                lemma_extends_drop_last(m0, m1);
            }
        },
        ModulAction::Record => {
            if pre.is_recording {
                let ma = after_push(m0, mcap, ModulMessage::RecordingPlayback(false));
                let mb = after_push(ma, mcap, ModulMessage::Recording(false));
                lemma_extends_after_push(m0, mcap, ModulMessage::RecordingPlayback(false));
                lemma_extends_after_push(ma, mcap, ModulMessage::Recording(false));
                lemma_extends_trans(m0, ma, mb);
                if mb.len() < mcap {
                    lemma_extends_drop_last(mb, m1);
                } else {
                    lemma_extends_refl(mb);
                }
                lemma_extends_trans(m0, mb, m1);
            } else {
                lemma_extends_after_push(m0, mcap, ModulMessage::Recording(true));
            }
        },
        ModulAction::Playback => {
            lemma_extends_after_push(
                m0,
                mcap,
                ModulMessage::RecordingPlayback(!pre.is_recording_playback),
            );
        },
        ModulAction::PlayThrough => {
            lemma_extends_after_push(m0, mcap, ModulMessage::PlayThrough(!pre.is_play_through));
        },
        ModulAction::Clear => {
            lemma_extends_after_push(
                l0,
                lcap,
                LogEntry::ClearedTape((pre.primary_tape + 1) as usize),
            );
            if m0.len() < mcap {
                lemma_extends_drop_last(m0, m1);
            }
        },
        ModulAction::ClearAll => {
            lemma_extends_after_push(l0, lcap, LogEntry::ClearedAll);
        },
        _ => {},
    }
}

/// The metronome after `k` more samples.
pub open spec fn metronome_after(m: Metronome, k: int) -> Metronome
    recommends
        m.sample_count + k <= u64::MAX,
{
    let sc = (m.sample_count + k) as u64;
    Metronome {
        sample_count: sc,
        beat_index: crate::metronome::beat_index_of(sc, m.tick_period) as u64,
        show_beat: crate::metronome::show_beat_of(sc, m.tick_period),
        ..m
    }
}

/// The engine state that frame `k` of a drain sees: of everything the mixer
/// reads, only the metronome moves between frames.
pub open spec fn drain_state(pre: AudioModel, k: int) -> AudioModel {
    AudioModel { metronome: metronome_after(pre.metronome, k), ..pre }
}

/// The output queue's contents after the first `n` frames of a drain: each
/// frame's mixed sample is appended when a slot is free and dropped when the
/// queue is full.
pub open spec fn out_fold(pre: AudioModel, frames: Seq<Input>, n: int) -> Seq<i64>
    decreases n,
{
    if n <= 0 {
        sample_queue_seq(pre.output_queue)
    } else {
        after_push(
            out_fold(pre, frames, n - 1),
            sample_queue_cap(pre.output_queue),
            drain_state(pre, n - 1).out_sample_spec(frames[n - 1]) as i64,
        )
    }
}

/// Running peak of slot `i` over the first `n` input frames of one engine
/// iteration: for a tape slot, the largest mixed contribution seen; for the
/// reserved live slot past the tapes, the largest raw input sample while
/// play-through is on. Starts at zero.
pub open spec fn peak_upto(pre: AudioModel, frames: Seq<Input>, i: int, n: int) -> int
    decreases n,
{
    if n <= 0 {
        0
    } else {
        let prev = peak_upto(pre, frames, i, n - 1);
        let c = if i < TAPE_COUNT {
            contribution(pre.tape_model.tapes@, i, frames[n - 1].index as int)
        } else if pre.is_play_through {
            frames[n - 1].sample as int
        } else {
            prev
        };
        if c > prev {
            c
        } else {
            prev
        }
    }
}

/// Solo precedence law: while any tape is solo, the mixed contribution of
/// every non-solo tape is exactly zero, at every playhead position.
pub proof fn lemma_solo_precedence(tapes: Seq<Tape>, i: int, idx: int)
    requires
        any_solo(tapes),
        0 <= i < tapes.len(),
        !tapes[i].is_solo,
    ensures
        contribution(tapes, i, idx) == 0,
{
}

/// Tape gain law, seen from the mixer: a muted tape contributes exactly zero
/// whenever its sample is read at all (that is, unless solo already silences
/// it), regardless of its volume.
pub proof fn lemma_muted_contributes_zero(tapes: Seq<Tape>, i: int, idx: int)
    requires
        0 <= i < tapes.len(),
        tapes[i].is_muted,
    ensures
        contribution(tapes, i, idx) == 0,
{
    if !(any_solo(tapes) && !tapes[i].is_solo) {
        let x = tapes[i].audio@[idx] as int;
        vstd::arithmetic::mul::lemma_mul_basics(x);
        vstd::arithmetic::mul::lemma_mul_basics(-x);
        vstd::arithmetic::div_mod::lemma_div_of0(VOLUME_MAX as int);
    }
}

/// Merge idempotence law: a merge with an empty secondary set leaves the
/// primary tape's samples unchanged.
pub proof fn lemma_merge_empty_secondary(tapes: Seq<Tape>, primary: int, secondary: Seq<bool>)
    requires
        forall|i: int| 0 <= i < TAPE_COUNT ==> !(#[trigger] secondary[i]),
    ensures
        merged_spec(tapes, primary, secondary) == tapes[primary].audio@,
{
    lemma_merge_noop_upto(tapes, primary, secondary, TAPE_COUNT as int);
}

proof fn lemma_merge_noop_upto(tapes: Seq<Tape>, primary: int, secondary: Seq<bool>, n: int)
    requires
        n <= TAPE_COUNT,
        forall|i: int| 0 <= i < TAPE_COUNT ==> !(#[trigger] secondary[i]),
    ensures
        merged_upto(tapes, primary, secondary, n) == tapes[primary].audio@,
    decreases n,
{
    if n > 0 {
        lemma_merge_noop_upto(tapes, primary, secondary, n - 1);
    }
}

/// Used to transfer data to and from the audio threads: the engine state
/// itself, owned by the engine loop alone. The hardware callbacks and the
/// controller reach it only through its bounded queues.
pub struct AudioModel {
    pub tape_length: usize,
    pub recording_tape: Vec<Input>,
    pub tape_model: TapeModel,
    pub input_queue: InputQueue,
    pub action_queue: ActionQueue,
    pub message_queue: MessageQueue,
    pub is_recording: bool,
    pub is_recording_playback: bool,
    pub is_play_through: bool,
    pub audio_index: usize,
    pub primary_tape: usize,
    pub secondary_tapes: Vec<bool>,
    pub output_queue: SampleQueue,
    pub writing_tape: Vec<i64>,
    pub sample_averages: Vec<i64>,
    pub samples_for_graphs: Vec<Vec<i64>>,
    pub show_beat: bool,
    pub beat_index: u64,
    pub metronome: Metronome,
    pub output_channel_count: usize,
    pub log_queue: LogQueue,
    /// Set by the `Write` action; the disk-export collaborator polls and
    /// clears it, then hands `writing_tape` to the container writer.
    pub write_requested: bool,
    /// Click tone for the downbeat (`beat_index % 4 == 0`), one period or
    /// more of a fixed pitch, indexed by absolute sample index so the phase
    /// never drifts.
    pub click_downbeat: Vec<i64>,
    /// Click tone for the off-beats.
    pub click_offbeat: Vec<i64>,
}

impl AudioModel {
    pub open spec fn wf(self) -> bool {
        &&& self.tape_length >= SAMPLE_GRAPH_SIZE
        &&& self.tape_model.wf(self.tape_length as nat)
        &&& self.secondary_tapes@.len() == TAPE_COUNT
        &&& self.sample_averages@.len() == TAPE_COUNT + 1
        &&& self.samples_for_graphs@.len() == TAPE_COUNT
        &&& forall|i: int|
            0 <= i < TAPE_COUNT ==> (#[trigger] self.samples_for_graphs@[i])@.len()
                == SAMPLE_GRAPH_SIZE
        &&& self.primary_tape < TAPE_COUNT
        &&& self.audio_index < self.tape_length
        &&& self.metronome.wf()
        &&& 1 <= self.output_channel_count
        &&& sample_queue_cap(self.output_queue) >= 1
        &&& sample_queue_cap(self.output_queue) % (self.output_channel_count as nat) == 0
        &&& sample_queue_seq(self.output_queue).len() <= sample_queue_cap(self.output_queue)
        &&& input_queue_cap(self.input_queue) >= 1
        &&& action_queue_cap(self.action_queue) >= 1
        &&& message_queue_cap(self.message_queue) >= 1
        &&& log_queue_cap(self.log_queue) >= 1
        &&& forall|i: int|
            0 <= i < input_queue_seq(self.input_queue).len() ==> (#[trigger] input_queue_seq(
                self.input_queue,
            )[i]).index < self.tape_length
        &&& forall|i: int|
            0 <= i < self.recording_tape@.len() ==> (#[trigger] self.recording_tape@[i]).index
                < self.tape_length
        &&& self.click_downbeat@.len() >= 1
        &&& self.click_offbeat@.len() >= 1
    }

    /// A fresh engine: silent tapes, cleared flags, empty queues, playhead at
    /// zero, metronome stopped at sample zero.
    pub fn new(
        tape_length: usize,
        output_channel_count: usize,
        bpm: u16,
        sample_rate: u32,
        channel_count: u32,
        click_downbeat: Vec<i64>,
        click_offbeat: Vec<i64>,
    ) -> (m: AudioModel)
        requires
            tape_length >= SAMPLE_GRAPH_SIZE,
            1 <= output_channel_count,
            RING_BUFFER_CAPACITY as nat % (output_channel_count as nat) == 0,
            bpm >= 1,
            sample_rate as int * channel_count as int * 60 <= u64::MAX as int,
            bpm as int <= sample_rate as int * channel_count as int * 60,
            click_downbeat@.len() >= 1,
            click_offbeat@.len() >= 1,
        ensures
            m.wf(),
            m.tape_length == tape_length,
            m.output_channel_count == output_channel_count,
            m.recording_tape@ == Seq::<Input>::empty(),
            m.writing_tape@ == Seq::<i64>::empty(),
            !m.is_recording && !m.is_recording_playback && !m.is_play_through,
            !m.write_requested,
            m.audio_index == 0,
            m.primary_tape == 0,
            forall|i: int| 0 <= i < TAPE_COUNT ==> !(#[trigger] m.secondary_tapes@[i]),
            forall|i: int|
                0 <= i < TAPE_COUNT + 1 ==> (#[trigger] m.sample_averages@[i]) == 0i64,
            forall|i: int, j: int|
                0 <= i < TAPE_COUNT && 0 <= j < SAMPLE_GRAPH_SIZE ==> (
                #[trigger] m.samples_for_graphs@[i]@[j]) == 0i64,
            forall|i: int|
                0 <= i < TAPE_COUNT ==> (#[trigger] m.tape_model.tapes@[i]).audio@ == Seq::new(
                    tape_length as nat,
                    |j: int| 0i64,
                ) && m.tape_model.tapes@[i].spec_volume() == VOLUME_MAX
                    && !m.tape_model.tapes@[i].spec_muted() && !m.tape_model.tapes@[i].spec_solo(),
            !m.show_beat,
            m.beat_index == 0,
            !m.metronome.is_running,
            m.metronome.sample_count == 0,
            m.metronome.tick_period as int == sample_rate as int * channel_count as int * 60 / (
            bpm as int),
            input_queue_seq(m.input_queue) == Seq::<Input>::empty(),
            action_queue_seq(m.action_queue) == Seq::<ModulAction>::empty(),
            message_queue_seq(m.message_queue) == Seq::<ModulMessage>::empty(),
            log_queue_seq(m.log_queue) == Seq::<LogEntry>::empty(),
            sample_queue_seq(m.output_queue) == Seq::<i64>::empty(),
            input_queue_cap(m.input_queue) == RING_BUFFER_CAPACITY as nat,
            action_queue_cap(m.action_queue) == ACTION_QUEUE_CAPACITY as nat,
            message_queue_cap(m.message_queue) == MESSAGE_QUEUE_CAPACITY as nat,
            log_queue_cap(m.log_queue) == LOG_QUEUE_CAPACITY as nat,
            sample_queue_cap(m.output_queue) == RING_BUFFER_CAPACITY as nat,
            m.click_downbeat@ == click_downbeat@,
            m.click_offbeat@ == click_offbeat@,
    {
        let tape_model = TapeModel::new(tape_length);
        let mut secondary_tapes: Vec<bool> = Vec::new();
        let mut i: usize = 0;
        while i < TAPE_COUNT
            invariant
                i <= TAPE_COUNT,
                secondary_tapes@ =~= Seq::new(i as nat, |j: int| false),
            decreases TAPE_COUNT - i,
        {
            secondary_tapes.push(false);
            i = i + 1;
        }
        let mut sample_averages: Vec<i64> = Vec::new();
        let mut j: usize = 0;
        while j < TAPE_COUNT + 1
            invariant
                j <= TAPE_COUNT + 1,
                sample_averages@ =~= Seq::new(j as nat, |k: int| 0i64),
            decreases TAPE_COUNT + 1 - j,
        {
            sample_averages.push(0);
            j = j + 1;
        }
        let mut samples_for_graphs: Vec<Vec<i64>> = Vec::new();
        let mut g: usize = 0;
        while g < TAPE_COUNT
            invariant
                g <= TAPE_COUNT,
                samples_for_graphs@.len() == g,
                forall|a: int|
                    0 <= a < g ==> (#[trigger] samples_for_graphs@[a])@ =~= Seq::new(
                        SAMPLE_GRAPH_SIZE as nat,
                        |b: int| 0i64,
                    ),
            decreases TAPE_COUNT - g,
        {
            let mut row: Vec<i64> = Vec::new();
            let mut b: usize = 0;
            while b < SAMPLE_GRAPH_SIZE
                invariant
                    b <= SAMPLE_GRAPH_SIZE,
                    row@ =~= Seq::new(b as nat, |c: int| 0i64),
                decreases SAMPLE_GRAPH_SIZE - b,
            {
                row.push(0);
                b = b + 1;
            }
            samples_for_graphs.push(row);
            g = g + 1;
        }
        AudioModel {
            tape_length,
            recording_tape: Vec::new(),
            tape_model,
            input_queue: InputQueue::new(RING_BUFFER_CAPACITY),
            action_queue: ActionQueue::new(ACTION_QUEUE_CAPACITY),
            message_queue: MessageQueue::new(MESSAGE_QUEUE_CAPACITY),
            is_recording: false,
            is_recording_playback: false,
            is_play_through: false,
            audio_index: 0,
            primary_tape: 0,
            secondary_tapes,
            output_queue: SampleQueue::new(RING_BUFFER_CAPACITY),
            writing_tape: Vec::new(),
            sample_averages,
            samples_for_graphs,
            show_beat: false,
            beat_index: 0,
            metronome: Metronome::new(bpm, sample_rate, channel_count),
            output_channel_count,
            log_queue: LogQueue::new(LOG_QUEUE_CAPACITY),
            write_requested: false,
            click_downbeat,
            click_offbeat,
        }
    }

    /// Best-effort state-delta emission: a full queue drops the message; the
    /// next iteration will emit a fresher value.
    fn emit(&mut self, message: ModulMessage)
        ensures
            *final(self) == (AudioModel { message_queue: final(self).message_queue, ..*old(self) }),
            pushed_best_effort(
                message_queue_seq(old(self).message_queue),
                message_queue_seq(final(self).message_queue),
                message_queue_cap(old(self).message_queue),
                message,
            ),
            message_queue_cap(final(self).message_queue) == message_queue_cap(
                old(self).message_queue,
            ),
    {
        let _ = self.message_queue.try_push(message);
    }

    /// Best-effort log emission: a full queue drops the notice.
    fn log(&mut self, entry: LogEntry)
        ensures
            *final(self) == (AudioModel { log_queue: final(self).log_queue, ..*old(self) }),
            pushed_best_effort(
                log_queue_seq(old(self).log_queue),
                log_queue_seq(final(self).log_queue),
                log_queue_cap(old(self).log_queue),
                entry,
            ),
            log_queue_cap(final(self).log_queue) == log_queue_cap(old(self).log_queue),
    {
        let _ = self.log_queue.try_push(entry);
    }

    /// The input boundary's port: push one captured sample at an absolute
    /// position; the position is wrapped into tape range. Fails without
    /// blocking when the queue is full ("the consumer fell behind").
    pub fn push_input(&mut self, index: usize, sample: i64) -> (r: bool)
        requires
            old(self).wf(),
        ensures
            final(self).wf(),
            *final(self) == (AudioModel { input_queue: final(self).input_queue, ..*old(self) }),
            input_queue_cap(final(self).input_queue) == input_queue_cap(old(self).input_queue),
            r == (input_queue_seq(old(self).input_queue).len() < input_queue_cap(
                old(self).input_queue,
            )),
            r ==> input_queue_seq(final(self).input_queue) == input_queue_seq(
                old(self).input_queue,
            ).push(
                Input {
                    index: (index as int % old(self).tape_length as int) as usize,
                    sample,
                },
            ),
            !r ==> input_queue_seq(final(self).input_queue) == input_queue_seq(
                old(self).input_queue,
            ),
    {
        let wrapped = index % self.tape_length;
        let r = self.input_queue.try_push(Input { index: wrapped, sample });
        r.is_ok()
    }

    /// The controller's port: enqueue one action. Fails without blocking when
    /// the queue is full; the caller decides whether to drop or retry.
    pub fn try_send_action(&mut self, action: ModulAction) -> (r: Result<(), ModulAction>)
        requires
            old(self).wf(),
        ensures
            final(self).wf(),
            *final(self) == (AudioModel { action_queue: final(self).action_queue, ..*old(self) }),
            action_queue_cap(final(self).action_queue) == action_queue_cap(old(self).action_queue),
            action_queue_seq(old(self).action_queue).len() < action_queue_cap(
                old(self).action_queue,
            ) ==> r is Ok && action_queue_seq(final(self).action_queue) == action_queue_seq(
                old(self).action_queue,
            ).push(action),
            action_queue_seq(old(self).action_queue).len() >= action_queue_cap(
                old(self).action_queue,
            ) ==> r is Err && r->Err_0 == action && action_queue_seq(final(self).action_queue)
                == action_queue_seq(old(self).action_queue),
    {
        self.action_queue.try_push(action)
    }

    /// The output boundary's port: pop the next mixed sample, substituting
    /// silence on underrun; never blocks.
    pub fn pop_output_or_silence(&mut self) -> (r: i64)
        requires
            old(self).wf(),
        ensures
            final(self).wf(),
            *final(self) == (AudioModel { output_queue: final(self).output_queue, ..*old(self) }),
            sample_queue_cap(final(self).output_queue) == sample_queue_cap(old(self).output_queue),
            sample_queue_seq(old(self).output_queue).len() == 0 ==> r == 0 && sample_queue_seq(
                final(self).output_queue,
            ) == sample_queue_seq(old(self).output_queue),
            sample_queue_seq(old(self).output_queue).len() > 0 ==> r == sample_queue_seq(
                old(self).output_queue,
            )[0] && sample_queue_seq(final(self).output_queue) == sample_queue_seq(
                old(self).output_queue,
            ).drop_first(),
    {
        match self.output_queue.try_pop() {
            Some(s) => s,
            None => 0,
        }
    }

    /// The controller's polling port: pop the next state delta, if any.
    pub fn pop_message(&mut self) -> (r: Option<ModulMessage>)
        requires
            old(self).wf(),
        ensures
            final(self).wf(),
            *final(self) == (AudioModel { message_queue: final(self).message_queue, ..*old(self) }),
            message_queue_cap(final(self).message_queue) == message_queue_cap(
                old(self).message_queue,
            ),
            message_queue_seq(old(self).message_queue).len() == 0 ==> r is None
                && message_queue_seq(final(self).message_queue) == message_queue_seq(
                old(self).message_queue,
            ),
            message_queue_seq(old(self).message_queue).len() > 0 ==> r == Some(
                message_queue_seq(old(self).message_queue)[0],
            ) && message_queue_seq(final(self).message_queue) == message_queue_seq(
                old(self).message_queue,
            ).drop_first(),
    {
        self.message_queue.try_pop()
    }

    /// The controller's polling port: pop the next log entry, if any.
    pub fn pop_log(&mut self) -> (r: Option<LogEntry>)
        requires
            old(self).wf(),
        ensures
            final(self).wf(),
            *final(self) == (AudioModel { log_queue: final(self).log_queue, ..*old(self) }),
            log_queue_cap(final(self).log_queue) == log_queue_cap(old(self).log_queue),
            log_queue_seq(old(self).log_queue).len() == 0 ==> r is None && log_queue_seq(
                final(self).log_queue,
            ) == log_queue_seq(old(self).log_queue),
            log_queue_seq(old(self).log_queue).len() > 0 ==> r == Some(
                log_queue_seq(old(self).log_queue)[0],
            ) && log_queue_seq(final(self).log_queue) == log_queue_seq(
                old(self).log_queue,
            ).drop_first(),
    {
        self.log_queue.try_pop()
    }

    /// The click table the mixer reads at the current beat: the downbeat
    /// pitch on every fourth beat, the off-beat pitch otherwise.
    pub open spec fn click_table_spec(self) -> Seq<i64> {
        if self.metronome.beat_index % 4 == 0 {
            self.click_downbeat@
        } else {
            self.click_offbeat@
        }
    }

    /// The click sample at absolute playhead `idx`: the table is indexed by
    /// the absolute position so the phase never drifts or resets.
    pub open spec fn click_sample_spec(self, idx: int) -> int {
        self.click_table_spec()[idx % (self.click_table_spec().len() as int)] as int
    }

    /// The sample pushed to the output queue for frame `t`: the tape mix,
    /// plus the raw input under play-through, plus the click while the
    /// metronome runs and shows a beat.
    pub open spec fn out_sample_spec(self, t: Input) -> int {
        let base = tapes_mix(self.tape_model.tapes@, t.index as int);
        let with_pt = if self.is_play_through {
            sat_add_spec(base, t.sample as int)
        } else {
            base
        };
        if self.metronome.is_running && self.metronome.show_beat {
            sat_add_spec(with_pt, self.click_sample_spec(t.index as int))
        } else {
            with_pt
        }
    }

    /// The sample appended to the export accumulator for frame `t`: the tape
    /// mix, plus the raw input under recording-playback; never the click.
    pub open spec fn writing_sample_spec(self, t: Input) -> int {
        let base = tapes_mix(self.tape_model.tapes@, t.index as int);
        if self.is_recording_playback {
            sat_add_spec(base, t.sample as int)
        } else {
            base
        }
    }

    /// Whether any tape is marked solo.
    fn has_solo(&self) -> (r: bool)
        requires
            self.tape_model.tapes@.len() == TAPE_COUNT,
        ensures
            r == any_solo(self.tape_model.tapes@),
    {
        let mut found = false;
        let mut i: usize = 0;
        while i < TAPE_COUNT
            invariant
                i <= TAPE_COUNT,
                self.tape_model.tapes@.len() == TAPE_COUNT,
                found == exists|j: int|
                    0 <= j < i && (#[trigger] self.tape_model.tapes@[j]).is_solo,
            decreases TAPE_COUNT - i,
        {
            if self.tape_model.tapes[i].is_solo() {
                found = true;
            }
            i = i + 1;
        }
        found
    }

    /// Mix all tapes at playhead `idx`, tracking each tape's running peak
    /// into `averages`; the reserved play-through slot is left alone.
    fn mix_frame(&self, idx: usize, averages: &mut Vec<i64>) -> (mix: i64)
        requires
            self.wf(),
            idx < self.tape_length,
            old(averages)@.len() == TAPE_COUNT + 1,
        ensures
            final(averages)@.len() == TAPE_COUNT + 1,
            mix as int == tapes_mix(self.tape_model.tapes@, idx as int),
            forall|i: int|
                0 <= i < TAPE_COUNT ==> final(averages)@[i] as int == (if contribution(
                    self.tape_model.tapes@,
                    i,
                    idx as int,
                ) > old(averages)@[i] as int {
                    contribution(self.tape_model.tapes@, i, idx as int)
                } else {
                    old(averages)@[i] as int
                }),
            final(averages)@[TAPE_COUNT as int] == old(averages)@[TAPE_COUNT as int],
    {
        let is_there_any_solo = self.has_solo();
        let mut sample: i64 = 0;
        let mut i: usize = 0;
        while i < TAPE_COUNT
            invariant
                self.wf(),
                idx < self.tape_length,
                i <= TAPE_COUNT,
                averages@.len() == TAPE_COUNT + 1,
                is_there_any_solo == any_solo(self.tape_model.tapes@),
                sample as int == mix_upto(self.tape_model.tapes@, idx as int, i as int),
                forall|j: int|
                    0 <= j < i ==> averages@[j] as int == (if contribution(
                        self.tape_model.tapes@,
                        j,
                        idx as int,
                    ) > old(averages)@[j] as int {
                        contribution(self.tape_model.tapes@, j, idx as int)
                    } else {
                        old(averages)@[j] as int
                    }),
                forall|j: int| i <= j < TAPE_COUNT + 1 ==> averages@[j] == old(averages)@[j],
            decreases TAPE_COUNT - i,
        {
            let tape = &self.tape_model.tapes[i];
            let tape_sample: i64 = if !is_there_any_solo {
                apply_gain(tape.audio[idx], tape.get_volume())
            } else if tape.is_solo() {
                apply_gain(tape.audio[idx], tape.get_volume())
            } else {
                0
            };
            proof {
                assert(tape_sample as int == contribution(self.tape_model.tapes@, i as int,
                idx as int));
            }
            if tape_sample > averages[i] {
                averages.set(i, tape_sample);
            }
            sample = sat_add(sample, tape_sample);
            i = i + 1;
        }
        sample
    }

    /// Process one captured frame: record it if recording is active, mix all
    /// tapes (tracking peaks into `averages`), add play-through and the
    /// click, count the sample into the metronome, push the mix to the
    /// output queue — logging and dropping the sample when the queue is full
    /// — and fold the mix into the export accumulator.
    fn process_frame(&mut self, t: Input, averages: &mut Vec<i64>)
        requires
            old(self).wf(),
            t.index < old(self).tape_length,
            old(averages)@.len() == TAPE_COUNT + 1,
            old(self).metronome.sample_count < u64::MAX,
        ensures
            final(self).wf(),
            final(self).tape_length == old(self).tape_length,
            final(self).tape_model == old(self).tape_model,
            final(self).input_queue == old(self).input_queue,
            final(self).action_queue == old(self).action_queue,
            final(self).message_queue == old(self).message_queue,
            final(self).is_recording == old(self).is_recording,
            final(self).is_recording_playback == old(self).is_recording_playback,
            final(self).is_play_through == old(self).is_play_through,
            final(self).primary_tape == old(self).primary_tape,
            final(self).secondary_tapes == old(self).secondary_tapes,
            final(self).sample_averages == old(self).sample_averages,
            final(self).samples_for_graphs == old(self).samples_for_graphs,
            final(self).show_beat == old(self).show_beat,
            final(self).beat_index == old(self).beat_index,
            final(self).output_channel_count == old(self).output_channel_count,
            final(self).write_requested == old(self).write_requested,
            final(self).click_downbeat == old(self).click_downbeat,
            final(self).click_offbeat == old(self).click_offbeat,
            final(self).audio_index == t.index,
            final(self).recording_tape@ == (if old(self).is_recording {
                old(self).recording_tape@.push(t)
            } else {
                old(self).recording_tape@
            }),
            final(self).writing_tape@ == old(self).writing_tape@.push(
                old(self).writing_sample_spec(t) as i64,
            ),
            final(self).metronome == old(self).metronome.advanced_spec(1),
            final(averages)@.len() == TAPE_COUNT + 1,
            forall|i: int|
                0 <= i < TAPE_COUNT ==> final(averages)@[i] as int == (if contribution(
                    old(self).tape_model.tapes@,
                    i,
                    t.index as int,
                ) > old(averages)@[i] as int {
                    contribution(old(self).tape_model.tapes@, i, t.index as int)
                } else {
                    old(averages)@[i] as int
                }),
            final(averages)@[TAPE_COUNT as int] == (if old(self).is_play_through && t.sample > old(
                averages,
            )@[TAPE_COUNT as int] {
                t.sample
            } else {
                old(averages)@[TAPE_COUNT as int]
            }),
            sample_queue_cap(final(self).output_queue) == sample_queue_cap(old(self).output_queue),
            log_queue_cap(final(self).log_queue) == log_queue_cap(old(self).log_queue),
            sample_queue_seq(old(self).output_queue).len() < sample_queue_cap(
                old(self).output_queue,
            ) ==> sample_queue_seq(final(self).output_queue) == sample_queue_seq(
                old(self).output_queue,
            ).push(old(self).out_sample_spec(t) as i64) && final(self).log_queue == old(
                self,
            ).log_queue,
            sample_queue_seq(old(self).output_queue).len() >= sample_queue_cap(
                old(self).output_queue,
            ) ==> sample_queue_seq(final(self).output_queue) == sample_queue_seq(
                old(self).output_queue,
            ) && pushed_best_effort(
                log_queue_seq(old(self).log_queue),
                log_queue_seq(final(self).log_queue),
                log_queue_cap(old(self).log_queue),
                LogEntry::BufferFull(sample_queue_seq(old(self).output_queue).len() as usize),
            ),
    {
        let t_index = t.index;
        self.audio_index = t_index;
        if self.is_recording {
            self.recording_tape.push(t);
        }
        let sample = self.mix_frame(t_index, averages);
        let mut sum = sample;
        if self.is_play_through {
            sum = sat_add(sum, t.sample);
            let live_peak = averages[TAPE_COUNT];
            if t.sample > live_peak {
                averages.set(TAPE_COUNT, t.sample);
            }
        }
        if self.metronome.is_running && self.metronome.show_beat() {
            let first_beat = self.metronome.get_beat_index() % 4 == 0;
            let table = if first_beat {
                &self.click_downbeat
            } else {
                &self.click_offbeat
            };
            let click_index = t_index % table.len();
            sum = sat_add(sum, table[click_index]);
        }
        self.metronome.update();
        let pushed = self.output_queue.try_push(sum);
        match pushed {
            Ok(_) => {},
            Err(_) => {
                let occupied = self.output_queue.occupied_len();
                self.log(LogEntry::BufferFull(occupied));
            },
        }
        let mut writing_sample = sample;
        if self.is_recording_playback {
            writing_sample = sat_add(writing_sample, t.sample);
        }
        self.writing_tape.push(writing_sample);
    }

    /// Recompute tape `id`'s down-sampled waveform from `audio` and publish
    /// the whole summary matrix as a state delta, best effort.
    fn update_waveform(&mut self, id: usize, audio: &Vec<i64>)
        requires
            old(self).wf(),
            id < TAPE_COUNT,
            audio@.len() >= SAMPLE_GRAPH_SIZE,
        ensures
            final(self).wf(),
            *final(self) == (AudioModel {
                samples_for_graphs: final(self).samples_for_graphs,
                message_queue: final(self).message_queue,
                ..*old(self)
            }),
            final(self).samples_for_graphs@.len() == TAPE_COUNT,
            final(self).samples_for_graphs@[id as int]@ == downsample_spec(audio@),
            forall|i: int|
                0 <= i < TAPE_COUNT && i != id ==> (#[trigger] final(self).samples_for_graphs@[i])
                    == old(self).samples_for_graphs@[i],
            message_queue_cap(final(self).message_queue) == message_queue_cap(
                old(self).message_queue,
            ),
            pushed_graphs_message(
                message_queue_seq(old(self).message_queue),
                message_queue_seq(final(self).message_queue),
                message_queue_cap(old(self).message_queue),
                final(self).samples_for_graphs@,
            ),
    {
        let temp = downsample(audio);
        self.samples_for_graphs.set(id, temp);
        let payload = copy_graphs(&self.samples_for_graphs);
        let ghost pre_messages = message_queue_seq(self.message_queue);
        self.emit(ModulMessage::SamplesForGraphs(payload));
        proof {
            if pre_messages.len() < message_queue_cap(old(self).message_queue) {
                assert(message_queue_seq(self.message_queue).drop_last() =~= pre_messages);
            }
        }
    }

    /// Merge every secondary tape other than the primary into the primary
    /// tape by element-wise saturating sums, then recompute the primary's
    /// waveform.
    fn merge_tapes(&mut self)
        requires
            old(self).wf(),
        ensures
            final(self).wf(),
            *final(self) == (AudioModel {
                tape_model: final(self).tape_model,
                samples_for_graphs: final(self).samples_for_graphs,
                message_queue: final(self).message_queue,
                ..*old(self)
            }),
            final(self).tape_model.tapes@.len() == TAPE_COUNT,
            forall|i: int|
                0 <= i < TAPE_COUNT && i != old(self).primary_tape as int ==> (
                #[trigger] final(self).tape_model.tapes@[i]) == old(self).tape_model.tapes@[i],
            final(self).tape_model.tapes@[old(self).primary_tape as int].audio@ == merged_spec(
                old(self).tape_model.tapes@,
                old(self).primary_tape as int,
                old(self).secondary_tapes@,
            ),
            final(self).tape_model.tapes@[old(self).primary_tape as int].volume == old(
                self,
            ).tape_model.tapes@[old(self).primary_tape as int].volume,
            final(self).tape_model.tapes@[old(self).primary_tape as int].is_muted == old(
                self,
            ).tape_model.tapes@[old(self).primary_tape as int].is_muted,
            final(self).tape_model.tapes@[old(self).primary_tape as int].is_solo == old(
                self,
            ).tape_model.tapes@[old(self).primary_tape as int].is_solo,
            final(self).samples_for_graphs@.len() == TAPE_COUNT,
            final(self).samples_for_graphs@[old(self).primary_tape as int]@ == downsample_spec(
                merged_spec(
                    old(self).tape_model.tapes@,
                    old(self).primary_tape as int,
                    old(self).secondary_tapes@,
                ),
            ),
            forall|i: int|
                0 <= i < TAPE_COUNT && i != old(self).primary_tape as int ==> (
                #[trigger] final(self).samples_for_graphs@[i]) == old(self).samples_for_graphs@[i],
            message_queue_cap(final(self).message_queue) == message_queue_cap(
                old(self).message_queue,
            ),
            pushed_graphs_message(
                message_queue_seq(old(self).message_queue),
                message_queue_seq(final(self).message_queue),
                message_queue_cap(old(self).message_queue),
                final(self).samples_for_graphs@,
            ),
    {
        let primary_tape = self.primary_tape;
        let mut i: usize = 0;
        while i < TAPE_COUNT
            invariant
                old(self).wf(),
                i <= TAPE_COUNT,
                primary_tape == old(self).primary_tape,
                *self == (AudioModel { tape_model: self.tape_model, ..*old(self) }),
                self.tape_model.tapes@.len() == TAPE_COUNT,
                forall|j: int|
                    0 <= j < TAPE_COUNT && j != primary_tape as int ==> (
                    #[trigger] self.tape_model.tapes@[j]) == old(self).tape_model.tapes@[j],
                self.tape_model.tapes@[primary_tape as int].audio@ == merged_upto(
                    old(self).tape_model.tapes@,
                    primary_tape as int,
                    old(self).secondary_tapes@,
                    i as int,
                ),
                self.tape_model.tapes@[primary_tape as int].volume == old(
                    self,
                ).tape_model.tapes@[primary_tape as int].volume,
                self.tape_model.tapes@[primary_tape as int].is_muted == old(
                    self,
                ).tape_model.tapes@[primary_tape as int].is_muted,
                self.tape_model.tapes@[primary_tape as int].is_solo == old(
                    self,
                ).tape_model.tapes@[primary_tape as int].is_solo,
                self.tape_model.tapes@[primary_tape as int].audio@.len() == old(
                    self,
                ).tape_length,
                self.tape_model.wf(old(self).tape_length as nat),
            decreases TAPE_COUNT - i,
        {
            if self.secondary_tapes[i] && i != primary_tape {
                let other = copy_samples(&self.tape_model.tapes[i].audio);
                self.tape_model.tapes[primary_tape].add(&other);
            }
            i = i + 1;
        }
        let merged = copy_samples(&self.tape_model.tapes[primary_tape].audio);
        self.update_waveform(primary_tape, &merged);
    }

    /// Toggle mute on the primary tape and on every secondary tape.
    fn toggle_mute_group(&mut self)
        requires
            old(self).wf(),
        ensures
            final(self).wf(),
            *final(self) == (AudioModel { tape_model: final(self).tape_model, ..*old(self) }),
            final(self).tape_model.tapes@.len() == TAPE_COUNT,
            forall|i: int|
                0 <= i < TAPE_COUNT ==> (#[trigger] final(self).tape_model.tapes@[i])
                    == mute_toggled(
                    old(self).tape_model.tapes@[i],
                    group_times(
                        old(self).primary_tape as int,
                        old(self).secondary_tapes@,
                        i,
                    ),
                ),
    {
        let primary_tape = self.primary_tape;
        self.tape_model.tapes[primary_tape].toggle_mute();
        let mut i: usize = 0;
        while i < TAPE_COUNT
            invariant
                old(self).wf(),
                i <= TAPE_COUNT,
                primary_tape == old(self).primary_tape,
                *self == (AudioModel { tape_model: self.tape_model, ..*old(self) }),
                self.tape_model.tapes@.len() == TAPE_COUNT,
                forall|j: int|
                    0 <= j < i ==> (#[trigger] self.tape_model.tapes@[j]) == mute_toggled(
                        old(self).tape_model.tapes@[j],
                        group_times(primary_tape as int, old(self).secondary_tapes@, j),
                    ),
                forall|j: int|
                    i <= j < TAPE_COUNT ==> (#[trigger] self.tape_model.tapes@[j]) == mute_toggled(
                        old(self).tape_model.tapes@[j],
                        if j == primary_tape as int {
                            1int
                        } else {
                            0int
                        },
                    ),
            decreases TAPE_COUNT - i,
        {
            if self.secondary_tapes[i] {
                self.tape_model.tapes[i].toggle_mute();
            }
            i = i + 1;
        }
    }

    /// Toggle solo on the primary tape and on every secondary tape.
    fn toggle_solo_group(&mut self)
        requires
            old(self).wf(),
        ensures
            final(self).wf(),
            *final(self) == (AudioModel { tape_model: final(self).tape_model, ..*old(self) }),
            final(self).tape_model.tapes@.len() == TAPE_COUNT,
            forall|i: int|
                0 <= i < TAPE_COUNT ==> (#[trigger] final(self).tape_model.tapes@[i])
                    == solo_toggled(
                    old(self).tape_model.tapes@[i],
                    group_times(
                        old(self).primary_tape as int,
                        old(self).secondary_tapes@,
                        i,
                    ),
                ),
    {
        let primary_tape = self.primary_tape;
        self.tape_model.tapes[primary_tape].toggle_solo();
        let mut i: usize = 0;
        while i < TAPE_COUNT
            invariant
                old(self).wf(),
                i <= TAPE_COUNT,
                primary_tape == old(self).primary_tape,
                *self == (AudioModel { tape_model: self.tape_model, ..*old(self) }),
                self.tape_model.tapes@.len() == TAPE_COUNT,
                forall|j: int|
                    0 <= j < i ==> (#[trigger] self.tape_model.tapes@[j]) == solo_toggled(
                        old(self).tape_model.tapes@[j],
                        group_times(primary_tape as int, old(self).secondary_tapes@, j),
                    ),
                forall|j: int|
                    i <= j < TAPE_COUNT ==> (#[trigger] self.tape_model.tapes@[j]) == solo_toggled(
                        old(self).tape_model.tapes@[j],
                        if j == primary_tape as int {
                            1int
                        } else {
                            0int
                        },
                    ),
            decreases TAPE_COUNT - i,
        {
            if self.secondary_tapes[i] {
                self.tape_model.tapes[i].toggle_solo();
            }
            i = i + 1;
        }
    }

    /// Step the volume up on the primary tape and on every secondary tape.
    fn volume_up_group(&mut self)
        requires
            old(self).wf(),
        ensures
            final(self).wf(),
            *final(self) == (AudioModel { tape_model: final(self).tape_model, ..*old(self) }),
            final(self).tape_model.tapes@.len() == TAPE_COUNT,
            forall|i: int|
                0 <= i < TAPE_COUNT ==> (#[trigger] final(self).tape_model.tapes@[i]) == (Tape {
                    volume: crate::tape::vol_up_n(
                        old(self).tape_model.tapes@[i].volume,
                        group_times(
                            old(self).primary_tape as int,
                            old(self).secondary_tapes@,
                            i,
                        ),
                    ),
                    ..old(self).tape_model.tapes@[i]
                }),
    {
        let primary_tape = self.primary_tape;
        proof {
            assert forall|j: int| 0 <= j < TAPE_COUNT implies {
                let v = (#[trigger] old(self).tape_model.tapes@[j]).volume;
                crate::tape::vol_up_n(v, 0) == v && crate::tape::vol_up_n(v, 1)
                    == crate::tape::vol_up_spec(v) && crate::tape::vol_up_n(v, 2)
                    == crate::tape::vol_up_spec(crate::tape::vol_up_spec(v))
            } by {
                crate::tape::lemma_vol_steps_unfold(old(self).tape_model.tapes@[j].volume);
            }
        }
        self.tape_model.tapes[primary_tape].volume_up();
        let mut i: usize = 0;
        while i < TAPE_COUNT
            invariant
                old(self).wf(),
                i <= TAPE_COUNT,
                primary_tape == old(self).primary_tape,
                *self == (AudioModel { tape_model: self.tape_model, ..*old(self) }),
                self.tape_model.tapes@.len() == TAPE_COUNT,
                forall|j: int| 0 <= j < TAPE_COUNT ==> (#[trigger] self.tape_model.tapes@[j]).wf(),
                forall|j: int|
                    0 <= j < i ==> (#[trigger] self.tape_model.tapes@[j]) == (Tape {
                        volume: crate::tape::vol_up_n(
                            old(self).tape_model.tapes@[j].volume,
                            group_times(primary_tape as int, old(self).secondary_tapes@, j),
                        ),
                        ..old(self).tape_model.tapes@[j]
                    }),
                forall|j: int|
                    i <= j < TAPE_COUNT ==> (#[trigger] self.tape_model.tapes@[j]) == (Tape {
                        volume: crate::tape::vol_up_n(
                            old(self).tape_model.tapes@[j].volume,
                            if j == primary_tape as int {
                                1int
                            } else {
                                0int
                            },
                        ),
                        ..old(self).tape_model.tapes@[j]
                    }),
            decreases TAPE_COUNT - i,
        {
            proof {
                assert forall|j: int| 0 <= j < TAPE_COUNT implies {
                    let v = (#[trigger] old(self).tape_model.tapes@[j]).volume;
                    crate::tape::vol_up_n(v, 0) == v && crate::tape::vol_up_n(v, 1)
                        == crate::tape::vol_up_spec(v) && crate::tape::vol_up_n(v, 2)
                        == crate::tape::vol_up_spec(crate::tape::vol_up_spec(v))
                } by {
                    crate::tape::lemma_vol_steps_unfold(old(self).tape_model.tapes@[j].volume);
                }
            }
            if self.secondary_tapes[i] {
                self.tape_model.tapes[i].volume_up();
            }
            i = i + 1;
        }
    }

    /// Step the volume down on the primary tape and on every secondary tape.
    fn volume_down_group(&mut self)
        requires
            old(self).wf(),
        ensures
            final(self).wf(),
            *final(self) == (AudioModel { tape_model: final(self).tape_model, ..*old(self) }),
            final(self).tape_model.tapes@.len() == TAPE_COUNT,
            forall|i: int|
                0 <= i < TAPE_COUNT ==> (#[trigger] final(self).tape_model.tapes@[i]) == (Tape {
                    volume: crate::tape::vol_down_n(
                        old(self).tape_model.tapes@[i].volume,
                        group_times(
                            old(self).primary_tape as int,
                            old(self).secondary_tapes@,
                            i,
                        ),
                    ),
                    ..old(self).tape_model.tapes@[i]
                }),
    {
        let primary_tape = self.primary_tape;
        proof {
            assert forall|j: int| 0 <= j < TAPE_COUNT implies {
                let v = (#[trigger] old(self).tape_model.tapes@[j]).volume;
                crate::tape::vol_down_n(v, 0) == v && crate::tape::vol_down_n(v, 1)
                    == crate::tape::vol_down_spec(v) && crate::tape::vol_down_n(v, 2)
                    == crate::tape::vol_down_spec(crate::tape::vol_down_spec(v))
            } by {
                crate::tape::lemma_vol_steps_unfold(old(self).tape_model.tapes@[j].volume);
            }
        }
        self.tape_model.tapes[primary_tape].volume_down();
        let mut i: usize = 0;
        while i < TAPE_COUNT
            invariant
                old(self).wf(),
                i <= TAPE_COUNT,
                primary_tape == old(self).primary_tape,
                *self == (AudioModel { tape_model: self.tape_model, ..*old(self) }),
                self.tape_model.tapes@.len() == TAPE_COUNT,
                forall|j: int| 0 <= j < TAPE_COUNT ==> (#[trigger] self.tape_model.tapes@[j]).wf(),
                forall|j: int|
                    0 <= j < i ==> (#[trigger] self.tape_model.tapes@[j]) == (Tape {
                        volume: crate::tape::vol_down_n(
                            old(self).tape_model.tapes@[j].volume,
                            group_times(primary_tape as int, old(self).secondary_tapes@, j),
                        ),
                        ..old(self).tape_model.tapes@[j]
                    }),
                forall|j: int|
                    i <= j < TAPE_COUNT ==> (#[trigger] self.tape_model.tapes@[j]) == (Tape {
                        volume: crate::tape::vol_down_n(
                            old(self).tape_model.tapes@[j].volume,
                            if j == primary_tape as int {
                                1int
                            } else {
                                0int
                            },
                        ),
                        ..old(self).tape_model.tapes@[j]
                    }),
            decreases TAPE_COUNT - i,
        {
            proof {
                assert forall|j: int| 0 <= j < TAPE_COUNT implies {
                    let v = (#[trigger] old(self).tape_model.tapes@[j]).volume;
                    crate::tape::vol_down_n(v, 0) == v && crate::tape::vol_down_n(v, 1)
                        == crate::tape::vol_down_spec(v) && crate::tape::vol_down_n(v, 2)
                        == crate::tape::vol_down_spec(crate::tape::vol_down_spec(v))
                } by {
                    crate::tape::lemma_vol_steps_unfold(old(self).tape_model.tapes@[j].volume);
                }
            }
            if self.secondary_tapes[i] {
                self.tape_model.tapes[i].volume_down();
            }
            i = i + 1;
        }
    }

    /// Keep the output queue's occupied length channel-aligned: when it is no
    /// multiple of the output channel count, log the condition and append one
    /// zero sample as realignment padding. When the deficit is one sample,
    /// this restores alignment.
    fn fix_alignment(&mut self)
        requires
            old(self).wf(),
        ensures
            final(self).wf(),
            *final(self) == (AudioModel {
                output_queue: final(self).output_queue,
                log_queue: final(self).log_queue,
                ..*old(self)
            }),
            sample_queue_cap(final(self).output_queue) == sample_queue_cap(old(self).output_queue),
            log_queue_cap(final(self).log_queue) == log_queue_cap(old(self).log_queue),
            sample_queue_seq(old(self).output_queue).len() % (old(self).output_channel_count
                as nat) == 0 ==> final(self).output_queue == old(self).output_queue
                && final(self).log_queue == old(self).log_queue,
            sample_queue_seq(old(self).output_queue).len() % (old(self).output_channel_count
                as nat) != 0 ==> sample_queue_seq(final(self).output_queue) == sample_queue_seq(
                old(self).output_queue,
            ).push(0i64) && pushed_best_effort(
                log_queue_seq(old(self).log_queue),
                log_queue_seq(final(self).log_queue),
                log_queue_cap(old(self).log_queue),
                LogEntry::AlignmentFixed(old(self).output_channel_count),
            ),
            sample_queue_seq(old(self).output_queue).len() % (old(self).output_channel_count
                as nat) == (old(self).output_channel_count - 1) as nat ==> sample_queue_seq(
                final(self).output_queue,
            ).len() % (old(self).output_channel_count as nat) == 0,
    {
        let output_channel_count = self.output_channel_count;
        let occupied = self.output_queue.occupied_len();
        if occupied % output_channel_count != 0 {
            self.log(LogEntry::AlignmentFixed(output_channel_count));
            proof {
                if sample_queue_seq(self.output_queue).len() == sample_queue_cap(
                    self.output_queue,
                ) {
                    assert(sample_queue_seq(self.output_queue).len() % (
                    self.output_channel_count as nat) == 0);
                }
            }
            let _ = self.output_queue.try_push(0);
            proof {
                let pre = sample_queue_seq(old(self).output_queue).len() as int;
                let cc = old(self).output_channel_count as int;
                if pre % cc == cc - 1 {
                    crate::utils::lemma_mod_step(pre, 0, cc);
                }
            }
        }
    }

    /// Apply one controller action. Every action is total over the current
    /// state: it can never be rejected and always leaves the engine
    /// well-formed.
    pub fn apply_action(&mut self, action: ModulAction)
        requires
            old(self).wf(),
        ensures
            final(self).wf(),
            action_applied(*old(self), *final(self), action),
    {
        match action {
            ModulAction::SelectPrimaryTape(primary_tape) => {
                self.primary_tape = if primary_tape < TAPE_COUNT {
                    primary_tape
                } else {
                    TAPE_COUNT - 1
                };
            },
            ModulAction::SelectSecondaryTape(secondary_tape) => {
                let slot = if secondary_tape < TAPE_COUNT {
                    secondary_tape
                } else {
                    TAPE_COUNT - 1
                };
                let current = self.secondary_tapes[slot];
                self.secondary_tapes.set(slot, !current);
            },
            ModulAction::MergeTapes => {
                let secondary = copy_bools(&self.secondary_tapes);
                let primary = self.primary_tape;
                let ghost pre_logs = log_queue_seq(self.log_queue);
                self.log(LogEntry::Merging { primary, secondary });
                proof {
                    if pre_logs.len() < log_queue_cap(old(self).log_queue) {
                        assert(log_queue_seq(self.log_queue).drop_last() =~= pre_logs);
                    }
                }
                self.merge_tapes();
            },
            ModulAction::Record => {
                if self.is_recording {
                    self.is_recording_playback = false;
                    self.emit(ModulMessage::RecordingPlayback(false));
                    self.is_recording = false;
                    self.emit(ModulMessage::Recording(false));
                    let audio = scatter(&self.recording_tape, self.tape_length);
                    let primary_tape = self.primary_tape;
                    self.update_waveform(primary_tape, &audio);
                    let t = &self.tape_model.tapes[primary_tape];
                    let new_tape = Tape {
                        volume: t.volume,
                        is_muted: t.is_muted,
                        is_solo: t.is_solo,
                        audio,
                    };
                    self.tape_model.tapes.set(primary_tape, new_tape);
                    self.recording_tape = Vec::new();
                } else {
                    self.is_recording = true;
                    self.emit(ModulMessage::Recording(true));
                    self.recording_tape = Vec::new();
                }
            },
            ModulAction::Playback => {
                self.is_recording_playback = !self.is_recording_playback;
                let now_on = self.is_recording_playback;
                self.emit(ModulMessage::RecordingPlayback(now_on));
            },
            ModulAction::PlayThrough => {
                self.is_play_through = !self.is_play_through;
                let now_on = self.is_play_through;
                self.emit(ModulMessage::PlayThrough(now_on));
            },
            ModulAction::Write => {
                self.write_requested = true;
            },
            ModulAction::Clear => {
                let primary_tape = self.primary_tape;
                self.log(LogEntry::ClearedTape(primary_tape + 1));
                self.tape_model.tapes[primary_tape].clear(0);
                let silent = crate::utils::zeros(SAMPLE_GRAPH_SIZE);
                self.update_waveform(primary_tape, &silent);
            },
            ModulAction::ClearAll => {
                self.log(LogEntry::ClearedAll);
                let silent = crate::utils::zeros(SAMPLE_GRAPH_SIZE);
                let mut id: usize = 0;
                while id < TAPE_COUNT
                    invariant
                        old(self).wf(),
                        self.wf(),
                        id <= TAPE_COUNT,
                        silent@ == Seq::new(SAMPLE_GRAPH_SIZE as nat, |j: int| 0i64),
                        *self == (AudioModel {
                            tape_model: self.tape_model,
                            samples_for_graphs: self.samples_for_graphs,
                            message_queue: self.message_queue,
                            log_queue: self.log_queue,
                            ..*old(self)
                        }),
                        log_queue_cap(self.log_queue) == log_queue_cap(old(self).log_queue),
                        log_queue_seq(self.log_queue) == after_push(
                            log_queue_seq(old(self).log_queue),
                            log_queue_cap(old(self).log_queue),
                            LogEntry::ClearedAll,
                        ),
                        self.tape_model.tapes@.len() == TAPE_COUNT,
                        forall|j: int|
                            0 <= j < id ==> (#[trigger] self.tape_model.tapes@[j]) == (Tape {
                                audio: self.tape_model.tapes@[j].audio,
                                ..old(self).tape_model.tapes@[j]
                            }),
                        forall|j: int|
                            0 <= j < id ==> (#[trigger] self.tape_model.tapes@[j]).audio@
                                == Seq::new(old(self).tape_length as nat, |k: int| 0i64),
                        forall|j: int|
                            id <= j < TAPE_COUNT ==> (#[trigger] self.tape_model.tapes@[j]) == old(
                                self,
                            ).tape_model.tapes@[j],
                        self.samples_for_graphs@.len() == TAPE_COUNT,
                        forall|j: int|
                            0 <= j < id ==> (#[trigger] self.samples_for_graphs@[j])@
                                == downsample_spec(
                                Seq::new(SAMPLE_GRAPH_SIZE as nat, |k: int| 0i64),
                            ),
                        forall|j: int|
                            id <= j < TAPE_COUNT ==> (#[trigger] self.samples_for_graphs@[j])
                                == old(self).samples_for_graphs@[j],
                        message_queue_cap(self.message_queue) == message_queue_cap(
                            old(self).message_queue,
                        ),
                        message_queue_seq(old(self).message_queue).len() <= message_queue_seq(
                            self.message_queue,
                        ).len() <= message_queue_seq(old(self).message_queue).len() + id,
                        message_queue_seq(self.message_queue).subrange(
                            0,
                            message_queue_seq(old(self).message_queue).len() as int,
                        ) == message_queue_seq(old(self).message_queue),
                        forall|k: int|
                            message_queue_seq(old(self).message_queue).len() <= k
                                < message_queue_seq(self.message_queue).len() ==> (
                            #[trigger] message_queue_seq(self.message_queue)[k])
                                is SamplesForGraphs,
                    decreases TAPE_COUNT - id,
                {
                    let ghost mid = message_queue_seq(self.message_queue);
                    self.tape_model.tapes[id].clear(0);
                    self.update_waveform(id, &silent);
                    proof {
                        let m0 = message_queue_seq(old(self).message_queue);
                        let m2 = message_queue_seq(self.message_queue);
                        if mid.len() < message_queue_cap(old(self).message_queue) {
                            assert(m2.drop_last() == mid);
                            assert(m2.subrange(0, m0.len() as int) =~= m0);
                            assert forall|k: int|
                                m0.len() <= k < m2.len() implies (#[trigger] m2[k])
                                is SamplesForGraphs by {
                                if k < m2.len() - 1 {
                                    assert(m2[k] == m2.drop_last()[k]);
                                }
                            }
                        } else {
                            assert(m2 == mid);
                        }
                    }
                    id = id + 1;
                }
            },
            ModulAction::ToggleMute => {
                self.toggle_mute_group();
            },
            ModulAction::ToggleSolo => {
                self.toggle_solo_group();
            },
            ModulAction::VolumeUp => {
                self.volume_up_group();
            },
            ModulAction::VolumeDown => {
                self.volume_down_group();
            },
            ModulAction::StartMetronome => {
                self.metronome.is_running = true;
            },
            ModulAction::StopMetronome => {
                self.metronome.is_running = false;
            },
        }
    }

    /// One engine iteration: report the metronome state, drain the captured
    /// input to empty — recording, mixing, clicking and pushing each mixed
    /// sample to the output queue — report the playhead, realign the output
    /// queue, publish the peak array when samples were processed, and apply
    /// every pending action. Nothing here ever blocks: full queues drop.
    pub fn update(&mut self)
        requires
            old(self).wf(),
            old(self).metronome.sample_count + input_queue_seq(old(self).input_queue).len()
                <= u64::MAX,
        ensures
            final(self).wf(),
            input_queue_seq(final(self).input_queue).len() == 0,
            action_queue_seq(final(self).action_queue).len() == 0,
            final(self).tape_length == old(self).tape_length,
            final(self).output_channel_count == old(self).output_channel_count,
            final(self).show_beat == old(self).metronome.show_beat,
            final(self).beat_index == old(self).metronome.beat_index,
            final(self).metronome.sample_count == old(self).metronome.sample_count
                + input_queue_seq(old(self).input_queue).len(),
            final(self).metronome.tick_period == old(self).metronome.tick_period,
            final(self).writing_tape@ == old(self).writing_tape@ + Seq::new(
                input_queue_seq(old(self).input_queue).len(),
                |k: int|
                    old(self).writing_sample_spec(input_queue_seq(old(self).input_queue)[k])
                        as i64,
            ),
            input_queue_seq(old(self).input_queue).len() > 0 ==> final(self).audio_index
                == input_queue_seq(old(self).input_queue).last().index,
            input_queue_seq(old(self).input_queue).len() == 0 ==> final(self).audio_index == old(
                self,
            ).audio_index,
            input_queue_seq(old(self).input_queue).len() > 0 ==> final(self).sample_averages@
                == Seq::new(
                (TAPE_COUNT + 1) as nat,
                |i: int|
                    peak_upto(
                        *old(self),
                        input_queue_seq(old(self).input_queue),
                        i,
                        input_queue_seq(old(self).input_queue).len() as int,
                    ) as i64,
            ),
            input_queue_seq(old(self).input_queue).len() == 0 ==> final(self).sample_averages
                == old(self).sample_averages,
            action_queue_seq(old(self).action_queue).len() == 0 ==> final(self).recording_tape@
                == (if old(self).is_recording {
                old(self).recording_tape@ + input_queue_seq(old(self).input_queue)
            } else {
                old(self).recording_tape@
            }),
            action_queue_seq(old(self).action_queue).len() == 0 ==> final(self).is_recording
                == old(self).is_recording && final(self).tape_model == old(self).tape_model,
            sample_queue_cap(final(self).output_queue) == sample_queue_cap(old(self).output_queue),
            ({
                let frames = input_queue_seq(old(self).input_queue);
                let drained = out_fold(*old(self), frames, frames.len() as int);
                sample_queue_seq(final(self).output_queue) == (if drained.len() % (old(
                    self,
                ).output_channel_count as nat) != 0 {
                    drained.push(0i64)
                } else {
                    drained
                })
            }),
            old(self).output_channel_count <= 2 ==> sample_queue_seq(
                final(self).output_queue,
            ).len() % (old(self).output_channel_count as nat) == 0,
            extends(
                message_queue_seq(old(self).message_queue),
                message_queue_seq(final(self).message_queue),
            ),
            extends(log_queue_seq(old(self).log_queue), log_queue_seq(final(self).log_queue)),
            ({
                let m0 = message_queue_seq(old(self).message_queue);
                let mcap = message_queue_cap(old(self).message_queue);
                let m2 = after_push(
                    after_push(m0, mcap, ModulMessage::ShowBeat(old(self).metronome.show_beat)),
                    mcap,
                    ModulMessage::BeatIndex(old(self).metronome.beat_index),
                );
                let m3 = after_push(
                    m2,
                    mcap,
                    ModulMessage::AudioIndex(final(self).audio_index),
                );
                &&& extends(m3, message_queue_seq(final(self).message_queue))
                &&& (input_queue_seq(old(self).input_queue).len() > 0 && m3.len() < mcap
                    ==> message_queue_seq(final(self).message_queue).len() > m3.len() && (
                message_queue_seq(final(self).message_queue)[m3.len() as int])
                    is SampleAverages && (message_queue_seq(
                    final(self).message_queue,
                )[m3.len() as int])->SampleAverages_0@ == final(self).sample_averages@)
            }),
    {
        let ghost frames = input_queue_seq(old(self).input_queue);
        let mut sample_averages = crate::utils::zeros(TAPE_COUNT + 1);
        let sample_count = self.input_queue.occupied_len();

        let show_beat_now = self.metronome.show_beat();
        self.show_beat = show_beat_now;
        self.emit(ModulMessage::ShowBeat(show_beat_now));
        let beat_index_now = self.metronome.get_beat_index();
        self.beat_index = beat_index_now;
        self.emit(ModulMessage::BeatIndex(beat_index_now));
        proof {
            let m0 = message_queue_seq(old(self).message_queue);
            let mcap = message_queue_cap(old(self).message_queue);
            let ma = after_push(m0, mcap, ModulMessage::ShowBeat(old(self).metronome.show_beat));
            lemma_extends_after_push(
                m0,
                mcap,
                ModulMessage::ShowBeat(old(self).metronome.show_beat),
            );
            lemma_extends_after_push(
                ma,
                mcap,
                ModulMessage::BeatIndex(old(self).metronome.beat_index),
            );
            lemma_extends_trans(m0, ma, message_queue_seq(self.message_queue));
            lemma_extends_refl(log_queue_seq(old(self).log_queue));
        }

        let ghost mut k: int = 0;
        while self.input_queue.occupied_len() > 0
            invariant
                self.wf(),
                0 <= k <= frames.len(),
                old(self).metronome.sample_count + frames.len() <= u64::MAX,
                input_queue_seq(self.input_queue) == frames.skip(k),
                input_queue_cap(self.input_queue) == input_queue_cap(old(self).input_queue),
                forall|i: int|
                    0 <= i < frames.len() ==> (#[trigger] frames[i]).index < old(self).tape_length,
                self.tape_model == old(self).tape_model,
                self.tape_length == old(self).tape_length,
                self.action_queue == old(self).action_queue,
                self.is_recording == old(self).is_recording,
                self.is_recording_playback == old(self).is_recording_playback,
                self.is_play_through == old(self).is_play_through,
                self.primary_tape == old(self).primary_tape,
                self.secondary_tapes == old(self).secondary_tapes,
                self.sample_averages == old(self).sample_averages,
                self.samples_for_graphs == old(self).samples_for_graphs,
                self.output_channel_count == old(self).output_channel_count,
                self.write_requested == old(self).write_requested,
                self.click_downbeat == old(self).click_downbeat,
                self.click_offbeat == old(self).click_offbeat,
                self.show_beat == old(self).metronome.show_beat,
                self.beat_index == old(self).metronome.beat_index,
                self.metronome.is_running == old(self).metronome.is_running,
                self.metronome.tick_period == old(self).metronome.tick_period,
                self.metronome.sample_count == old(self).metronome.sample_count + k,
                sample_averages@.len() == TAPE_COUNT + 1,
                forall|i: int|
                    0 <= i < TAPE_COUNT + 1 ==> (#[trigger] sample_averages@[i]) as int
                        == peak_upto(*old(self), frames, i, k),
                self.writing_tape@ == old(self).writing_tape@ + Seq::new(
                    k as nat,
                    |j: int| old(self).writing_sample_spec(frames[j]) as i64,
                ),
                self.recording_tape@ == (if old(self).is_recording {
                    old(self).recording_tape@ + frames.take(k)
                } else {
                    old(self).recording_tape@
                }),
                k == 0 ==> self.audio_index == old(self).audio_index,
                k > 0 ==> self.audio_index == frames[k - 1].index,
                sample_queue_cap(self.output_queue) == sample_queue_cap(old(self).output_queue),
                sample_queue_seq(self.output_queue) == out_fold(*old(self), frames, k),
                message_queue_cap(self.message_queue) == message_queue_cap(
                    old(self).message_queue,
                ),
                log_queue_cap(self.log_queue) == log_queue_cap(old(self).log_queue),
                message_queue_seq(self.message_queue) == after_push(
                    after_push(
                        message_queue_seq(old(self).message_queue),
                        message_queue_cap(old(self).message_queue),
                        ModulMessage::ShowBeat(old(self).metronome.show_beat),
                    ),
                    message_queue_cap(old(self).message_queue),
                    ModulMessage::BeatIndex(old(self).metronome.beat_index),
                ),
                extends(log_queue_seq(old(self).log_queue), log_queue_seq(self.log_queue)),
            decreases input_queue_seq(self.input_queue).len(),
        {
            let popped = self.input_queue.try_pop();
            match popped {
                Some(t) => {
                    proof {
                        assert(t == frames.skip(k)[0]);
                        assert(frames.skip(k)[0] == frames[k]);
                        assert(frames.skip(k).drop_first() =~= frames.skip(k + 1));
                    }
                    let ghost before_frame = *self;
                    self.process_frame(t, &mut sample_averages);
                    proof {
                        assert(before_frame.metronome == metronome_after(
                            old(self).metronome,
                            k,
                        ));
                        assert(before_frame.click_table_spec() == drain_state(
                            *old(self),
                            k,
                        ).click_table_spec());
                        assert(before_frame.out_sample_spec(t) == drain_state(
                            *old(self),
                            k,
                        ).out_sample_spec(t));
                        assert(before_frame.writing_sample_spec(t) == old(
                            self,
                        ).writing_sample_spec(t));
                        assert(self.writing_tape@ =~= old(self).writing_tape@ + Seq::new(
                            (k + 1) as nat,
                            |j: int| old(self).writing_sample_spec(frames[j]) as i64,
                        ));
                        if old(self).is_recording {
                            assert(frames.take(k + 1) =~= frames.take(k).push(frames[k]));
                            assert(self.recording_tape@ =~= old(self).recording_tape@
                                + frames.take(k + 1));
                        }
                        assert forall|i: int|
                            0 <= i < TAPE_COUNT + 1 implies (#[trigger] sample_averages@[i])
                            as int == peak_upto(*old(self), frames, i, k + 1) by {
                            assert(peak_upto(*old(self), frames, i, k + 1) == {
                                let prev = peak_upto(*old(self), frames, i, k);
                                let c = if i < TAPE_COUNT {
                                    contribution(
                                        old(self).tape_model.tapes@,
                                        i,
                                        frames[k].index as int,
                                    )
                                } else if old(self).is_play_through {
                                    frames[k].sample as int
                                } else {
                                    prev
                                };
                                if c > prev {
                                    c
                                } else {
                                    prev
                                }
                            });
                        }
                        let lcap = log_queue_cap(old(self).log_queue);
                        if sample_queue_seq(before_frame.output_queue).len() < sample_queue_cap(
                            before_frame.output_queue,
                        ) {
                            lemma_extends_refl(log_queue_seq(before_frame.log_queue));
                        } else {
                            lemma_extends_after_push(
                                log_queue_seq(before_frame.log_queue),
                                lcap,
                                LogEntry::BufferFull(
                                    sample_queue_seq(before_frame.output_queue).len() as usize,
                                ),
                            );
                        }
                        lemma_extends_trans(
                            log_queue_seq(old(self).log_queue),
                            log_queue_seq(before_frame.log_queue),
                            log_queue_seq(self.log_queue),
                        );
                        k = k + 1;
                    }
                },
                None => {
                    proof {
                        assert(false);
                    }
                },
            }
        }
        proof {
            assert(frames.skip(k).len() == 0);
            assert(k == frames.len());
            assert(self.writing_tape@ =~= old(self).writing_tape@ + Seq::new(
                frames.len(),
                |j: int| old(self).writing_sample_spec(frames[j]) as i64,
            ));
            if old(self).is_recording {
                assert(frames.take(k) =~= frames);
            }
        }

        proof {
            let m0 = message_queue_seq(old(self).message_queue);
            let mcap = message_queue_cap(old(self).message_queue);
            let ma = after_push(m0, mcap, ModulMessage::ShowBeat(old(self).metronome.show_beat));
            lemma_extends_after_push(
                m0,
                mcap,
                ModulMessage::ShowBeat(old(self).metronome.show_beat),
            );
            lemma_extends_after_push(
                ma,
                mcap,
                ModulMessage::BeatIndex(old(self).metronome.beat_index),
            );
            lemma_extends_trans(m0, ma, message_queue_seq(self.message_queue));
        }
        let ghost after_drain = *self;
        let playhead = self.audio_index;
        self.emit(ModulMessage::AudioIndex(playhead));
        proof {
            lemma_extends_after_push(
                message_queue_seq(after_drain.message_queue),
                message_queue_cap(after_drain.message_queue),
                ModulMessage::AudioIndex(after_drain.audio_index),
            );
            lemma_extends_trans(
                message_queue_seq(old(self).message_queue),
                message_queue_seq(after_drain.message_queue),
                message_queue_seq(self.message_queue),
            );
        }
        let ghost before_fix = *self;
        self.fix_alignment();
        proof {
            let l1 = log_queue_seq(before_fix.log_queue);
            let lcap = log_queue_cap(before_fix.log_queue);
            if sample_queue_seq(before_fix.output_queue).len() % (
            before_fix.output_channel_count as nat) != 0 {
                lemma_extends_after_push(
                    l1,
                    lcap,
                    LogEntry::AlignmentFixed(before_fix.output_channel_count),
                );
            } else {
                lemma_extends_refl(l1);
            }
            lemma_extends_trans(
                log_queue_seq(old(self).log_queue),
                l1,
                log_queue_seq(self.log_queue),
            );
        }
        if sample_count > 0 {
            self.sample_averages = sample_averages;
            let ghost before_peaks = *self;
            let peaks = copy_samples(&self.sample_averages);
            self.emit(ModulMessage::SampleAverages(peaks));
            proof {
                lemma_extends_after_push(
                    message_queue_seq(before_peaks.message_queue),
                    message_queue_cap(before_peaks.message_queue),
                    ModulMessage::SampleAverages(peaks),
                );
                lemma_extends_trans(
                    message_queue_seq(old(self).message_queue),
                    message_queue_seq(before_peaks.message_queue),
                    message_queue_seq(self.message_queue),
                );
                assert(self.sample_averages@ =~= Seq::new(
                    (TAPE_COUNT + 1) as nat,
                    |i: int| peak_upto(*old(self), frames, i, frames.len() as int) as i64,
                ));
                let m0 = message_queue_seq(old(self).message_queue);
                let mcap = message_queue_cap(old(self).message_queue);
                let m2 = after_push(
                    after_push(m0, mcap, ModulMessage::ShowBeat(old(self).metronome.show_beat)),
                    mcap,
                    ModulMessage::BeatIndex(old(self).metronome.beat_index),
                );
                let m3 = after_push(m2, mcap, ModulMessage::AudioIndex(self.audio_index));
                assert(message_queue_seq(before_peaks.message_queue) == m3);
                lemma_extends_after_push(m3, mcap, ModulMessage::SampleAverages(peaks));
                if m3.len() < mcap {
                    assert(message_queue_seq(self.message_queue)[m3.len() as int]
                        == ModulMessage::SampleAverages(peaks));
                }
            }
        }
        let ghost before_actions = *self;
        self.check_user_input();
        proof {
            lemma_extends_trans(
                message_queue_seq(old(self).message_queue),
                message_queue_seq(before_actions.message_queue),
                message_queue_seq(self.message_queue),
            );
            lemma_extends_trans(
                log_queue_seq(old(self).log_queue),
                log_queue_seq(before_actions.log_queue),
                log_queue_seq(self.log_queue),
            );
            if self.output_channel_count == 1 {
                let len = sample_queue_seq(self.output_queue).len() as int;
                vstd::arithmetic::mul::lemma_mul_basics(len);
                vstd::arithmetic::div_mod::lemma_mod_multiples_basic(len, 1);
            }
            let m0 = message_queue_seq(old(self).message_queue);
            let mcap = message_queue_cap(old(self).message_queue);
            let m2 = after_push(
                after_push(m0, mcap, ModulMessage::ShowBeat(old(self).metronome.show_beat)),
                mcap,
                ModulMessage::BeatIndex(old(self).metronome.beat_index),
            );
            let m3 = after_push(m2, mcap, ModulMessage::AudioIndex(self.audio_index));
            assert(message_queue_seq(before_fix.message_queue) == m3);
            if sample_count > 0 {
                assert(extends(m3, message_queue_seq(before_actions.message_queue)));
            } else {
                lemma_extends_refl(m3);
            }
            lemma_extends_trans(
                m3,
                message_queue_seq(before_actions.message_queue),
                message_queue_seq(self.message_queue),
            );
            if sample_count > 0 && m3.len() < mcap {
                let ba = message_queue_seq(before_actions.message_queue);
                let fin = message_queue_seq(self.message_queue);
                assert(fin.subrange(0, ba.len() as int)[m3.len() as int] == fin[m3.len() as int]);
                assert(fin[m3.len() as int] == ba[m3.len() as int]);
            }
        }
    }

    /// Drain and apply every pending action. The queue is consumed to empty
    /// once per engine iteration, before the engine sleeps, so actions are
    /// applied with at most one iteration of latency.
    fn check_user_input(&mut self)
        requires
            old(self).wf(),
        ensures
            final(self).wf(),
            action_queue_seq(final(self).action_queue).len() == 0,
            action_queue_cap(final(self).action_queue) == action_queue_cap(
                old(self).action_queue,
            ),
            final(self).tape_length == old(self).tape_length,
            final(self).output_channel_count == old(self).output_channel_count,
            final(self).click_downbeat == old(self).click_downbeat,
            final(self).click_offbeat == old(self).click_offbeat,
            final(self).input_queue == old(self).input_queue,
            final(self).output_queue == old(self).output_queue,
            final(self).writing_tape == old(self).writing_tape,
            final(self).audio_index == old(self).audio_index,
            final(self).show_beat == old(self).show_beat,
            final(self).beat_index == old(self).beat_index,
            final(self).sample_averages == old(self).sample_averages,
            final(self).metronome.sample_count == old(self).metronome.sample_count,
            final(self).metronome.tick_period == old(self).metronome.tick_period,
            message_queue_cap(final(self).message_queue) == message_queue_cap(
                old(self).message_queue,
            ),
            log_queue_cap(final(self).log_queue) == log_queue_cap(old(self).log_queue),
            extends(
                message_queue_seq(old(self).message_queue),
                message_queue_seq(final(self).message_queue),
            ),
            extends(log_queue_seq(old(self).log_queue), log_queue_seq(final(self).log_queue)),
            action_queue_seq(old(self).action_queue).len() == 0 ==> *final(self) == *old(self),
    {
        proof {
            lemma_extends_refl(message_queue_seq(self.message_queue));
            lemma_extends_refl(log_queue_seq(self.log_queue));
        }
        while self.action_queue.occupied_len() > 0
            invariant
                self.wf(),
                action_queue_cap(self.action_queue) == action_queue_cap(old(self).action_queue),
                self.tape_length == old(self).tape_length,
                self.output_channel_count == old(self).output_channel_count,
                self.click_downbeat == old(self).click_downbeat,
                self.click_offbeat == old(self).click_offbeat,
                self.input_queue == old(self).input_queue,
                self.output_queue == old(self).output_queue,
                self.writing_tape == old(self).writing_tape,
                self.audio_index == old(self).audio_index,
                self.show_beat == old(self).show_beat,
                self.beat_index == old(self).beat_index,
                self.sample_averages == old(self).sample_averages,
                self.metronome.sample_count == old(self).metronome.sample_count,
                self.metronome.tick_period == old(self).metronome.tick_period,
                message_queue_cap(self.message_queue) == message_queue_cap(
                    old(self).message_queue,
                ),
                log_queue_cap(self.log_queue) == log_queue_cap(old(self).log_queue),
                extends(
                    message_queue_seq(old(self).message_queue),
                    message_queue_seq(self.message_queue),
                ),
                extends(log_queue_seq(old(self).log_queue), log_queue_seq(self.log_queue)),
                action_queue_seq(old(self).action_queue).len() == 0 ==> *self == *old(self),
            decreases action_queue_seq(self.action_queue).len(),
        {
            let ghost mid = *self;
            let popped = self.action_queue.try_pop();
            match popped {
                Some(action) => {
                    let ghost mid2 = *self;
                    self.apply_action(action);
                    proof {
                        lemma_action_step_extends(mid2, *self, action);
                        lemma_extends_trans(
                            message_queue_seq(old(self).message_queue),
                            message_queue_seq(mid2.message_queue),
                            message_queue_seq(self.message_queue),
                        );
                        lemma_extends_trans(
                            log_queue_seq(old(self).log_queue),
                            log_queue_seq(mid2.log_queue),
                            log_queue_seq(self.log_queue),
                        );
                    }
                },
                None => {
                    proof {
                        assert(false);
                    }
                },
            }
        }
    }

    /// The disk-export collaborator's port: whether a `Write` action asked
    /// for an export; asking clears the request.
    pub fn take_write_request(&mut self) -> (r: bool)
        ensures
            r == old(self).write_requested,
            *final(self) == (AudioModel { write_requested: false, ..*old(self) }),
    {
        let r = self.write_requested;
        self.write_requested = false;
        r
    }
}

} // verus!
