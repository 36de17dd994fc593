//! The controller-side mirror of the engine: a command surface that enqueues
//! one action per user intent, and a read-only snapshot folded from the
//! engine's stream of state deltas.
//!
//! The snapshot can be transiently stale — delivery is best-effort — but it
//! is always internally self-consistent per field, because deltas for one
//! field are folded in the order the engine produced them.

use crate::queues::{action_queue_cap, action_queue_seq, ActionQueue};
use crate::utils::{copy_graphs, copy_samples, LogEntry, ModulAction, ModulMessage};
use vstd::prelude::*;

verus! {

/// How many log entries the controller keeps: a ring of the most recent
/// notices, oldest evicted first.
pub const MESSAGE_HISTORY_LEN: usize = 10;

/// Capacity of the controller's outbound action queue.
pub const ACTION_QUEUE_CAPACITY: usize = 16;

/// The controller's state: a snapshot of the engine folded from state
/// deltas, a capped log history, and the outbound action queue whose
/// consumer side the engine loop drains.
pub struct Modul {
    pub tape_length: usize,
    pub audio_index: usize,
    pub is_recording: bool,
    pub is_recording_playback: bool,
    pub is_play_through: bool,
    pub sample_averages: Vec<i64>,
    pub samples_for_graphs: Vec<Vec<i64>>,
    pub show_beat: bool,
    pub beat_index: u64,
    pub message_history: Vec<LogEntry>,
    pub action_queue: ActionQueue,
}

/// The outcome of enqueueing one action: appended and acknowledged when a
/// slot was free, else dropped and refused; nothing else moves.
pub open spec fn sent_action(pre: Modul, post: Modul, action: ModulAction, r: bool) -> bool {
    &&& post == (Modul { action_queue: post.action_queue, ..pre })
    &&& r == (action_queue_seq(pre.action_queue).len() < action_queue_cap(pre.action_queue))
    &&& action_queue_cap(post.action_queue) == action_queue_cap(pre.action_queue)
    &&& (if r {
        action_queue_seq(post.action_queue) == action_queue_seq(pre.action_queue).push(action)
    } else {
        action_queue_seq(post.action_queue) == action_queue_seq(pre.action_queue)
    })
}

/// How one state delta folds into the snapshot: each variant replaces
/// exactly the field it carries.
pub open spec fn folded(pre: Modul, post: Modul, m: ModulMessage) -> bool {
    match m {
        ModulMessage::AudioIndex(i) => post == (Modul { audio_index: i, ..pre }),
        ModulMessage::Recording(b) => post == (Modul { is_recording: b, ..pre }),
        ModulMessage::RecordingPlayback(b) => post == (Modul { is_recording_playback: b, ..pre }),
        ModulMessage::PlayThrough(b) => post == (Modul { is_play_through: b, ..pre }),
        ModulMessage::ShowBeat(b) => post == (Modul { show_beat: b, ..pre }),
        ModulMessage::BeatIndex(i) => post == (Modul { beat_index: i, ..pre }),
        ModulMessage::SampleAverages(v) => {
            &&& post == (Modul { sample_averages: post.sample_averages, ..pre })
            &&& post.sample_averages@ == v@
        },
        ModulMessage::SamplesForGraphs(g) => {
            &&& post == (Modul { samples_for_graphs: post.samples_for_graphs, ..pre })
            &&& post.samples_for_graphs@.len() == g@.len()
            &&& forall|i: int|
                0 <= i < g@.len() ==> (#[trigger] post.samples_for_graphs@[i])@ == g@[i]@
        },
    }
}

/// How one notice folds into the capped history: appended, with the oldest
/// entry evicted once the ring is full.
pub open spec fn noted(pre: Modul, post: Modul, entry: LogEntry) -> bool {
    &&& post == (Modul { message_history: post.message_history, ..pre })
    &&& post.message_history@ == (if pre.message_history@.len() < MESSAGE_HISTORY_LEN {
        pre.message_history@.push(entry)
    } else {
        pre.message_history@.drop_first().push(entry)
    })
}

/// The snapshot reached by folding a whole stream of deltas, in order.
pub open spec fn folds_to(pre: Modul, msgs: Seq<ModulMessage>, post: Modul) -> bool
    decreases msgs.len(),
{
    if msgs.len() == 0 {
        post == pre
    } else {
        exists|mid: Modul| folds_to(pre, msgs.drop_last(), mid) && folded(mid, post, msgs.last())
    }
}

/// The history reached by folding a whole stream of notices, in order.
pub open spec fn notes_to(pre: Modul, entries: Seq<LogEntry>, post: Modul) -> bool
    decreases entries.len(),
{
    if entries.len() == 0 {
        post == pre
    } else {
        exists|mid: Modul|
            notes_to(pre, entries.drop_last(), mid) && noted(mid, post, entries.last())
    }
}

impl Modul {
    pub open spec fn wf(self) -> bool {
        &&& self.message_history@.len() <= MESSAGE_HISTORY_LEN
        &&& action_queue_cap(self.action_queue) == ACTION_QUEUE_CAPACITY
    }

    /// A fresh controller: everything zeroed and cleared, no pending actions.
    pub fn new(tape_length: usize) -> (m: Modul)
        ensures
            m.wf(),
            m.tape_length == tape_length,
            m.audio_index == 0,
            !m.is_recording && !m.is_recording_playback && !m.is_play_through,
            !m.show_beat,
            m.beat_index == 0,
            m.sample_averages@ == Seq::<i64>::empty(),
            m.samples_for_graphs@ == Seq::<Vec<i64>>::empty(),
            m.message_history@ == Seq::<LogEntry>::empty(),
            action_queue_seq(m.action_queue) == Seq::<ModulAction>::empty(),
    {
        Modul {
            tape_length,
            audio_index: 0,
            is_recording: false,
            is_recording_playback: false,
            is_play_through: false,
            sample_averages: Vec::new(),
            samples_for_graphs: Vec::new(),
            show_beat: false,
            beat_index: 0,
            message_history: Vec::new(),
            action_queue: ActionQueue::new(ACTION_QUEUE_CAPACITY),
        }
    }

    /// Fold one state delta into the snapshot.
    pub fn apply_message(&mut self, message: &ModulMessage)
        requires
            old(self).wf(),
        ensures
            final(self).wf(),
            folded(*old(self), *final(self), *message),
    {
        match message {
            ModulMessage::AudioIndex(audio_index) => {
                self.audio_index = *audio_index;
            },
            ModulMessage::Recording(is_recording) => {
                self.is_recording = *is_recording;
            },
            ModulMessage::RecordingPlayback(is_recording_playback) => {
                self.is_recording_playback = *is_recording_playback;
            },
            ModulMessage::PlayThrough(is_play_through) => {
                self.is_play_through = *is_play_through;
            },
            ModulMessage::ShowBeat(show_beat) => {
                self.show_beat = *show_beat;
            },
            ModulMessage::BeatIndex(beat_index) => {
                self.beat_index = *beat_index;
            },
            ModulMessage::SampleAverages(sample_averages) => {
                self.sample_averages = copy_samples(sample_averages);
            },
            ModulMessage::SamplesForGraphs(samples_for_graphs) => {
                self.samples_for_graphs = copy_graphs(samples_for_graphs);
            },
        }
    }

    /// Append one notice to the history, evicting the oldest entry once the
    /// ring holds `MESSAGE_HISTORY_LEN`.
    pub fn add_message(&mut self, message: LogEntry)
        requires
            old(self).wf(),
        ensures
            final(self).wf(),
            noted(*old(self), *final(self), message),
    {
        if self.message_history.len() == MESSAGE_HISTORY_LEN {
            self.message_history.remove(0);
            proof {
                assert(self.message_history@ =~= old(self).message_history@.drop_first());
            }
        }
        self.message_history.push(message);
    }

    /// Fold a batch of state deltas and notices, each in order: the
    /// controller's periodic poll.
    pub fn update(&mut self, messages: &Vec<ModulMessage>, logs: Vec<LogEntry>)
        requires
            old(self).wf(),
        ensures
            final(self).wf(),
            exists|mid: Modul|
                #[trigger] folds_to(*old(self), messages@, mid) && notes_to(
                    mid,
                    logs@,
                    *final(self),
                ),
    {
        let ghost start = *self;
        let mut i: usize = 0;
        while i < messages.len()
            invariant
                self.wf(),
                i <= messages@.len(),
                folds_to(start, messages@.take(i as int), *self),
            decreases messages@.len() - i,
        {
            let ghost mid = *self;
            self.apply_message(&messages[i]);
            proof {
                let t = messages@.take(i as int + 1);
                assert(t.drop_last() =~= messages@.take(i as int));
                assert(t.last() == messages@[i as int]);
            }
            i = i + 1;
        }
        proof {
            assert(messages@.take(messages@.len() as int) =~= messages@);
        }
        let ghost middle = *self;
        let ghost all_logs = logs@;
        let mut logs = logs;
        let ghost mut j: int = 0;
        while logs.len() > 0
            invariant
                self.wf(),
                0 <= j <= all_logs.len(),
                logs@ == all_logs.skip(j),
                notes_to(middle, all_logs.take(j), *self),
            decreases logs@.len(),
        {
            let entry = logs.remove(0);
            proof {
                assert(entry == all_logs[j]);
                assert(all_logs.skip(j).remove(0) =~= all_logs.skip(j + 1));
            }
            self.add_message(entry);
            proof {
                let t = all_logs.take(j + 1);
                assert(t.drop_last() =~= all_logs.take(j));
                assert(t.last() == all_logs[j]);
                j = j + 1;
            }
        }
        proof {
            assert(j == all_logs.len());
            assert(all_logs.take(all_logs.len() as int) =~= all_logs);
            assert(folds_to(start, messages@, middle));
        }
    }

    /// Enqueue one action for the engine; fails without blocking when the
    /// queue is full, and the caller decides whether to drop or retry.
    pub fn send_action(&mut self, action: ModulAction) -> (r: bool)
        requires
            old(self).wf(),
        ensures
            final(self).wf(),
            *final(self) == (Modul { action_queue: final(self).action_queue, ..*old(self) }),
            r == (action_queue_seq(old(self).action_queue).len() < action_queue_cap(
                old(self).action_queue,
            )),
            r ==> action_queue_seq(final(self).action_queue) == action_queue_seq(
                old(self).action_queue,
            ).push(action),
            !r ==> action_queue_seq(final(self).action_queue) == action_queue_seq(
                old(self).action_queue,
            ),
    {
        let sent = self.action_queue.try_push(action);
        sent.is_ok()
    }

    /// Ask the engine to make this the primary tape.
    pub fn select_primary_tape(&mut self, primary_tape: usize) -> (r: bool)
        requires
            old(self).wf(),
        ensures
            final(self).wf(),
            sent_action(
                *old(self),
                *final(self),
                ModulAction::SelectPrimaryTape(primary_tape),
                r,
            ),
    {
        self.send_action(ModulAction::SelectPrimaryTape(primary_tape))
    }

    /// Ask the engine to toggle this tape's membership in the secondary set.
    pub fn select_secondary_tape(&mut self, secondary_tape: usize) -> (r: bool)
        requires
            old(self).wf(),
        ensures
            final(self).wf(),
            sent_action(
                *old(self),
                *final(self),
                ModulAction::SelectSecondaryTape(secondary_tape),
                r,
            ),
    {
        self.send_action(ModulAction::SelectSecondaryTape(secondary_tape))
    }

    /// Ask the engine to merge the secondary tapes into the primary.
    pub fn merge_tapes(&mut self) -> (r: bool)
        requires
            old(self).wf(),
        ensures
            final(self).wf(),
            sent_action(*old(self), *final(self), ModulAction::MergeTapes, r),
    {
        self.send_action(ModulAction::MergeTapes)
    }

    /// Ask the engine to toggle recording.
    pub fn record(&mut self) -> (r: bool)
        requires
            old(self).wf(),
        ensures
            final(self).wf(),
            sent_action(*old(self), *final(self), ModulAction::Record, r),
    {
        self.send_action(ModulAction::Record)
    }

    /// Ask the engine to toggle recording-playback.
    pub fn record_playback(&mut self) -> (r: bool)
        requires
            old(self).wf(),
        ensures
            final(self).wf(),
            sent_action(*old(self), *final(self), ModulAction::Playback, r),
    {
        self.send_action(ModulAction::Playback)
    }

    /// Ask the engine to toggle play-through.
    pub fn play_through(&mut self) -> (r: bool)
        requires
            old(self).wf(),
        ensures
            final(self).wf(),
            sent_action(*old(self), *final(self), ModulAction::PlayThrough, r),
    {
        self.send_action(ModulAction::PlayThrough)
    }

    /// Ask the engine to hand the export accumulator to the disk writer.
    pub fn write(&mut self) -> (r: bool)
        requires
            old(self).wf(),
        ensures
            final(self).wf(),
            sent_action(*old(self), *final(self), ModulAction::Write, r),
    {
        self.send_action(ModulAction::Write)
    }

    /// Ask the engine to clear the primary tape.
    pub fn clear(&mut self) -> (r: bool)
        requires
            old(self).wf(),
        ensures
            final(self).wf(),
            sent_action(*old(self), *final(self), ModulAction::Clear, r),
    {
        self.send_action(ModulAction::Clear)
    }

    /// Ask the engine to clear every tape.
    pub fn clear_all(&mut self) -> (r: bool)
        requires
            old(self).wf(),
        ensures
            final(self).wf(),
            sent_action(*old(self), *final(self), ModulAction::ClearAll, r),
    {
        self.send_action(ModulAction::ClearAll)
    }

    /// Ask the engine to toggle mute on the primary and secondary tapes.
    pub fn toggle_mute(&mut self) -> (r: bool)
        requires
            old(self).wf(),
        ensures
            final(self).wf(),
            sent_action(*old(self), *final(self), ModulAction::ToggleMute, r),
    {
        self.send_action(ModulAction::ToggleMute)
    }

    /// Ask the engine to toggle solo on the primary and secondary tapes.
    pub fn toggle_solo(&mut self) -> (r: bool)
        requires
            old(self).wf(),
        ensures
            final(self).wf(),
            sent_action(*old(self), *final(self), ModulAction::ToggleSolo, r),
    {
        self.send_action(ModulAction::ToggleSolo)
    }

    /// Ask the engine to step the group's volume up.
    pub fn volume_up(&mut self) -> (r: bool)
        requires
            old(self).wf(),
        ensures
            final(self).wf(),
            sent_action(*old(self), *final(self), ModulAction::VolumeUp, r),
    {
        self.send_action(ModulAction::VolumeUp)
    }

    /// Ask the engine to step the group's volume down.
    pub fn volume_down(&mut self) -> (r: bool)
        requires
            old(self).wf(),
        ensures
            final(self).wf(),
            sent_action(*old(self), *final(self), ModulAction::VolumeDown, r),
    {
        self.send_action(ModulAction::VolumeDown)
    }

    /// Ask the engine to start or stop the metronome.
    pub fn switch_metronome(&mut self, is_active: bool) -> (r: bool)
        requires
            old(self).wf(),
        ensures
            final(self).wf(),
            is_active ==> sent_action(*old(self), *final(self), ModulAction::StartMetronome, r),
            !is_active ==> sent_action(*old(self), *final(self), ModulAction::StopMetronome, r),
    {
        if is_active {
            self.send_action(ModulAction::StartMetronome)
        } else {
            self.send_action(ModulAction::StopMetronome)
        }
    }

    pub fn get_audio_index(&self) -> (r: usize)
        ensures
            r == self.audio_index,
    {
        self.audio_index
    }

    pub fn is_recording(&self) -> (r: bool)
        ensures
            r == self.is_recording,
    {
        self.is_recording
    }

    pub fn is_recording_playback(&self) -> (r: bool)
        ensures
            r == self.is_recording_playback,
    {
        self.is_recording_playback
    }

    pub fn is_play_through(&self) -> (r: bool)
        ensures
            r == self.is_play_through,
    {
        self.is_play_through
    }

    pub fn get_beat_index(&self) -> (r: u64)
        ensures
            r == self.beat_index,
    {
        self.beat_index
    }

    /// The most recent per-tape peak array, with the live input's peak in
    /// the extra slot at the end.
    pub fn get_sample_averages(&self) -> (r: Vec<i64>)
        ensures
            r@ == self.sample_averages@,
    {
        copy_samples(&self.sample_averages)
    }

    /// The transport's side: take the next queued action, oldest first.
    pub fn pop_action(&mut self) -> (r: Option<ModulAction>)
        requires
            old(self).wf(),
        ensures
            final(self).wf(),
            *final(self) == (Modul { action_queue: final(self).action_queue, ..*old(self) }),
            action_queue_seq(old(self).action_queue).len() == 0 ==> r is None
                && action_queue_seq(final(self).action_queue) == action_queue_seq(
                old(self).action_queue,
            ),
            action_queue_seq(old(self).action_queue).len() > 0 ==> r == Some(
                action_queue_seq(old(self).action_queue)[0],
            ) && action_queue_seq(final(self).action_queue) == action_queue_seq(
                old(self).action_queue,
            ).drop_first(),
    {
        self.action_queue.try_pop()
    }
}

} // verus!
