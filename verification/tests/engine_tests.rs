use modul::audio_model::AudioModel;
use modul::sample::SAMPLE_UNIT;
use modul::utils::{LogEntry, ModulAction, ModulMessage};

fn engine() -> AudioModel {
    // 2 output channels; clicks flat at an audible marker value.
    AudioModel::new(101, 2, 120, 44100, 2, vec![7_000], vec![5_000])
}

fn drain_logs(e: &mut AudioModel) -> Vec<LogEntry> {
    let mut logs = Vec::new();
    while let Some(entry) = e.pop_log() {
        logs.push(entry);
    }
    logs
}

fn drain_messages(e: &mut AudioModel) -> Vec<ModulMessage> {
    let mut messages = Vec::new();
    while let Some(m) = e.pop_message() {
        messages.push(m);
    }
    messages
}

#[test]
fn fresh_engine_is_idle() {
    let mut e = engine();
    assert_eq!(e.tape_length, 101);
    assert!(!e.is_recording);
    assert_eq!(e.audio_index, 0);
    assert_eq!(e.pop_output_or_silence(), 0);
    e.update();
    assert_eq!(e.metronome.sample_count, 0);
}

#[test]
fn recording_round_trip_scatters_into_the_primary_tape() {
    let mut e = engine();
    e.try_send_action(ModulAction::Record).unwrap();
    e.update();
    assert!(e.is_recording);

    assert!(e.push_input(5, SAMPLE_UNIT / 2));
    assert!(e.push_input(9, -(SAMPLE_UNIT / 4)));
    e.update();

    e.try_send_action(ModulAction::Record).unwrap();
    e.update();
    assert!(!e.is_recording);

    let tape = &e.tape_model.tapes[0];
    for (i, &s) in tape.audio.iter().enumerate() {
        match i {
            5 => assert_eq!(s, SAMPLE_UNIT / 2),
            9 => assert_eq!(s, -(SAMPLE_UNIT / 4)),
            _ => assert_eq!(s, 0),
        }
    }
    assert!(e.recording_tape.is_empty());
}

#[test]
fn full_output_queue_drops_and_logs_without_stopping() {
    let mut e = engine();
    // Fill the output queue exactly: its capacity matches the input queue's.
    for i in 0..8192 {
        assert!(e.push_input(i, 0));
    }
    e.update();
    assert!(drain_logs(&mut e).is_empty());

    // One sample too many: the push fails, the engine logs and keeps going.
    assert!(e.push_input(0, 1_000));
    e.update();
    let logs = drain_logs(&mut e);
    assert_eq!(logs, vec![LogEntry::BufferFull(8192)]);
    assert_eq!(e.metronome.sample_count, 8193);
    assert_eq!(e.writing_tape.len(), 8193);
}

#[test]
fn odd_output_length_gets_one_zero_of_padding() {
    let mut e = engine();
    for i in 0..3 {
        assert!(e.push_input(i, 1_000));
    }
    e.update();
    let logs = drain_logs(&mut e);
    assert_eq!(logs, vec![LogEntry::AlignmentFixed(2)]);
    let mut out = Vec::new();
    for _ in 0..4 {
        out.push(e.pop_output_or_silence());
    }
    // Tapes are silent, so only padding: the three mixed samples are zero
    // and one zero of realignment follows.
    assert_eq!(out, vec![0, 0, 0, 0]);
    assert_eq!(e.pop_output_or_silence(), 0);
}

#[test]
fn playthrough_passes_the_live_signal() {
    let mut e = engine();
    e.try_send_action(ModulAction::PlayThrough).unwrap();
    e.update();
    assert!(e.is_play_through);
    assert!(e.push_input(0, 123_456));
    assert!(e.push_input(1, -5));
    e.update();
    assert_eq!(e.pop_output_or_silence(), 123_456);
    assert_eq!(e.pop_output_or_silence(), -5);
}

#[test]
fn tapes_mix_with_volume_scaling() {
    let mut e = engine();
    e.tape_model.tapes[0].audio[4] = 1_000;
    e.tape_model.tapes[1].audio[4] = 500;
    // Halve tape 1's volume: 50 steps down, in bounded batches.
    e.try_send_action(ModulAction::SelectPrimaryTape(1)).unwrap();
    for _ in 0..50 {
        e.try_send_action(ModulAction::VolumeDown).unwrap();
        e.update();
    }
    assert!(e.push_input(4, 0));
    e.update();
    assert_eq!(e.pop_output_or_silence(), 1_000 + 250);
}

#[test]
fn muted_tape_contributes_nothing() {
    let mut e = engine();
    e.tape_model.tapes[0].audio[4] = 1_000;
    e.try_send_action(ModulAction::ToggleMute).unwrap();
    e.update();
    assert!(e.tape_model.tapes[0].is_muted);
    assert!(e.push_input(4, 0));
    e.update();
    assert_eq!(e.pop_output_or_silence(), 0);
}

#[test]
fn solo_silences_every_other_tape() {
    let mut e = engine();
    e.tape_model.tapes[0].audio[4] = 1_000;
    e.tape_model.tapes[2].audio[4] = 30;
    e.try_send_action(ModulAction::SelectPrimaryTape(2)).unwrap();
    e.try_send_action(ModulAction::ToggleSolo).unwrap();
    e.update();
    assert!(e.push_input(4, 0));
    e.update();
    // Only the solo tape sounds.
    assert_eq!(e.pop_output_or_silence(), 30);
}

#[test]
fn metronome_click_reads_the_downbeat_table() {
    let mut e = engine();
    e.try_send_action(ModulAction::StartMetronome).unwrap();
    e.update();
    assert!(e.metronome.is_running);
    assert!(e.push_input(0, 0));
    assert!(e.push_input(1, 0));
    e.update();
    // The click window opens one sample after the tick boundary; beat zero
    // is a downbeat.
    assert_eq!(e.pop_output_or_silence(), 0);
    assert_eq!(e.pop_output_or_silence(), 7_000);
}

#[test]
fn merge_with_empty_secondary_set_changes_nothing() {
    let mut e = engine();
    e.tape_model.tapes[0].audio[7] = 42;
    let before = e.tape_model.tapes[0].audio.clone();
    e.try_send_action(ModulAction::MergeTapes).unwrap();
    e.update();
    assert_eq!(e.tape_model.tapes[0].audio, before);
    let logs = drain_logs(&mut e);
    assert_eq!(
        logs,
        vec![LogEntry::Merging { primary: 0, secondary: vec![false; 8] }]
    );
}

#[test]
fn merge_sums_secondary_tapes_into_the_primary() {
    let mut e = engine();
    e.tape_model.tapes[0].audio[3] = 10;
    e.tape_model.tapes[2].audio[3] = 32;
    e.tape_model.tapes[5].audio[3] = 100;
    e.try_send_action(ModulAction::SelectSecondaryTape(2)).unwrap();
    e.try_send_action(ModulAction::SelectSecondaryTape(5)).unwrap();
    e.try_send_action(ModulAction::MergeTapes).unwrap();
    e.update();
    assert_eq!(e.tape_model.tapes[0].audio[3], 142);
    // The sources keep their contents.
    assert_eq!(e.tape_model.tapes[2].audio[3], 32);
    assert_eq!(e.tape_model.tapes[5].audio[3], 100);
}

#[test]
fn clear_silences_only_the_primary_tape() {
    let mut e = engine();
    e.tape_model.tapes[0].audio[3] = 10;
    e.tape_model.tapes[1].audio[3] = 20;
    e.try_send_action(ModulAction::Clear).unwrap();
    e.update();
    assert_eq!(e.tape_model.tapes[0].audio[3], 0);
    assert_eq!(e.tape_model.tapes[1].audio[3], 20);
    let logs = drain_logs(&mut e);
    assert_eq!(logs, vec![LogEntry::ClearedTape(1)]);
}

#[test]
fn clear_all_silences_every_tape() {
    let mut e = engine();
    for t in 0..8 {
        e.tape_model.tapes[t].audio[1] = (t as i64) + 1;
    }
    e.try_send_action(ModulAction::ClearAll).unwrap();
    e.update();
    for t in 0..8 {
        assert!(e.tape_model.tapes[t].audio.iter().all(|&s| s == 0));
    }
    let logs = drain_logs(&mut e);
    assert_eq!(logs, vec![LogEntry::ClearedAll]);
}

#[test]
fn every_action_leaves_the_engine_usable() {
    let mut e = engine();
    let actions = vec![
        ModulAction::SelectPrimaryTape(3),
        ModulAction::SelectPrimaryTape(usize::MAX),
        ModulAction::SelectSecondaryTape(1),
        ModulAction::SelectSecondaryTape(usize::MAX),
        ModulAction::MergeTapes,
        ModulAction::Record,
        ModulAction::Record,
        ModulAction::Playback,
        ModulAction::PlayThrough,
        ModulAction::Write,
        ModulAction::Clear,
        ModulAction::ClearAll,
        ModulAction::ToggleMute,
        ModulAction::ToggleSolo,
        ModulAction::VolumeUp,
        ModulAction::VolumeDown,
        ModulAction::StartMetronome,
        ModulAction::StopMetronome,
    ];
    for a in actions {
        e.apply_action(a);
        assert!(e.primary_tape < 8);
        assert_eq!(e.tape_model.tapes.len(), 8);
        for t in &e.tape_model.tapes {
            assert_eq!(t.audio.len(), 101);
        }
    }
    // Out-of-range payloads were clamped to the last slot.
    assert_eq!(e.primary_tape, 7);
    // And the engine still runs.
    assert!(e.push_input(0, 1));
    e.update();
    assert!(e.write_requested);
    assert!(e.take_write_request());
    assert!(!e.write_requested);
}

#[test]
fn playhead_and_peaks_are_reported() {
    let mut e = engine();
    e.tape_model.tapes[0].audio[2] = 900;
    assert!(e.push_input(1, 0));
    assert!(e.push_input(2, 0));
    e.update();
    assert_eq!(e.audio_index, 2);
    assert_eq!(e.sample_averages[0], 900);
    let messages = drain_messages(&mut e);
    assert!(messages.contains(&ModulMessage::AudioIndex(2)));
    assert!(messages.contains(&ModulMessage::ShowBeat(false)));
    assert!(messages.contains(&ModulMessage::BeatIndex(0)));
    let peaks: Vec<_> = messages
        .iter()
        .filter(|m| matches!(m, ModulMessage::SampleAverages(_)))
        .collect();
    assert_eq!(peaks.len(), 1);
    match peaks[0] {
        ModulMessage::SampleAverages(v) => {
            assert_eq!(v[0], 900);
            assert_eq!(v[8], 0);
        }
        _ => unreachable!(),
    }
}

#[test]
fn playthrough_tracks_the_live_peak_slot() {
    let mut e = engine();
    e.try_send_action(ModulAction::PlayThrough).unwrap();
    e.update();
    assert!(e.push_input(0, 300));
    assert!(e.push_input(1, 900));
    assert!(e.push_input(2, 500));
    e.update();
    assert_eq!(e.sample_averages[8], 900);
    let mut without = engine();
    assert!(without.push_input(0, 900));
    without.update();
    assert_eq!(without.sample_averages[8], 0);
}

#[test]
fn offbeat_click_uses_the_second_table() {
    let mut e = engine();
    e.try_send_action(ModulAction::StartMetronome).unwrap();
    e.update();
    // Walk the metronome just past the first tick boundary: beat one is an
    // off-beat. Drain the output as a hardware sink would, so nothing drops.
    let mut fed: usize = 0;
    let mut index: usize = 0;
    while fed < 44100 {
        for _ in 0..4410 {
            assert!(e.push_input(index, 0));
            index = (index + 1) % 101;
        }
        fed += 4410;
        e.update();
        for _ in 0..8192 {
            e.pop_output_or_silence();
        }
    }
    assert_eq!(e.metronome.sample_count, 44100);
    assert_eq!(e.beat_index, 0);
    assert!(e.push_input(index, 0));
    assert!(e.push_input(index + 1, 0));
    e.update();
    assert_eq!(e.beat_index, 1);
    // The tick boundary itself is silent; the next sample clicks at the
    // off-beat pitch.
    assert_eq!(e.pop_output_or_silence(), 0);
    assert_eq!(e.pop_output_or_silence(), 5_000);
}

#[test]
fn selecting_a_secondary_tape_twice_deselects_it() {
    let mut e = engine();
    e.try_send_action(ModulAction::SelectSecondaryTape(3)).unwrap();
    e.update();
    assert!(e.secondary_tapes[3]);
    e.try_send_action(ModulAction::SelectSecondaryTape(3)).unwrap();
    e.update();
    assert!(!e.secondary_tapes[3]);
}

#[test]
fn record_updates_the_waveform_summary() {
    let mut e = engine();
    e.try_send_action(ModulAction::Record).unwrap();
    e.update();
    assert!(e.push_input(5, 500_000));
    assert!(e.push_input(9, -250_000));
    e.update();
    e.try_send_action(ModulAction::Record).unwrap();
    e.update();
    // 101 samples make one-sample chunks past the first (two-sample) chunk:
    // position 5 lands in chunk 4, position 9 in chunk 8.
    assert_eq!(e.samples_for_graphs[0][4], 500_000);
    assert_eq!(e.samples_for_graphs[0][8], 250_000);
    assert_eq!(e.samples_for_graphs[0][0], 0);
    let messages = drain_messages(&mut e);
    let graphs: Vec<_> = messages
        .iter()
        .filter(|m| matches!(m, ModulMessage::SamplesForGraphs(_)))
        .collect();
    assert_eq!(graphs.len(), 1);
    match graphs[0] {
        ModulMessage::SamplesForGraphs(g) => assert_eq!(g[0][4], 500_000),
        _ => unreachable!(),
    }
}

#[test]
fn action_queue_is_bounded_and_fifo() {
    let mut e = engine();
    for _ in 0..16 {
        assert!(e.try_send_action(ModulAction::VolumeUp).is_ok());
    }
    let refused = e.try_send_action(ModulAction::VolumeDown);
    assert_eq!(refused, Err(ModulAction::VolumeDown));
    e.update();
    // All sixteen steps up applied; the volume was already at the ceiling.
    assert_eq!(e.tape_model.tapes[0].get_volume(), 100);
    // And the queue is empty again.
    assert!(e.try_send_action(ModulAction::VolumeDown).is_ok());
    e.update();
    assert_eq!(e.tape_model.tapes[0].get_volume(), 99);
}
