use modul::modul::Modul;
use modul::utils::{LogEntry, ModulAction, ModulMessage};

#[test]
fn snapshot_folds_state_deltas() {
    let mut m = Modul::new(101);
    let messages = vec![
        ModulMessage::AudioIndex(42),
        ModulMessage::Recording(true),
        ModulMessage::RecordingPlayback(true),
        ModulMessage::PlayThrough(true),
        ModulMessage::ShowBeat(true),
        ModulMessage::BeatIndex(9),
        ModulMessage::SampleAverages(vec![1, 2, 3, 4, 5, 6, 7, 8, 9]),
    ];
    m.update(&messages, Vec::new());
    assert_eq!(m.get_audio_index(), 42);
    assert!(m.is_recording());
    assert!(m.is_recording_playback());
    assert!(m.is_play_through());
    assert!(m.show_beat);
    assert_eq!(m.get_beat_index(), 9);
    assert_eq!(m.get_sample_averages(), vec![1, 2, 3, 4, 5, 6, 7, 8, 9]);
}

#[test]
fn later_deltas_win_per_field() {
    let mut m = Modul::new(101);
    let messages = vec![
        ModulMessage::AudioIndex(1),
        ModulMessage::AudioIndex(2),
        ModulMessage::Recording(true),
        ModulMessage::Recording(false),
    ];
    m.update(&messages, Vec::new());
    assert_eq!(m.get_audio_index(), 2);
    assert!(!m.is_recording());
}

#[test]
fn history_keeps_only_the_most_recent_ten() {
    let mut m = Modul::new(101);
    let mut logs = Vec::new();
    for i in 0..12 {
        logs.push(LogEntry::ClearedTape(i));
    }
    m.update(&Vec::new(), logs);
    assert_eq!(m.message_history.len(), 10);
    assert_eq!(m.message_history[0], LogEntry::ClearedTape(2));
    assert_eq!(m.message_history[9], LogEntry::ClearedTape(11));
}

#[test]
fn command_surface_enqueues_one_action_each() {
    let mut m = Modul::new(101);
    assert!(m.record());
    assert!(m.clear());
    assert!(m.clear_all());
    assert!(m.toggle_mute());
    assert!(m.toggle_solo());
    assert!(m.volume_up());
    assert!(m.volume_down());
    assert!(m.merge_tapes());
    assert!(m.record_playback());
    assert!(m.play_through());
    assert!(m.write());
    assert!(m.select_primary_tape(3));
    assert!(m.select_secondary_tape(4));
    assert!(m.switch_metronome(true));
    assert!(m.switch_metronome(false));
    let expected = vec![
        ModulAction::Record,
        ModulAction::Clear,
        ModulAction::ClearAll,
        ModulAction::ToggleMute,
        ModulAction::ToggleSolo,
        ModulAction::VolumeUp,
        ModulAction::VolumeDown,
        ModulAction::MergeTapes,
        ModulAction::Playback,
        ModulAction::PlayThrough,
        ModulAction::Write,
        ModulAction::SelectPrimaryTape(3),
        ModulAction::SelectSecondaryTape(4),
        ModulAction::StartMetronome,
        ModulAction::StopMetronome,
    ];
    for want in expected {
        assert_eq!(m.pop_action(), Some(want));
    }
    assert_eq!(m.pop_action(), None);
}

#[test]
fn full_action_queue_refuses_without_blocking() {
    let mut m = Modul::new(101);
    for _ in 0..16 {
        assert!(m.record());
    }
    assert!(!m.record());
    assert_eq!(m.pop_action(), Some(ModulAction::Record));
    // A slot came free again.
    assert!(m.record());
}
