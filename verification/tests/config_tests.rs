use modul::config::{parse_number, tape_length_for, Config};
use modul::envelope::EnvStage;
use modul::utils::{frames_for_buffer, Input};
use modul::view_time::ViewTime;
use modul::wave::{downsample, scatter};
use modul::windows::Windows;

#[test]
fn numerals_parse_and_junk_does_not() {
    assert_eq!(parse_number("0", u16::MAX as u64), Some(0));
    assert_eq!(parse_number("120", u16::MAX as u64), Some(120));
    assert_eq!(parse_number("65535", u16::MAX as u64), Some(65535));
    assert_eq!(parse_number("65536", u16::MAX as u64), None);
    assert_eq!(parse_number("", u16::MAX as u64), None);
    assert_eq!(parse_number("12a", u16::MAX as u64), None);
    assert_eq!(parse_number("-3", u16::MAX as u64), None);
    assert_eq!(parse_number(" 3", u16::MAX as u64), None);
}

#[test]
fn two_numeric_arguments_configure_tempo_and_bars() {
    let c = Config::new(vec!["looper".to_string(), "90".to_string(), "2".to_string()]);
    assert_eq!(c.bpm, 90);
    assert_eq!(c.bar_count, 2);
}

#[test]
fn anything_else_falls_back_to_defaults() {
    let none = Config::new(vec!["looper".to_string()]);
    assert_eq!((none.bpm, none.bar_count), (120, 4));
    let extra = Config::new(vec![
        "looper".to_string(),
        "90".to_string(),
        "2".to_string(),
        "x".to_string(),
    ]);
    assert_eq!((extra.bpm, extra.bar_count), (120, 4));
    let junk = Config::new(vec!["looper".to_string(), "abc".to_string(), "2".to_string()]);
    assert_eq!((junk.bpm, junk.bar_count), (120, 4));
    let too_big = Config::new(vec![
        "looper".to_string(),
        "70000".to_string(),
        "2".to_string(),
    ]);
    assert_eq!((too_big.bpm, too_big.bar_count), (120, 4));
}

#[test]
fn tape_length_is_channel_aligned() {
    // 44100 Hz, stereo, 120 bpm, 4 bars: 44100 * 2 * 240 * 4 / 120 samples.
    assert_eq!(tape_length_for(44100, 2, 120, 4), 705_600);
    // An odd raw length is rounded down to a frame boundary.
    assert_eq!(tape_length_for(3, 2, 480, 1), 2);
}

#[test]
fn buffer_frames_wrap_at_tape_length() {
    let (frames, next) = frames_for_buffer(100, &vec![10, 20, 30], 101);
    assert_eq!(
        frames,
        vec![
            Input { index: 100, sample: 10 },
            Input { index: 0, sample: 20 },
            Input { index: 1, sample: 30 },
        ]
    );
    assert_eq!(next, 2);
}

#[test]
fn scatter_writes_sparse_pairs_densely() {
    let entries = vec![Input { index: 5, sample: 7 }, Input { index: 5, sample: 9 }];
    let dense = scatter(&entries, 8);
    assert_eq!(dense, vec![0, 0, 0, 0, 0, 9, 0, 0]);
}

#[test]
fn downsample_sums_absolute_chunks() {
    // 101 samples: the first summary chunk holds two samples, the rest one.
    let mut audio = vec![0i64; 101];
    audio[0] = 3;
    audio[1] = -4;
    audio[2] = 5;
    audio[100] = 9;
    let graph = downsample(&audio);
    assert_eq!(graph.len(), 100);
    assert_eq!(graph[0], 7);
    assert_eq!(graph[1], 5);
    assert_eq!(graph[99], 9);
    // 100 samples degenerate to one sample per chunk.
    let mut short = vec![0i64; 100];
    short[41] = -6;
    let flat = downsample(&short);
    assert_eq!(flat[41], 6);
    assert_eq!(flat[0], 0);
}

#[test]
fn startup_layout_shows_only_the_tapes_panel() {
    let w = Windows::new();
    assert!(w.show_tapes);
    assert!(!w.show_metronome);
    assert!(!w.show_stats);
}

#[test]
fn view_timer_deltas_never_go_backwards() {
    let mut t = ViewTime::new();
    let a = t.get_delta_micros();
    let b = t.get_delta_micros();
    assert!(a <= u64::MAX && b <= u64::MAX);
    let stage = EnvStage::Attack;
    assert!(matches!(stage, EnvStage::Attack));
    assert!(EnvStage::Off != EnvStage::Release);
}
