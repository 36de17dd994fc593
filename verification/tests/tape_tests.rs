use modul::sample::{apply_gain, sat_abs, sat_add, to_pcm16, SAMPLE_UNIT, VOLUME_MAX};
use modul::tape::Tape;

#[test]
fn fresh_tape_is_silent_at_full_volume() {
    let t = Tape::new(0, 32);
    assert_eq!(t.audio.len(), 32);
    assert!(t.audio.iter().all(|&s| s == 0));
    assert_eq!(t.get_volume(), VOLUME_MAX);
    assert!(!t.is_muted);
    assert!(!t.is_solo);
}

#[test]
fn muted_tape_has_zero_gain_regardless_of_volume() {
    let mut t = Tape::new(0, 4);
    assert_eq!(t.get_volume(), 100);
    t.toggle_mute();
    assert_eq!(t.get_volume(), 0);
    t.volume_down();
    assert_eq!(t.get_volume(), 0);
    t.toggle_mute();
    assert_eq!(t.get_volume(), 99);
}

#[test]
fn volume_clamps_at_both_ends() {
    let mut t = Tape::new(0, 4);
    for _ in 0..150 {
        t.volume_up();
    }
    assert_eq!(t.get_volume(), 100);
    for _ in 0..250 {
        t.volume_down();
    }
    assert_eq!(t.get_volume(), 0);
    t.volume_up();
    assert_eq!(t.get_volume(), 1);
}

#[test]
fn toggle_solo_flips() {
    let mut t = Tape::new(0, 4);
    t.toggle_solo();
    assert!(t.is_solo());
    t.toggle_solo();
    assert!(!t.is_solo());
}

#[test]
fn clear_overwrites_every_sample() {
    let mut t = Tape::new(3, 5);
    t.clear(0);
    assert_eq!(t.audio, vec![0, 0, 0, 0, 0]);
    assert_eq!(t.audio.len(), 5);
}

#[test]
fn add_sums_element_wise_and_saturates() {
    let mut t = Tape::new(1, 3);
    t.add(&vec![10, i64::MAX, -5]);
    assert_eq!(t.audio[0], 11);
    assert_eq!(t.audio[1], i64::MAX);
    assert_eq!(t.audio[2], -4);
}

#[test]
fn sat_add_clips_at_the_ends() {
    assert_eq!(sat_add(1, 2), 3);
    assert_eq!(sat_add(i64::MAX, 1), i64::MAX);
    assert_eq!(sat_add(i64::MIN, -1), i64::MIN);
    assert_eq!(sat_add(i64::MAX, i64::MIN), -1);
}

#[test]
fn sat_abs_handles_the_minimum() {
    assert_eq!(sat_abs(-7), 7);
    assert_eq!(sat_abs(7), 7);
    assert_eq!(sat_abs(i64::MIN), i64::MAX);
}

#[test]
fn apply_gain_scales_by_hundredths() {
    assert_eq!(apply_gain(1000, 100), 1000);
    assert_eq!(apply_gain(1000, 50), 500);
    assert_eq!(apply_gain(1000, 0), 0);
    assert_eq!(apply_gain(-999, 50), -499);
    assert_eq!(apply_gain(i64::MIN, 100), i64::MIN);
}

#[test]
fn pcm16_rescales_and_clamps() {
    assert_eq!(to_pcm16(0), 0);
    assert_eq!(to_pcm16(SAMPLE_UNIT), i16::MAX);
    assert_eq!(to_pcm16(-SAMPLE_UNIT), -32767);
    assert_eq!(to_pcm16(SAMPLE_UNIT / 2), 16383);
    assert_eq!(to_pcm16(i64::MAX), i16::MAX);
    assert_eq!(to_pcm16(i64::MIN), i16::MIN);
}
