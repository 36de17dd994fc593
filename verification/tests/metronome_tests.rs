use modul::beat_controller::BeatController;
use modul::metronome::Metronome;

#[test]
fn tick_period_from_tempo() {
    let m = Metronome::new(120, 44100, 2);
    assert_eq!(m.tick_period, 44100 * 2 * 60 / 120);
    assert_eq!(m.tick_period, 44100);
    assert!(!m.is_running);
    assert_eq!(m.get_beat_index(), 0);
    assert!(!m.show_beat());
}

#[test]
fn beat_index_advances_every_tick_period() {
    let mut m = Metronome::new(120, 44100, 2);
    m.advance(44100);
    assert_eq!(m.get_beat_index(), 1);
    m.advance(44100);
    assert_eq!(m.get_beat_index(), 2);
}

#[test]
fn show_beat_window_opens_after_each_tick() {
    let mut m = Metronome::new(120, 44100, 2);
    assert!(!m.show_beat());
    m.update();
    assert!(m.show_beat());
    let mut m2 = Metronome::new(120, 44100, 2);
    m2.advance(9_999);
    assert!(m2.show_beat());
    m2.update();
    assert!(!m2.show_beat());
    m2.advance(44100 - 10_000);
    assert!(!m2.show_beat());
    m2.update();
    assert!(m2.show_beat());
}

#[test]
fn per_sample_update_matches_batch_advance() {
    let mut a = Metronome::new(90, 48000, 2);
    let mut b = Metronome::new(90, 48000, 2);
    for _ in 0..1000 {
        a.update();
    }
    b.advance(1000);
    assert_eq!(a.get_beat_index(), b.get_beat_index());
    assert_eq!(a.show_beat(), b.show_beat());
    assert_eq!(a.sample_count, b.sample_count);
}

#[test]
fn beat_controller_flags_beat_crossings() {
    let mut c = BeatController::new(44100, 60, 4, 2);
    assert_eq!(c.beat_period, 44100);
    c.update(44099);
    assert!(!c.can_draw);
    assert_eq!(c.beat_timer, 44099);
    c.update(1);
    assert!(c.can_draw);
    assert_eq!(c.beat_timer, 0);
    assert_eq!(c.bar_timer, 44100);
    c.update(5);
    assert!(!c.can_draw);
    assert_eq!(c.beat_timer, 5);
}

#[test]
fn beat_controller_resets_bar_timer_on_full_bar() {
    let mut c = BeatController::new(100, 60, 2, 1);
    assert_eq!(c.beat_period, 100);
    c.update(100);
    assert!(c.can_draw);
    assert_eq!(c.bar_timer, 100);
    c.update(100);
    assert!(c.can_draw);
    assert_eq!(c.bar_timer, 0);
}
