//! A multi-track tape looper core: fixed-length tapes with volume, mute and
//! solo state, a sample-counting metronome, bounded non-blocking control
//! queues, and the engine loop that mixes tapes with live input and a
//! metronome click.
//!
//! Amplitudes are fixed-point: [`sample::SAMPLE_UNIT`] units stand for full
//! scale. The audio hardware boundary (device streams, thread plumbing) and
//! the disk-export writer live outside this crate; they exchange plain sample
//! values with the engine through its queues.

pub mod audio_model;
pub mod beat_controller;
pub mod config;
pub mod envelope;
pub mod metronome;
pub mod modul;
pub mod queues;
pub mod sample;
pub mod tape;
pub mod utils;
pub mod view_time;
pub mod wave;
pub mod windows;
