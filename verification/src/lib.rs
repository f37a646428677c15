//! Real-time polyphonic audio synthesis core.
//!
//! The library models audio amplitudes, volumes and envelope levels as
//! fixed-point integers in units of one millionth (`fixed::SCALE` is 1.0),
//! time as integer microseconds, frequency as integer millihertz and a
//! waveform phase as an integer number of millionths of one cycle.  Every
//! algorithm of the synthesis core — the waveform generator bank, the ADSR
//! envelope state machine, the voice pool and mixer, the rate limiter and
//! PCM sample playback — is written over these integer models and verified.
//!
//! Platform audio output, keyboard capture and configuration file I/O live
//! outside this crate; they exchange plain values with it.

pub mod audio_engine;
pub mod embedded_configs;
pub mod engine;
pub mod fixed;
pub mod keyboard_config;
pub mod keyboard_mapping;
pub mod keyed;
pub mod samples;
pub mod scale_comparison;
pub mod sequence_detector;
pub mod text;
pub mod wav;
pub mod waveforms;
