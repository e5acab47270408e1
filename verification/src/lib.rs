//! A deterministic four-operator FM sound synthesis core on Q16.16
//! fixed-point arithmetic: transcendental lookup tables, phase accumulators,
//! envelope state machines, waveform shaping and a routed four-operator voice.

pub mod env_generator;
pub mod exp;
pub mod operator;
pub mod fp;
pub mod phase_generator;
pub mod sin;
pub mod voice;
pub mod wave_generator;

pub use fp::FP;
