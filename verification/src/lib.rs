//! Timing, framing and control logic of a multi-layer tone generator.
//!
//! The generator mixes six signal layers and a binaural pair for speaker
//! playback, re-encodes the same waveform as quadrature samples for a radio
//! transmitter, and serves a live copy of the mix over the network. This
//! library holds what those loops decide: which layer sounds how at which
//! sample, where a listening session stands and how loud it is, when the
//! transmitter process starts and stops, what the stream reader hands to its
//! connection, and how bytes are framed. Every function is verified against
//! its contract.
//!
//! The library works in integers throughout. Time is counted in samples,
//! durations are given in milliseconds, frequencies in hertz or millihertz,
//! and levels and gains in parts per million of full scale. The host program
//! evaluates the oscillators in floating point, performs the input and output,
//! and shares the configuration snapshot and the ring between its threads.

pub mod audio;
pub mod coherence;
pub mod constants;
pub mod embedded_presets;
pub mod mixer;
pub mod presets;
pub mod rf;
pub mod streaming;
pub mod utils;
