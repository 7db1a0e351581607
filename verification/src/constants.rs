//! Fixed quantities of the generator, in the integer units the library works in:
//! hertz, millihertz, samples, milliseconds and parts per million of full scale.

use vstd::prelude::*;

verus! {

// === Levels ===
/// Full scale of a level or gain, in parts per million.
pub const FULL_SCALE_PPM: u32 = 1_000_000;

/// Master level a fresh configuration starts with (kept low for safety).
pub const DEFAULT_MASTER_VOLUME_PPM: u32 = 100_000;

/// Binaural level a fresh configuration starts with.
pub const DEFAULT_COHERENCE_VOLUME_PPM: u32 = 500_000;

/// Level a muted channel returns to when it is unmuted.
pub const UNMUTE_VOLUME_PPM: u32 = 500_000;

/// Gain at which the return phase of a session ends.
pub const RETURN_FLOOR_PPM: u32 = 300_000;

// === Frequencies ===
/// Ultrasonic ping frequency a fresh configuration starts with.
pub const DEFAULT_ULTRASONIC_PING_HZ: u32 = 17_000;

/// Ping frequency range and its two adjustment steps.
pub const PING_FREQ_MIN_HZ: u32 = 1_000;

pub const PING_FREQ_MAX_HZ: u32 = 100_000;

pub const PING_FREQ_COARSE_STEP_HZ: u32 = 1_000;

pub const PING_FREQ_FINE_STEP_HZ: u32 = 100;

/// Hydrogen line, the transmit frequency a fresh configuration starts with.
pub const HYDROGEN_LINE_HZ: u64 = 1_420_405_752;

/// Carrier both ears share before a beat offset is applied.
pub const OPTIMAL_CARRIER_MILLIHZ: u32 = 400_000;

/// Custom beat a fresh configuration starts with.
pub const DEFAULT_CUSTOM_BINAURAL_MILLIHZ: u32 = 4_100;

/// Range a custom beat is held to.
pub const BEAT_MIN_MILLIHZ: u32 = 100;

pub const BEAT_MAX_MILLIHZ: u32 = 30_000;

/// Upper edges of the brainwave bands; gamma lies above the last.
pub const DELTA_MAX_MILLIHZ: u32 = 4_000;

pub const THETA_MAX_MILLIHZ: u32 = 8_000;

pub const ALPHA_MAX_MILLIHZ: u32 = 12_000;

pub const BETA_MAX_MILLIHZ: u32 = 30_000;

// === Gamma burst ===
/// Seconds between gamma bursts.
pub const GAMMA_BURST_INTERVAL_SECS: u64 = 35;

/// Seconds a gamma burst lasts.
pub const GAMMA_BURST_DURATION_SECS: u64 = 3;

// === Chirp timing ===
/// Seconds after which the chirp cycle starts over.
pub const CHIRP_PERIOD_SECS: u64 = 10;

/// The chirp sounds for one part in this many of a second at the start of each cycle.
pub const CHIRP_WINDOWS_PER_SEC: u64 = 5;

// === Session pacing ===
pub const DEFAULT_STARTUP_DURATION_MS: u32 = 120_000;

pub const DEFAULT_INDUCTION_DURATION_MS: u32 = 780_000;

pub const DEFAULT_STABILIZATION_DURATION_MS: u32 = 600_000;

pub const DEFAULT_RETURN_DURATION_MS: u32 = 300_000;

// === Radio ===
/// Sample rate of the quadrature stream handed to the transmitter.
pub const RF_SAMPLE_RATE_HZ: u32 = 2_000_000;

/// Frequency deviation of the narrowband and wideband FM modes.
pub const NBFM_DEVIATION_HZ: u32 = 12_500;

pub const WBFM_DEVIATION_HZ: u32 = 75_000;

/// Seconds a hardware detection result stays valid.
pub const HACKRF_CHECK_INTERVAL_SECS: u64 = 5;

/// Quadrature samples produced per write to the transmitter.
pub const RF_BUFFER_CHUNK_SIZE: usize = 4096;

pub const RF_FREQ_STEP_HZ: u64 = 100_000;

pub const RF_GAIN_STEP_DB: u32 = 1;

pub const RF_GAIN_MAX_DB: u32 = 47;

pub const DEFAULT_RF_GAIN_DB: u32 = 30;

/// Pause of the worker loop while transmission is not requested.
pub const RF_WORKER_SLEEP_MS: u64 = 100;

/// Pause after the transmitter hardware was found absent.
pub const RF_ABSENT_BACKOFF_MS: u64 = 2000;

/// Pause after the transmitter process failed to start.
pub const RF_SPAWN_BACKOFF_MS: u64 = 1000;

// === Streaming ===
pub const STREAM_BUFFER_DURATION_MS: u32 = 2000;

pub const DEFAULT_STREAM_PORT: u16 = 1123;

pub const PORT_COARSE_STEP: u16 = 100;

pub const PORT_FINE_STEP: u16 = 10;

pub const PORT_MIN: u16 = 1024;

pub const PORT_MAX: u16 = 65535;

/// Stereo frames a stream reader pulls from the ring per read.
pub const STREAM_READ_CHUNK_SIZE: usize = 1024;

/// Pause of a stream reader that found the ring empty.
pub const STREAM_READ_WAIT_MS: u64 = 5;

pub const WAV_HEADER_LEN: usize = 44;

pub const WAV_INFINITE_SIZE: u32 = 0xFFFF_FFFF;

pub const WAV_FMT_CHUNK_SIZE: u32 = 16;

pub const WAV_PCM_FORMAT: u16 = 1;

pub const WAV_STEREO_CHANNELS: u16 = 2;

pub const WAV_BITS_PER_SAMPLE: u16 = 16;

pub const WAV_BLOCK_ALIGN: u16 = 4;

// === Presentation ===
pub const DESC_MAX_WIDTH: usize = 90;

pub const DESC_BRIEF_CHAR_THRESHOLD: usize = 270;

pub const DESC_BRIEF_LINES: usize = 3;

pub const STATUS_TIMEOUT_SECS: u64 = 3;

pub const STATUS_WARNING_TIMEOUT_SECS: u64 = 8;

pub const MIXER_HEADER_OFFSET: usize = 9;

pub const EVENT_POLL_INTERVAL_MS: u64 = 50;

} // verus!
