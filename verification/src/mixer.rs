//! Rules by which the controls of the mixer change the configuration: level
//! and frequency steps that are held to their ranges, mute and playback
//! toggles, the cycles through the waveform kinds of each layer, and the lock
//! that shields the signal layer. The rows of the mixer form sections that
//! fold: a section is a heading followed by its indented rows.

use vstd::prelude::*;
use crate::audio::{AudioParams, SignalType};
use crate::coherence::{clamped_beat, BeingType, CoherenceParams};
use crate::presets::{has_prefix, PresetDescMode};
use crate::utils::same_text;
use crate::constants::{
    BEAT_MAX_MILLIHZ, BEAT_MIN_MILLIHZ, FULL_SCALE_PPM, PING_FREQ_COARSE_STEP_HZ,
    PING_FREQ_FINE_STEP_HZ, PING_FREQ_MAX_HZ, PING_FREQ_MIN_HZ, PORT_COARSE_STEP, PORT_FINE_STEP,
    PORT_MAX, PORT_MIN, RF_FREQ_STEP_HZ, RF_GAIN_MAX_DB, RF_GAIN_STEP_DB, UNMUTE_VOLUME_PPM,
};

verus! {

/// Magnitude of a step above which the coarse step of a frequency or port is
/// taken, in parts per million of a unit step.
pub const COARSE_THRESHOLD_PPM: i32 = 50_000;

/// Parts per million of a unit step that move a custom beat by one millihertz.
pub const BEAT_STEP_DIVISOR: i32 = 100;

/// A row of the mixer.
#[derive(Clone, Copy, Debug, PartialEq, Eq, Structural)]
pub enum ChannelId {
    Master,
    BeingType,
    PresetDescription,
    CoherenceVol,
    BinauralAdjust,
    SessionTimer,
    Carrier,
    Harmonic,
    Ping,
    PingFreq,
    Chirp,
    Pad,
    Breath,
    RfEnable,
    RfFreq,
    RfGain,
    RfMode,
    RfPulseType,
    StreamEnable,
    StreamPort,
    Spacer,
}

/// What the host has to do after an adjustment.
#[derive(Clone, Copy, Debug, PartialEq, Eq, Structural)]
pub enum Adjustment {
    /// The configuration holds the new value, or the row takes no adjustment.
    Applied,
    /// The row belongs to the locked signal layer: nothing was changed.
    Locked,
    /// Step to the neighbouring preset and load it.
    StepPreset { forward: bool },
    /// Show the transmission disclaimer; transmission is not enabled yet.
    ShowRfDisclaimer,
    /// Transmission is enabled, but no transmitter hardware is detected.
    WarnNoHardware,
}

impl ChannelId {
    /// Whether the row is one of the six levels of the signal layer.
    pub open spec fn spec_is_signal_channel(self) -> bool {
        self == ChannelId::Carrier || self == ChannelId::Harmonic || self == ChannelId::Ping
            || self == ChannelId::Chirp || self == ChannelId::Pad || self == ChannelId::Breath
    }

    pub fn is_signal_channel(self) -> (signal: bool)
        ensures
            signal == self.spec_is_signal_channel(),
    {
        match self {
            ChannelId::Carrier
            | ChannelId::Harmonic
            | ChannelId::Ping
            | ChannelId::Chirp
            | ChannelId::Pad
            | ChannelId::Breath => true,
            _ => false,
        }
    }
}

/// A row is locked while it belongs to the signal layer and that layer is
/// locked.
pub open spec fn locked(id: ChannelId, params: AudioParams) -> bool {
    id.spec_is_signal_channel() && params.lock_signal_layer
}

/// Whether a row is shielded from changes.
pub fn is_channel_locked(id: ChannelId, params: &AudioParams) -> (is_locked: bool)
    ensures
        is_locked == locked(id, *params),
{
    id.is_signal_channel() && params.lock_signal_layer
}

/// A level moved by a step and held between silence and full scale.
pub open spec fn shifted_level(level: u32, delta_ppm: i32) -> u32 {
    if level + delta_ppm < 0 {
        0
    } else if level + delta_ppm > FULL_SCALE_PPM {
        FULL_SCALE_PPM
    } else {
        (level + delta_ppm) as u32
    }
}

/// Moves a level by a step and holds it between silence and full scale.
pub fn shift_level(level: u32, delta_ppm: i32) -> (shifted: u32)
    ensures
        shifted == shifted_level(level, delta_ppm),
        shifted <= FULL_SCALE_PPM,
{
    let moved: i64 = level as i64 + delta_ppm as i64;
    if moved < 0 {
        0
    } else if moved > FULL_SCALE_PPM as i64 {
        FULL_SCALE_PPM
    } else {
        moved as u32
    }
}

/// A level after its mute toggle: an audible level falls silent, a silent one
/// returns at half scale.
pub open spec fn toggled_level(level: u32) -> u32 {
    if level > 0 {
        0
    } else {
        UNMUTE_VOLUME_PPM
    }
}

/// Toggles a level between silence and half scale.
pub fn toggle_volume(volume: &mut u32)
    ensures
        *final(volume) == toggled_level(*old(volume)),
{
    if *volume > 0 {
        *volume = 0;
    } else {
        *volume = UNMUTE_VOLUME_PPM;
    }
}

/// The ping frequency after a step: the coarse step for a large movement and
/// the fine step otherwise, upward unless the movement is negative, held to
/// the ping range.
pub open spec fn stepped_ping(freq_hz: u32, delta_ppm: i32) -> u32 {
    let step = if delta_ppm > COARSE_THRESHOLD_PPM || delta_ppm < -COARSE_THRESHOLD_PPM {
        PING_FREQ_COARSE_STEP_HZ
    } else {
        PING_FREQ_FINE_STEP_HZ
    };
    let moved = if delta_ppm >= 0 {
        freq_hz + step
    } else {
        freq_hz - step
    };
    if moved < PING_FREQ_MIN_HZ {
        PING_FREQ_MIN_HZ
    } else if moved > PING_FREQ_MAX_HZ {
        PING_FREQ_MAX_HZ
    } else {
        moved as u32
    }
}

/// The transmit frequency after a step up or down; it stops at the ends of its
/// type.
pub open spec fn stepped_rf_freq(freq_hz: u64, delta_ppm: i32) -> u64 {
    if delta_ppm > 0 {
        if freq_hz + RF_FREQ_STEP_HZ > u64::MAX {
            u64::MAX
        } else {
            (freq_hz + RF_FREQ_STEP_HZ) as u64
        }
    } else {
        if freq_hz < RF_FREQ_STEP_HZ {
            0
        } else {
            (freq_hz - RF_FREQ_STEP_HZ) as u64
        }
    }
}

/// The transmit gain after a step: upward it stops at the largest gain,
/// downward at zero.
pub open spec fn stepped_rf_gain(gain_db: u32, delta_ppm: i32) -> u32 {
    if delta_ppm > 0 {
        if gain_db + RF_GAIN_STEP_DB > RF_GAIN_MAX_DB {
            RF_GAIN_MAX_DB
        } else {
            (gain_db + RF_GAIN_STEP_DB) as u32
        }
    } else {
        if gain_db < RF_GAIN_STEP_DB {
            0
        } else {
            (gain_db - RF_GAIN_STEP_DB) as u32
        }
    }
}

/// The stream port after a step, held to the range of unprivileged ports.
pub open spec fn stepped_port(port: u16, delta_ppm: i32) -> u16 {
    let step = if delta_ppm > COARSE_THRESHOLD_PPM || delta_ppm < -COARSE_THRESHOLD_PPM {
        PORT_COARSE_STEP
    } else {
        PORT_FINE_STEP
    };
    let moved = if delta_ppm > 0 {
        port + step
    } else {
        port - step
    };
    if moved < PORT_MIN {
        PORT_MIN
    } else if moved > PORT_MAX {
        PORT_MAX
    } else {
        moved as u16
    }
}

/// Millihertz by which a step moves a custom beat: a hundredth of the step,
/// rounded towards zero.
pub open spec fn beat_movement(delta_ppm: i32) -> int {
    if delta_ppm >= 0 {
        delta_ppm as int / BEAT_STEP_DIVISOR as int
    } else {
        -((-delta_ppm) as int / BEAT_STEP_DIVISOR as int)
    }
}

/// The custom beat after a step, held to the beat range.
pub open spec fn stepped_beat(beat_millihz: u32, delta_ppm: i32) -> u32 {
    let moved = beat_millihz + beat_movement(delta_ppm);
    if moved < BEAT_MIN_MILLIHZ {
        BEAT_MIN_MILLIHZ
    } else if moved > BEAT_MAX_MILLIHZ {
        BEAT_MAX_MILLIHZ
    } else {
        moved as u32
    }
}

/// Steps the ping frequency.
pub fn step_ping(freq_hz: u32, delta_ppm: i32) -> (stepped: u32)
    ensures
        stepped == stepped_ping(freq_hz, delta_ppm),
        PING_FREQ_MIN_HZ <= stepped <= PING_FREQ_MAX_HZ,
{
    let coarse: bool = delta_ppm > COARSE_THRESHOLD_PPM || delta_ppm < -COARSE_THRESHOLD_PPM;
    let step: i64 = if coarse {
        PING_FREQ_COARSE_STEP_HZ as i64
    } else {
        PING_FREQ_FINE_STEP_HZ as i64
    };
    let moved: i64 = if delta_ppm >= 0 {
        freq_hz as i64 + step
    } else {
        freq_hz as i64 - step
    };
    if moved < PING_FREQ_MIN_HZ as i64 {
        PING_FREQ_MIN_HZ
    } else if moved > PING_FREQ_MAX_HZ as i64 {
        PING_FREQ_MAX_HZ
    } else {
        moved as u32
    }
}

/// Steps the transmit frequency.
pub fn step_rf_freq(freq_hz: u64, delta_ppm: i32) -> (stepped: u64)
    ensures
        stepped == stepped_rf_freq(freq_hz, delta_ppm),
{
    if delta_ppm > 0 {
        if freq_hz > u64::MAX - RF_FREQ_STEP_HZ {
            u64::MAX
        } else {
            freq_hz + RF_FREQ_STEP_HZ
        }
    } else {
        if freq_hz < RF_FREQ_STEP_HZ {
            0
        } else {
            freq_hz - RF_FREQ_STEP_HZ
        }
    }
}

/// Steps the transmit gain.
pub fn step_rf_gain(gain_db: u32, delta_ppm: i32) -> (stepped: u32)
    ensures
        stepped == stepped_rf_gain(gain_db, delta_ppm),
        delta_ppm > 0 ==> stepped <= RF_GAIN_MAX_DB,
        stepped <= gain_db || stepped <= RF_GAIN_MAX_DB,
{
    if delta_ppm > 0 {
        if gain_db >= RF_GAIN_MAX_DB {
            RF_GAIN_MAX_DB
        } else {
            gain_db + RF_GAIN_STEP_DB
        }
    } else {
        if gain_db < RF_GAIN_STEP_DB {
            0
        } else {
            gain_db - RF_GAIN_STEP_DB
        }
    }
}

/// Steps the stream port.
pub fn step_port(port: u16, delta_ppm: i32) -> (stepped: u16)
    ensures
        stepped == stepped_port(port, delta_ppm),
        PORT_MIN <= stepped <= PORT_MAX,
{
    let coarse: bool = delta_ppm > COARSE_THRESHOLD_PPM || delta_ppm < -COARSE_THRESHOLD_PPM;
    let step: i32 = if coarse {
        PORT_COARSE_STEP as i32
    } else {
        PORT_FINE_STEP as i32
    };
    let moved: i32 = if delta_ppm > 0 {
        port as i32 + step
    } else {
        port as i32 - step
    };
    if moved < PORT_MIN as i32 {
        PORT_MIN
    } else if moved > PORT_MAX as i32 {
        PORT_MAX
    } else {
        moved as u16
    }
}

/// Steps a custom beat.
pub fn step_beat(beat_millihz: u32, delta_ppm: i32) -> (stepped: u32)
    ensures
        stepped == stepped_beat(beat_millihz, delta_ppm),
        BEAT_MIN_MILLIHZ <= stepped <= BEAT_MAX_MILLIHZ,
        clamped_beat(stepped) == stepped,
{
    let movement: i64 = if delta_ppm >= 0 {
        (delta_ppm as i64) / (BEAT_STEP_DIVISOR as i64)
    } else {
        -((-(delta_ppm as i64)) / (BEAT_STEP_DIVISOR as i64))
    };
    let moved: i64 = beat_millihz as i64 + movement;
    if moved < BEAT_MIN_MILLIHZ as i64 {
        BEAT_MIN_MILLIHZ
    } else if moved > BEAT_MAX_MILLIHZ as i64 {
        BEAT_MAX_MILLIHZ
    } else {
        moved as u32
    }
}

/// What an adjustment of a row reports to the host.
pub open spec fn adjustment_of(
    params: AudioParams,
    id: ChannelId,
    delta_ppm: i32,
    disclaimer_shown: bool,
) -> Adjustment {
    if locked(id, params) {
        Adjustment::Locked
    } else if id == ChannelId::BeingType {
        Adjustment::StepPreset { forward: delta_ppm > 0 }
    } else if id == ChannelId::RfEnable && delta_ppm > 0 {
        if !params.rf_enabled && !disclaimer_shown {
            Adjustment::ShowRfDisclaimer
        } else if !params.rf_detected {
            Adjustment::WarnNoHardware
        } else {
            Adjustment::Applied
        }
    } else {
        Adjustment::Applied
    }
}

/// The configuration after an adjustment of a row.
pub open spec fn adjusted(
    params: AudioParams,
    id: ChannelId,
    delta_ppm: i32,
    disclaimer_shown: bool,
) -> AudioParams {
    if locked(id, params) {
        params
    } else {
        match id {
            ChannelId::Master => AudioParams {
                master_vol_ppm: shifted_level(params.master_vol_ppm, delta_ppm),
                ..params
            },
            ChannelId::CoherenceVol => if params.coherence.being_type != BeingType::Unknown {
                AudioParams {
                    coherence: CoherenceParams {
                        volume_ppm: shifted_level(params.coherence.volume_ppm, delta_ppm),
                        ..params.coherence
                    },
                    ..params
                }
            } else {
                params
            },
            ChannelId::BinauralAdjust => if params.coherence.being_type
                == BeingType::HumanCustom {
                AudioParams {
                    coherence: params.coherence.with_custom_binaural(
                        stepped_beat(params.coherence.custom_binaural_millihz, delta_ppm),
                    ),
                    ..params
                }
            } else {
                params
            },
            ChannelId::PingFreq => AudioParams {
                ping_freq_hz: stepped_ping(params.ping_freq_hz, delta_ppm),
                ..params
            },
            ChannelId::Carrier => AudioParams {
                carrier_vol_ppm: shifted_level(params.carrier_vol_ppm, delta_ppm),
                ..params
            },
            ChannelId::Harmonic => AudioParams {
                harmonic_vol_ppm: shifted_level(params.harmonic_vol_ppm, delta_ppm),
                ..params
            },
            ChannelId::Ping => AudioParams {
                ping_vol_ppm: shifted_level(params.ping_vol_ppm, delta_ppm),
                ..params
            },
            ChannelId::Chirp => AudioParams {
                chirp_vol_ppm: shifted_level(params.chirp_vol_ppm, delta_ppm),
                ..params
            },
            ChannelId::Pad => AudioParams {
                pad_vol_ppm: shifted_level(params.pad_vol_ppm, delta_ppm),
                ..params
            },
            ChannelId::Breath => AudioParams {
                breath_vol_ppm: shifted_level(params.breath_vol_ppm, delta_ppm),
                ..params
            },
            ChannelId::RfEnable => if delta_ppm > 0 {
                if !params.rf_enabled && !disclaimer_shown {
                    params
                } else {
                    AudioParams { rf_enabled: true, ..params }
                }
            } else if delta_ppm < 0 {
                AudioParams { rf_enabled: false, ..params }
            } else {
                params
            },
            ChannelId::RfFreq => AudioParams {
                rf_freq_hz: stepped_rf_freq(params.rf_freq_hz, delta_ppm),
                ..params
            },
            ChannelId::RfGain => AudioParams {
                rf_gain: stepped_rf_gain(params.rf_gain, delta_ppm),
                ..params
            },
            ChannelId::StreamPort => AudioParams {
                stream_port: stepped_port(params.stream_port, delta_ppm),
                ..params
            },
            _ => params,
        }
    }
}

/// Whether the disclaimer counts as shown after an adjustment: it is shown by
/// the first attempt to enable transmission.
pub open spec fn disclaimer_after(
    params: AudioParams,
    id: ChannelId,
    delta_ppm: i32,
    disclaimer_shown: bool,
) -> bool {
    disclaimer_shown || adjustment_of(params, id, delta_ppm, disclaimer_shown)
        == Adjustment::ShowRfDisclaimer
}

/// Adjusts the row `id` by a step of `delta_ppm` parts per million of a unit
/// step. Every value is held to its range, so no step is an error. Rows of a
/// locked signal layer, read-only rows and rows that are operated by other
/// keys are left as they are.
pub fn adjust_volume(
    params: &mut AudioParams,
    id: ChannelId,
    delta_ppm: i32,
    disclaimer_shown: &mut bool,
) -> (outcome: Adjustment)
    ensures
        outcome == adjustment_of(*old(params), id, delta_ppm, *old(disclaimer_shown)),
        *final(params) == adjusted(*old(params), id, delta_ppm, *old(disclaimer_shown)),
        *final(disclaimer_shown) == disclaimer_after(
            *old(params),
            id,
            delta_ppm,
            *old(disclaimer_shown),
        ),
        outcome == Adjustment::Locked ==> *final(params) == *old(params),
        id == ChannelId::Master ==> final(params).master_vol_ppm <= FULL_SCALE_PPM,
        id.spec_is_signal_channel() && outcome == Adjustment::Applied ==> levels_within_scale(
            *old(params),
        ) ==> levels_within_scale(*final(params)),
        id == ChannelId::PingFreq ==> PING_FREQ_MIN_HZ <= final(params).ping_freq_hz
            <= PING_FREQ_MAX_HZ,
        id == ChannelId::StreamPort ==> PORT_MIN <= final(params).stream_port <= PORT_MAX,
        id == ChannelId::RfGain && delta_ppm > 0 ==> final(params).rf_gain <= RF_GAIN_MAX_DB,
{
    if is_channel_locked(id, params) {
        return Adjustment::Locked;
    }
    match id {
        ChannelId::Master => {
            params.master_vol_ppm = shift_level(params.master_vol_ppm, delta_ppm);
        },
        ChannelId::BeingType => {
            return Adjustment::StepPreset { forward: delta_ppm > 0 };
        },
        ChannelId::CoherenceVol => {
            if params.coherence.being_type != BeingType::Unknown {
                params.coherence.volume_ppm = shift_level(params.coherence.volume_ppm, delta_ppm);
            }
        },
        ChannelId::BinauralAdjust => {
            if params.coherence.being_type == BeingType::HumanCustom {
                let beat: u32 = step_beat(params.coherence.custom_binaural_millihz, delta_ppm);
                let mut coherence = params.coherence;
                coherence.apply_custom_binaural(beat);
                params.coherence = coherence;
            }
        },
        ChannelId::PingFreq => {
            params.ping_freq_hz = step_ping(params.ping_freq_hz, delta_ppm);
        },
        ChannelId::Carrier => {
            params.carrier_vol_ppm = shift_level(params.carrier_vol_ppm, delta_ppm);
        },
        ChannelId::Harmonic => {
            params.harmonic_vol_ppm = shift_level(params.harmonic_vol_ppm, delta_ppm);
        },
        ChannelId::Ping => {
            params.ping_vol_ppm = shift_level(params.ping_vol_ppm, delta_ppm);
        },
        ChannelId::Chirp => {
            params.chirp_vol_ppm = shift_level(params.chirp_vol_ppm, delta_ppm);
        },
        ChannelId::Pad => {
            params.pad_vol_ppm = shift_level(params.pad_vol_ppm, delta_ppm);
        },
        ChannelId::Breath => {
            params.breath_vol_ppm = shift_level(params.breath_vol_ppm, delta_ppm);
        },
        ChannelId::RfEnable => {
            if delta_ppm > 0 {
                if !params.rf_enabled && !*disclaimer_shown {
                    *disclaimer_shown = true;
                    return Adjustment::ShowRfDisclaimer;
                }
                params.rf_enabled = true;
                if !params.rf_detected {
                    return Adjustment::WarnNoHardware;
                }
            } else if delta_ppm < 0 {
                params.rf_enabled = false;
            }
        },
        ChannelId::RfFreq => {
            params.rf_freq_hz = step_rf_freq(params.rf_freq_hz, delta_ppm);
        },
        ChannelId::RfGain => {
            params.rf_gain = step_rf_gain(params.rf_gain, delta_ppm);
        },
        ChannelId::StreamPort => {
            params.stream_port = step_port(params.stream_port, delta_ppm);
        },
        _ => {},
    }
    Adjustment::Applied
}

/// Whether the six levels of the signal layer lie between silence and full
/// scale.
pub open spec fn levels_within_scale(params: AudioParams) -> bool {
    &&& params.carrier_vol_ppm <= FULL_SCALE_PPM
    &&& params.harmonic_vol_ppm <= FULL_SCALE_PPM
    &&& params.ping_vol_ppm <= FULL_SCALE_PPM
    &&& params.chirp_vol_ppm <= FULL_SCALE_PPM
    &&& params.pad_vol_ppm <= FULL_SCALE_PPM
    &&& params.breath_vol_ppm <= FULL_SCALE_PPM
}

/// The configuration after the mute toggle of a row. Only the master level,
/// the binaural level and the six signal levels can be muted, and the signal
/// levels only while their layer is not locked.
pub open spec fn mute_toggled(params: AudioParams, id: ChannelId) -> AudioParams {
    if locked(id, params) {
        params
    } else {
        match id {
            ChannelId::Master => AudioParams {
                master_vol_ppm: toggled_level(params.master_vol_ppm),
                ..params
            },
            ChannelId::CoherenceVol => AudioParams {
                coherence: CoherenceParams {
                    volume_ppm: toggled_level(params.coherence.volume_ppm),
                    ..params.coherence
                },
                ..params
            },
            ChannelId::Carrier => AudioParams {
                carrier_vol_ppm: toggled_level(params.carrier_vol_ppm),
                ..params
            },
            ChannelId::Harmonic => AudioParams {
                harmonic_vol_ppm: toggled_level(params.harmonic_vol_ppm),
                ..params
            },
            ChannelId::Ping => AudioParams {
                ping_vol_ppm: toggled_level(params.ping_vol_ppm),
                ..params
            },
            ChannelId::Chirp => AudioParams {
                chirp_vol_ppm: toggled_level(params.chirp_vol_ppm),
                ..params
            },
            ChannelId::Pad => AudioParams {
                pad_vol_ppm: toggled_level(params.pad_vol_ppm),
                ..params
            },
            ChannelId::Breath => AudioParams {
                breath_vol_ppm: toggled_level(params.breath_vol_ppm),
                ..params
            },
            _ => params,
        }
    }
}

/// Toggles the level of a row between silence and half scale.
pub fn toggle_mute(params: &mut AudioParams, id: ChannelId)
    ensures
        *final(params) == mute_toggled(*old(params), id),
        locked(id, *old(params)) ==> *final(params) == *old(params),
{
    if is_channel_locked(id, params) {
        return ;
    }
    match id {
        ChannelId::Master => toggle_volume(&mut params.master_vol_ppm),
        ChannelId::CoherenceVol => toggle_volume(&mut params.coherence.volume_ppm),
        ChannelId::Carrier => toggle_volume(&mut params.carrier_vol_ppm),
        ChannelId::Harmonic => toggle_volume(&mut params.harmonic_vol_ppm),
        ChannelId::Ping => toggle_volume(&mut params.ping_vol_ppm),
        ChannelId::Chirp => toggle_volume(&mut params.chirp_vol_ppm),
        ChannelId::Pad => toggle_volume(&mut params.pad_vol_ppm),
        ChannelId::Breath => toggle_volume(&mut params.breath_vol_ppm),
        _ => {},
    }
}

/// The configuration after the playback key. On the transmission row it
/// toggles transmission, on the streaming row streaming, and anywhere else,
/// also without a selection, playback itself.
pub open spec fn playback_toggled(params: AudioParams, selected: Option<ChannelId>)
    -> AudioParams {
    match selected {
        Some(ChannelId::RfEnable) => AudioParams { rf_enabled: !params.rf_enabled, ..params },
        Some(ChannelId::StreamEnable) => AudioParams {
            stream_enabled: !params.stream_enabled,
            ..params
        },
        _ => AudioParams { playing: !params.playing, ..params },
    }
}

/// Applies the playback key to the selected row.
pub fn toggle_playback(params: &mut AudioParams, selected: Option<ChannelId>)
    ensures
        *final(params) == playback_toggled(*old(params), selected),
{
    match selected {
        Some(ChannelId::RfEnable) => {
            params.rf_enabled = !params.rf_enabled;
        },
        Some(ChannelId::StreamEnable) => {
            params.stream_enabled = !params.stream_enabled;
        },
        _ => {
            params.playing = !params.playing;
        },
    }
}

/// The kind that follows `kind` in the cycle of a row. Each row cycles through
/// the kinds it can voice, and a kind outside the cycle leads to its start.
pub open spec fn next_kind(id: ChannelId, kind: SignalType) -> SignalType {
    match id {
        ChannelId::Carrier => match kind {
            SignalType::SchumannAM => SignalType::SchumannFM,
            SignalType::SchumannFM => SignalType::Schumann783AM,
            SignalType::Schumann783AM => SignalType::Sine100Hz,
            SignalType::Sine100Hz => SignalType::Square,
            _ => SignalType::SchumannAM,
        },
        ChannelId::Harmonic | ChannelId::RfPulseType => match kind {
            SignalType::Sine => SignalType::Triangle,
            SignalType::Triangle => SignalType::Square,
            SignalType::Square => SignalType::Saw,
            _ => SignalType::Sine,
        },
        ChannelId::Ping => match kind {
            SignalType::Sine => SignalType::Square,
            SignalType::Square => SignalType::Saw,
            _ => SignalType::Sine,
        },
        ChannelId::Chirp => match kind {
            SignalType::OrganicChirp => SignalType::SyntheticChirp,
            SignalType::SyntheticChirp => SignalType::Saw,
            SignalType::Saw => SignalType::Square,
            _ => SignalType::OrganicChirp,
        },
        ChannelId::Pad => match kind {
            SignalType::Sine => SignalType::Triangle,
            SignalType::Triangle => SignalType::Saw,
            _ => SignalType::Sine,
        },
        ChannelId::Breath => match kind {
            SignalType::LfoBreathing => SignalType::WhiteNoise,
            SignalType::WhiteNoise => SignalType::PinkNoise,
            SignalType::PinkNoise => SignalType::Sine,
            _ => SignalType::LfoBreathing,
        },
        ChannelId::RfMode => match kind {
            SignalType::WBFM => SignalType::NBFM,
            SignalType::NBFM => SignalType::AM,
            _ => SignalType::WBFM,
        },
        _ => kind,
    }
}

/// Steps a kind along the cycle of a row.
pub fn cycle_kind(id: ChannelId, kind: SignalType) -> (next: SignalType)
    ensures
        next == next_kind(id, kind),
{
    match id {
        ChannelId::Carrier => match kind {
            SignalType::SchumannAM => SignalType::SchumannFM,
            SignalType::SchumannFM => SignalType::Schumann783AM,
            SignalType::Schumann783AM => SignalType::Sine100Hz,
            SignalType::Sine100Hz => SignalType::Square,
            _ => SignalType::SchumannAM,
        },
        ChannelId::Harmonic | ChannelId::RfPulseType => match kind {
            SignalType::Sine => SignalType::Triangle,
            SignalType::Triangle => SignalType::Square,
            SignalType::Square => SignalType::Saw,
            _ => SignalType::Sine,
        },
        ChannelId::Ping => match kind {
            SignalType::Sine => SignalType::Square,
            SignalType::Square => SignalType::Saw,
            _ => SignalType::Sine,
        },
        ChannelId::Chirp => match kind {
            SignalType::OrganicChirp => SignalType::SyntheticChirp,
            SignalType::SyntheticChirp => SignalType::Saw,
            SignalType::Saw => SignalType::Square,
            _ => SignalType::OrganicChirp,
        },
        ChannelId::Pad => match kind {
            SignalType::Sine => SignalType::Triangle,
            SignalType::Triangle => SignalType::Saw,
            _ => SignalType::Sine,
        },
        ChannelId::Breath => match kind {
            SignalType::LfoBreathing => SignalType::WhiteNoise,
            SignalType::WhiteNoise => SignalType::PinkNoise,
            SignalType::PinkNoise => SignalType::Sine,
            _ => SignalType::LfoBreathing,
        },
        ChannelId::RfMode => match kind {
            SignalType::WBFM => SignalType::NBFM,
            SignalType::NBFM => SignalType::AM,
            _ => SignalType::WBFM,
        },
        _ => kind,
    }
}

/// The configuration after the kind of a row was cycled.
pub open spec fn modulation_cycled(params: AudioParams, id: ChannelId) -> AudioParams {
    if locked(id, params) {
        params
    } else {
        match id {
            ChannelId::Carrier => AudioParams {
                carrier_type: next_kind(id, params.carrier_type),
                ..params
            },
            ChannelId::Harmonic => AudioParams {
                harmonic_type: next_kind(id, params.harmonic_type),
                ..params
            },
            ChannelId::Ping => AudioParams { ping_type: next_kind(id, params.ping_type), ..params },
            ChannelId::Chirp => AudioParams {
                chirp_type: next_kind(id, params.chirp_type),
                ..params
            },
            ChannelId::Pad => AudioParams { pad_type: next_kind(id, params.pad_type), ..params },
            ChannelId::Breath => AudioParams {
                breath_type: next_kind(id, params.breath_type),
                ..params
            },
            ChannelId::RfMode => AudioParams { rf_mode: next_kind(id, params.rf_mode), ..params },
            ChannelId::RfPulseType => AudioParams {
                rf_pulse_type: next_kind(id, params.rf_pulse_type),
                ..params
            },
            _ => params,
        }
    }
}

/// Cycles the waveform kind of a row, unless the row is locked or has no
/// kind.
pub fn cycle_modulation(params: &mut AudioParams, id: ChannelId)
    ensures
        *final(params) == modulation_cycled(*old(params), id),
        locked(id, *old(params)) ==> *final(params) == *old(params),
{
    if is_channel_locked(id, params) {
        return ;
    }
    match id {
        ChannelId::Carrier => {
            params.carrier_type = cycle_kind(id, params.carrier_type);
        },
        ChannelId::Harmonic => {
            params.harmonic_type = cycle_kind(id, params.harmonic_type);
        },
        ChannelId::Ping => {
            params.ping_type = cycle_kind(id, params.ping_type);
        },
        ChannelId::Chirp => {
            params.chirp_type = cycle_kind(id, params.chirp_type);
        },
        ChannelId::Pad => {
            params.pad_type = cycle_kind(id, params.pad_type);
        },
        ChannelId::Breath => {
            params.breath_type = cycle_kind(id, params.breath_type);
        },
        ChannelId::RfMode => {
            params.rf_mode = cycle_kind(id, params.rf_mode);
        },
        ChannelId::RfPulseType => {
            params.rf_pulse_type = cycle_kind(id, params.rf_pulse_type);
        },
        _ => {},
    }
}

/// The configuration that takes the place of `current` when a preset is
/// loaded: the preset, with transmission switched off for safety and with the
/// streaming settings of the running configuration kept.
pub open spec fn preset_installed(current: AudioParams, loaded: AudioParams) -> AudioParams {
    AudioParams {
        rf_enabled: false,
        stream_enabled: current.stream_enabled,
        stream_port: current.stream_port,
        ..loaded
    }
}

/// Replaces the configuration with a loaded preset.
pub fn install_preset(current: &mut AudioParams, loaded: AudioParams)
    ensures
        *final(current) == preset_installed(*old(current), loaded),
        !final(current).rf_enabled,
{
    let stream_enabled = current.stream_enabled;
    let stream_port = current.stream_port;
    *current = loaded;
    current.rf_enabled = false;
    current.stream_enabled = stream_enabled;
    current.stream_port = stream_port;
}

/// A row of the mixer with its label. A label without indent heads a section,
/// a label indented by two blanks belongs to the section above it, and an
/// empty label is a spacer.
pub struct ChannelInfo {
    pub name: String,
    pub id: ChannelId,
}

/// Which sections of the mixer are folded.
#[derive(Clone, Copy, Debug, PartialEq, Eq, Structural)]
pub struct CollapseState {
    pub signal_layer: bool,
    pub hackrf: bool,
    pub streaming: bool,
}

/// What the fold key acts on.
#[derive(Clone, Copy, Debug, PartialEq, Eq, Structural)]
pub enum CollapseTarget {
    /// The description of the preset, which cycles through its modes.
    PresetInfo,
    SignalLayer,
    Hackrf,
    Streaming,
}

/// The labels of a list of rows.
pub open spec fn labels(channels: Seq<ChannelInfo>) -> Seq<Seq<char>> {
    Seq::new(channels.len(), |i: int| channels[i].name@)
}

/// Whether a label belongs to the section above it.
pub open spec fn is_child(label: Seq<char>) -> bool {
    "  "@.is_prefix_of(label)
}

/// Whether a label heads a section.
pub open spec fn is_heading(label: Seq<char>) -> bool {
    label.len() > 0 && !is_child(label)
}

/// What the fold key acts on at a label, if on anything.
pub open spec fn target_of(label: Seq<char>) -> Option<CollapseTarget> {
    if label == "PRESET:"@ {
        Some(CollapseTarget::PresetInfo)
    } else if label == "SIGNAL LAYER"@ {
        Some(CollapseTarget::SignalLayer)
    } else if label == "HACKRF TRANSMIT"@ {
        Some(CollapseTarget::Hackrf)
    } else if "NETWORK STREAMING"@.is_prefix_of(label) {
        Some(CollapseTarget::Streaming)
    } else {
        None
    }
}

/// Finds what the fold key acts on at a label.
pub fn collapse_target(label: &str) -> (target: Option<CollapseTarget>)
    ensures
        target == target_of(label@),
{
    if same_text(label, "PRESET:") {
        Some(CollapseTarget::PresetInfo)
    } else if same_text(label, "SIGNAL LAYER") {
        Some(CollapseTarget::SignalLayer)
    } else if same_text(label, "HACKRF TRANSMIT") {
        Some(CollapseTarget::Hackrf)
    } else if has_prefix(label, "NETWORK STREAMING") {
        Some(CollapseTarget::Streaming)
    } else {
        None
    }
}

/// The folds after the fold key was pressed on a target.
pub open spec fn folds_after(folds: CollapseState, target: Option<CollapseTarget>)
    -> CollapseState {
    match target {
        Some(CollapseTarget::SignalLayer) => CollapseState {
            signal_layer: !folds.signal_layer,
            ..folds
        },
        Some(CollapseTarget::Hackrf) => CollapseState { hackrf: !folds.hackrf, ..folds },
        Some(CollapseTarget::Streaming) => CollapseState { streaming: !folds.streaming, ..folds },
        _ => folds,
    }
}

/// Applies the fold key to the row with the given label: a section heading
/// folds or unfolds its section, the preset heading moves the description to
/// its next mode, and any other row is left alone. Returns what was acted on.
pub fn toggle_collapse(label: &str, folds: &mut CollapseState, mode: &mut PresetDescMode) -> (target:
    Option<CollapseTarget>)
    ensures
        target == target_of(label@),
        *final(folds) == folds_after(*old(folds), target),
        *final(mode) == if target == Some(CollapseTarget::PresetInfo) {
            old(mode).spec_next()
        } else {
            *old(mode)
        },
{
    let target = collapse_target(label);
    match target {
        Some(CollapseTarget::PresetInfo) => {
            *mode = mode.next();
        },
        Some(CollapseTarget::SignalLayer) => {
            folds.signal_layer = !folds.signal_layer;
        },
        Some(CollapseTarget::Hackrf) => {
            folds.hackrf = !folds.hackrf;
        },
        Some(CollapseTarget::Streaming) => {
            folds.streaming = !folds.streaming;
        },
        None => {},
    }
    target
}

/// Whether the section under a heading is folded.
pub open spec fn section_folded(heading: Seq<char>, folds: CollapseState) -> bool {
    match target_of(heading) {
        Some(CollapseTarget::SignalLayer) => folds.signal_layer,
        Some(CollapseTarget::Hackrf) => folds.hackrf,
        Some(CollapseTarget::Streaming) => folds.streaming,
        _ => false,
    }
}

/// The heading of the section that the row at `index` stands in: the nearest
/// heading above the row, if there is one.
pub open spec fn heading_above(labels: Seq<Seq<char>>, index: int) -> Option<int>
    decreases index,
{
    if index <= 0 {
        None
    } else if is_heading(labels[index - 1]) {
        Some(index - 1)
    } else {
        heading_above(labels, index - 1)
    }
}

/// Whether a row is out of sight because its section is folded. Only the
/// indented rows of a section fold away; headings and spacers stay.
pub open spec fn folded_away(labels: Seq<Seq<char>>, index: int, folds: CollapseState) -> bool {
    is_child(labels[index]) && match heading_above(labels, index) {
        Some(heading) => section_folded(labels[heading], folds),
        None => false,
    }
}

/// Decides whether the row at `index` is hidden by a folded section.
pub fn hidden_by_section(channels: &[ChannelInfo], index: usize, folds: &CollapseState) -> (hidden:
    bool)
    requires
        index < channels@.len(),
    ensures
        hidden == folded_away(labels(channels@), index as int, *folds),
{
    assert(labels(channels@)[index as int] == channels@[index as int].name@);
    if !has_prefix(channels[index].name.as_str(), "  ") {
        return false;
    }
    let mut at: usize = index;
    while at > 0
        invariant
            at <= index,
            index < channels@.len(),
            is_child(labels(channels@)[index as int]),
            heading_above(labels(channels@), index as int) == heading_above(
                labels(channels@),
                at as int,
            ),
        decreases at,
    {
        let label = channels[at - 1].name.as_str();
        assert(labels(channels@)[at - 1] == label@);
        if !label.is_empty() && !has_prefix(label, "  ") {
            assert(is_heading(labels(channels@)[at - 1]));
            assert(heading_above(labels(channels@), at as int) == Some(at - 1));
            let folded = match collapse_target(label) {
                Some(CollapseTarget::SignalLayer) => folds.signal_layer,
                Some(CollapseTarget::Hackrf) => folds.hackrf,
                Some(CollapseTarget::Streaming) => folds.streaming,
                _ => false,
            };
            return folded;
        }
        at -= 1;
    }
    false
}

} // verus!
