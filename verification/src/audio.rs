//! Waveform kinds, the configuration snapshot, and the per-sample timing and
//! routing decisions of the signal synthesis engine.

use vstd::prelude::*;
use crate::coherence::{
    counted, elapsed_ms, frame_of, fresh_coherence, session_start, state_after_sample, ticked,
    BeingType, CoherenceFrame, CoherenceParams, CoherenceState, CoherenceSynth, SessionPhase,
};
use crate::constants::{
    CHIRP_PERIOD_SECS, CHIRP_WINDOWS_PER_SEC, DEFAULT_MASTER_VOLUME_PPM, DEFAULT_RF_GAIN_DB,
    DEFAULT_STREAM_PORT, DEFAULT_ULTRASONIC_PING_HZ, FULL_SCALE_PPM, HYDROGEN_LINE_HZ,
    NBFM_DEVIATION_HZ, WBFM_DEVIATION_HZ,
};

verus! {

/// The closed catalogue of signal shapes and modulation markers.
#[derive(Clone, Copy, Debug, PartialEq, Eq, Structural)]
pub enum SignalType {
    /// Base carrier, amplitude modulated by the resonance tone.
    SchumannAM,
    /// Base carrier marked for frequency modulation by the resonance tone.
    SchumannFM,
    /// High carrier, amplitude modulated by the resonance tone.
    Schumann783AM,
    Sine100Hz,
    Sine,
    Triangle,
    Square,
    Saw,
    WhiteNoise,
    PinkNoise,
    /// White noise under a slow breathing envelope.
    LfoBreathing,
    OrganicChirp,
    SyntheticChirp,
    /// Wideband FM.
    WBFM,
    /// Narrowband FM.
    NBFM,
    AM,
}

/// The four periodic shapes an oscillator can take.
#[derive(Clone, Copy, Debug, PartialEq, Eq, Structural)]
pub enum WaveShape {
    Sine,
    Triangle,
    Square,
    Saw,
}

/// How the carrier layer is voiced.
#[derive(Clone, Copy, Debug, PartialEq, Eq, Structural)]
pub enum CarrierVoice {
    /// Base carrier under the resonance envelope.
    BaseAm,
    /// High carrier under the resonance envelope.
    HighAm,
    /// Plain sine at the base carrier.
    BaseSine,
    /// Hard square at the base carrier.
    BaseSquare,
}

/// How the chirp frequency moves inside its window.
#[derive(Clone, Copy, Debug, PartialEq, Eq, Structural)]
pub enum ChirpSweep {
    /// Sinusoidal wobble around the base frequency.
    Organic,
    /// Linear rise from the low to the high sweep frequency.
    Synthetic,
    /// No sweep: the base frequency throughout.
    Steady,
}

/// How the breath layer is voiced.
#[derive(Clone, Copy, Debug, PartialEq, Eq, Structural)]
pub enum BreathVoice {
    /// Noise under the squared breathing envelope.
    Breathing,
    White,
    /// White noise under a fixed attenuation.
    Pink,
    /// The slow oscillator itself, without noise.
    Drone,
}

/// How a baseband value is put on the radio carrier.
#[derive(Clone, Copy, Debug, PartialEq, Eq, Structural)]
pub enum RfModulation {
    /// Amplitude in the in-phase channel, quadrature at zero.
    Am,
    /// Frequency deviation integrated into a running phase.
    Fm { deviation_hz: u32 },
}

impl SignalType {
    /// Shape of a generic oscillator of this kind. Kinds that name no periodic
    /// shape fall back to sine.
    pub open spec fn spec_wave_shape(self) -> WaveShape {
        match self {
            SignalType::Triangle => WaveShape::Triangle,
            SignalType::Square => WaveShape::Square,
            SignalType::Saw => WaveShape::Saw,
            _ => WaveShape::Sine,
        }
    }

    /// Shape used both to generate a generic layer from its phase and to
    /// reshape a baseband value for the radio, where sine leaves the value as
    /// it is.
    pub fn wave_shape(self) -> (shape: WaveShape)
        ensures
            shape == self.spec_wave_shape(),
            shape != WaveShape::Sine ==> (self == SignalType::Triangle || self == SignalType::Square
                || self == SignalType::Saw),
    {
        match self {
            SignalType::Triangle => WaveShape::Triangle,
            SignalType::Square => WaveShape::Square,
            SignalType::Saw => WaveShape::Saw,
            _ => WaveShape::Sine,
        }
    }

    pub open spec fn spec_carrier_voice(self) -> CarrierVoice {
        match self {
            SignalType::SchumannAM => CarrierVoice::BaseAm,
            SignalType::Schumann783AM => CarrierVoice::HighAm,
            SignalType::Square => CarrierVoice::BaseSquare,
            _ => CarrierVoice::BaseSine,
        }
    }

    /// Voice of the carrier layer for this kind. The kind marked for frequency
    /// modulation sounds as the plain base sine, as does every kind that names
    /// no carrier voice.
    pub fn carrier_voice(self) -> (voice: CarrierVoice)
        ensures
            voice == self.spec_carrier_voice(),
            self == SignalType::SchumannFM ==> voice == CarrierVoice::BaseSine,
    {
        match self {
            SignalType::SchumannAM => CarrierVoice::BaseAm,
            SignalType::Schumann783AM => CarrierVoice::HighAm,
            SignalType::Square => CarrierVoice::BaseSquare,
            _ => CarrierVoice::BaseSine,
        }
    }

    pub open spec fn spec_chirp_sweep(self) -> ChirpSweep {
        match self {
            SignalType::OrganicChirp => ChirpSweep::Organic,
            SignalType::SyntheticChirp => ChirpSweep::Synthetic,
            _ => ChirpSweep::Steady,
        }
    }

    /// Frequency sweep of the chirp layer for this kind.
    pub fn chirp_sweep(self) -> (sweep: ChirpSweep)
        ensures
            sweep == self.spec_chirp_sweep(),
    {
        match self {
            SignalType::OrganicChirp => ChirpSweep::Organic,
            SignalType::SyntheticChirp => ChirpSweep::Synthetic,
            _ => ChirpSweep::Steady,
        }
    }

    pub open spec fn spec_chirp_shape(self) -> WaveShape {
        match self {
            SignalType::Square => WaveShape::Square,
            SignalType::Saw => WaveShape::Saw,
            _ => WaveShape::Sine,
        }
    }

    /// Shape of the tone inside a chirp: square and saw are kept, every other
    /// kind (the two chirp kinds among them) sounds as a sine.
    pub fn chirp_shape(self) -> (shape: WaveShape)
        ensures
            shape == self.spec_chirp_shape(),
            shape != WaveShape::Triangle,
            self.spec_chirp_sweep() != ChirpSweep::Steady ==> shape == WaveShape::Sine,
    {
        match self {
            SignalType::Square => WaveShape::Square,
            SignalType::Saw => WaveShape::Saw,
            _ => WaveShape::Sine,
        }
    }

    pub open spec fn spec_breath_voice(self) -> BreathVoice {
        match self {
            SignalType::LfoBreathing => BreathVoice::Breathing,
            SignalType::PinkNoise => BreathVoice::Pink,
            SignalType::Sine => BreathVoice::Drone,
            _ => BreathVoice::White,
        }
    }

    /// Voice of the breath layer for this kind; kinds that name none give
    /// plain white noise.
    pub fn breath_voice(self) -> (voice: BreathVoice)
        ensures
            voice == self.spec_breath_voice(),
    {
        match self {
            SignalType::LfoBreathing => BreathVoice::Breathing,
            SignalType::PinkNoise => BreathVoice::Pink,
            SignalType::Sine => BreathVoice::Drone,
            _ => BreathVoice::White,
        }
    }

    pub open spec fn spec_rf_modulation(self) -> RfModulation {
        match self {
            SignalType::AM => RfModulation::Am,
            SignalType::NBFM => RfModulation::Fm { deviation_hz: NBFM_DEVIATION_HZ },
            _ => RfModulation::Fm { deviation_hz: WBFM_DEVIATION_HZ },
        }
    }

    /// Modulation scheme selected by this kind. Only the amplitude marker gives
    /// AM and only the narrowband marker the narrow deviation; every other kind
    /// transmits as wideband FM.
    pub fn rf_modulation(self) -> (modulation: RfModulation)
        ensures
            modulation == self.spec_rf_modulation(),
    {
        match self {
            SignalType::AM => RfModulation::Am,
            SignalType::NBFM => RfModulation::Fm { deviation_hz: NBFM_DEVIATION_HZ },
            _ => RfModulation::Fm { deviation_hz: WBFM_DEVIATION_HZ },
        }
    }
}

/// The configuration snapshot that the playback, radio and streaming loops
/// read. Levels are in parts per million of full scale.
#[derive(Clone, Copy, Debug, PartialEq, Eq, Structural)]
pub struct AudioParams {
    pub carrier_vol_ppm: u32,
    pub carrier_type: SignalType,
    pub harmonic_vol_ppm: u32,
    pub harmonic_type: SignalType,
    pub ping_vol_ppm: u32,
    pub ping_type: SignalType,
    pub ping_freq_hz: u32,
    pub chirp_vol_ppm: u32,
    pub chirp_type: SignalType,
    pub pad_vol_ppm: u32,
    pub pad_type: SignalType,
    pub breath_vol_ppm: u32,
    pub breath_type: SignalType,
    pub master_vol_ppm: u32,
    pub playing: bool,
    pub rf_enabled: bool,
    pub rf_freq_hz: u64,
    pub rf_gain: u32,
    pub rf_mode: SignalType,
    pub rf_pulse_type: SignalType,
    /// Written by the radio worker: whether the transmitter hardware answers.
    pub rf_detected: bool,
    /// Silences the six signal layers; the coherence engine is not affected.
    pub lock_signal_layer: bool,
    pub stream_enabled: bool,
    pub stream_port: u16,
    pub coherence: CoherenceParams,
    /// Telemetry written back by the playback loop.
    pub session_timer_ms: u64,
    pub session_phase: SessionPhase,
}

impl Default for AudioParams {
    /// All six layers silent, master level low, playback on, and both the
    /// radio and the network stream switched off.
    fn default() -> (params: Self)
        ensures
            params == (AudioParams {
                carrier_vol_ppm: 0,
                carrier_type: SignalType::SchumannAM,
                harmonic_vol_ppm: 0,
                harmonic_type: SignalType::Sine,
                ping_vol_ppm: 0,
                ping_type: SignalType::Sine,
                ping_freq_hz: DEFAULT_ULTRASONIC_PING_HZ,
                chirp_vol_ppm: 0,
                chirp_type: SignalType::OrganicChirp,
                pad_vol_ppm: 0,
                pad_type: SignalType::Sine,
                breath_vol_ppm: 0,
                breath_type: SignalType::LfoBreathing,
                master_vol_ppm: DEFAULT_MASTER_VOLUME_PPM,
                playing: true,
                rf_enabled: false,
                rf_freq_hz: HYDROGEN_LINE_HZ,
                rf_gain: DEFAULT_RF_GAIN_DB,
                rf_mode: SignalType::WBFM,
                rf_pulse_type: SignalType::Sine,
                rf_detected: false,
                lock_signal_layer: false,
                stream_enabled: false,
                stream_port: DEFAULT_STREAM_PORT,
                coherence: fresh_coherence(),
                session_timer_ms: 0,
                session_phase: SessionPhase::Startup,
            }),
            !params.rf_enabled && !params.stream_enabled,
    {
        AudioParams {
            carrier_vol_ppm: 0,
            carrier_type: SignalType::SchumannAM,
            harmonic_vol_ppm: 0,
            harmonic_type: SignalType::Sine,
            ping_vol_ppm: 0,
            ping_type: SignalType::Sine,
            ping_freq_hz: DEFAULT_ULTRASONIC_PING_HZ,
            chirp_vol_ppm: 0,
            chirp_type: SignalType::OrganicChirp,
            pad_vol_ppm: 0,
            pad_type: SignalType::Sine,
            breath_vol_ppm: 0,
            breath_type: SignalType::LfoBreathing,
            master_vol_ppm: DEFAULT_MASTER_VOLUME_PPM,
            playing: true,
            rf_enabled: false,
            rf_freq_hz: HYDROGEN_LINE_HZ,
            rf_gain: DEFAULT_RF_GAIN_DB,
            rf_mode: SignalType::WBFM,
            rf_pulse_type: SignalType::Sine,
            rf_detected: false,
            lock_signal_layer: false,
            stream_enabled: false,
            stream_port: DEFAULT_STREAM_PORT,
            coherence: CoherenceParams::default(),
            session_timer_ms: 0,
            session_phase: SessionPhase::Startup,
        }
    }
}

/// What the chirp layer sounds for one sample.
#[derive(Clone, Copy, Debug, PartialEq, Eq, Structural)]
pub enum ChirpFrame {
    /// Outside the active window: the output is zero and the chirp phase
    /// returns to zero.
    Silent,
    /// Inside the window, `elapsed_samples` after the cycle began.
    Sounding { sweep: ChirpSweep, shape: WaveShape, elapsed_samples: u64, envelope_ppm: u32 },
}

/// What each of the six signal layers sounds for one sample.
#[derive(Clone, Copy, Debug, PartialEq, Eq, Structural)]
pub struct SignalComponents {
    pub carrier: CarrierVoice,
    pub harmonic: WaveShape,
    pub ping: WaveShape,
    pub chirp: ChirpFrame,
    pub pad: WaveShape,
    pub breath: BreathVoice,
}

/// One sample of speaker playback: the six layers, whether their mix is heard
/// at all, the coherence pair that is added to it on each side, and the master
/// level that scales the sum.
#[derive(Clone, Copy, Debug, PartialEq, Eq, Structural)]
pub struct StereoFrame {
    pub components: SignalComponents,
    /// False while the signal layer is locked: its mix then counts as zero.
    pub signal_audible: bool,
    pub coherence: CoherenceFrame,
    pub master_vol_ppm: u32,
}

/// Where the radio baseband of one sample comes from.
#[derive(Clone, Copy, Debug, PartialEq, Eq, Structural)]
pub enum RfSource {
    /// The six layers, the carrier layer replaced by the continuous resonance
    /// envelope.
    SignalLayer,
    /// The two coherence channels, averaged to mono.
    Coherence(CoherenceFrame),
}

/// One sample of radio baseband.
#[derive(Clone, Copy, Debug, PartialEq, Eq, Structural)]
pub struct RfFrame {
    pub components: SignalComponents,
    pub source: RfSource,
    pub master_vol_ppm: u32,
}

/// Samples in one chirp cycle before the timer starts over.
pub open spec fn chirp_period(rate: nat) -> nat {
    CHIRP_PERIOD_SECS as nat * rate
}

/// The chirp timer after one more sample: it counts up and starts over once
/// it has passed the period.
pub open spec fn chirp_timer_after(timer: nat, rate: nat) -> nat {
    if timer + 1 > chirp_period(rate) {
        0
    } else {
        timer + 1
    }
}

/// Place of a timer value in the chirp cycle, in units in which the active
/// window is `rate` long: the window is the first fifth of a second of the
/// cycle, and a sample is five units.
pub open spec fn window_position(timer: int) -> int {
    CHIRP_WINDOWS_PER_SEC as int * timer
}

/// Whether a timer value lies in the active window.
pub open spec fn chirp_in_window(timer: int, rate: int) -> bool {
    window_position(timer) < rate
}

/// A triangle over a span: twice the distance of a position from the nearer
/// end, so zero at both ends and the span itself in the middle.
pub open spec fn triangle(position: int, span: int) -> int {
    if 2 * position < span {
        2 * position
    } else {
        2 * (span - position)
    }
}

/// Triangular envelope at a place in the window, in parts per million of
/// full scale: it rises linearly to full scale at the middle of the window and
/// falls back linearly to zero at its end.
pub open spec fn envelope_ppm_at(position: int, rate: int) -> int {
    triangle(position, rate) * FULL_SCALE_PPM as int / rate
}

/// Envelope of the chirp at a timer value.
pub open spec fn chirp_envelope_ppm(timer: int, rate: int) -> int {
    envelope_ppm_at(window_position(timer), rate)
}

/// Chirp output for a timer value: silent outside the window, and inside it
/// the sweep and shape of the selected kind under the triangular envelope.
pub open spec fn chirp_frame_of(timer: nat, rate: nat, kind: SignalType) -> ChirpFrame {
    if chirp_in_window(timer as int, rate as int) {
        ChirpFrame::Sounding {
            sweep: kind.spec_chirp_sweep(),
            shape: kind.spec_chirp_shape(),
            elapsed_samples: timer as u64,
            envelope_ppm: chirp_envelope_ppm(timer as int, rate as int) as u32,
        }
    } else {
        ChirpFrame::Silent
    }
}

/// Abstract state of a synthesis engine.
pub struct SynthState {
    pub sample_rate: nat,
    pub chirp_timer: nat,
    pub coherence: CoherenceState,
}

/// The six layers of the sample that follows `state`.
pub open spec fn components_of(state: SynthState, params: AudioParams) -> SignalComponents {
    SignalComponents {
        carrier: params.carrier_type.spec_carrier_voice(),
        harmonic: params.harmonic_type.spec_wave_shape(),
        ping: params.ping_type.spec_wave_shape(),
        chirp: chirp_frame_of(
            chirp_timer_after(state.chirp_timer, state.sample_rate),
            state.sample_rate,
            params.chirp_type,
        ),
        pad: params.pad_type.spec_wave_shape(),
        breath: params.breath_type.spec_breath_voice(),
    }
}

/// Whether speaker playback consults the coherence engine: only once a target
/// is selected.
pub open spec fn coherence_selected(params: AudioParams) -> bool {
    params.coherence.being_type != BeingType::Unknown
}

/// Speaker frame of the sample that follows `state`, for a playing
/// configuration.
pub open spec fn stereo_frame_of(state: SynthState, params: AudioParams) -> StereoFrame {
    StereoFrame {
        components: components_of(state, params),
        signal_audible: !params.lock_signal_layer,
        coherence: if coherence_selected(params) {
            frame_of(state.coherence, params.coherence)
        } else {
            CoherenceFrame::Silent
        },
        master_vol_ppm: params.master_vol_ppm,
    }
}

/// State after a speaker sample of a playing configuration. The chirp cycle
/// moves on, and the session clock counts the sample: through the coherence
/// engine where it generates, and by itself where no target is selected or
/// the engine is disabled.
pub open spec fn state_after_stereo(state: SynthState, params: AudioParams) -> SynthState {
    SynthState {
        sample_rate: state.sample_rate,
        chirp_timer: chirp_timer_after(state.chirp_timer, state.sample_rate),
        coherence: state_after_sample(
            state.coherence,
            params.coherence,
            coherence_selected(params),
        ),
    }
}

/// Radio frame of the sample that follows `state`.
pub open spec fn rf_frame_of(state: SynthState, params: AudioParams) -> RfFrame {
    RfFrame {
        components: components_of(state, params),
        source: if params.lock_signal_layer {
            RfSource::Coherence(frame_of(state.coherence, params.coherence))
        } else {
            RfSource::SignalLayer
        },
        master_vol_ppm: params.master_vol_ppm,
    }
}

/// State after a radio sample. The chirp cycle moves on, and the session
/// clock counts the sample: through the coherence engine where it generates,
/// and by itself where the signal layer is unlocked or the engine is disabled.
pub open spec fn state_after_rf(state: SynthState, params: AudioParams) -> SynthState {
    SynthState {
        sample_rate: state.sample_rate,
        chirp_timer: chirp_timer_after(state.chirp_timer, state.sample_rate),
        coherence: state_after_sample(state.coherence, params.coherence, params.lock_signal_layer),
    }
}

/// Outside its active window the chirp is silent, whatever kind is selected,
/// and inside the window it sounds.
pub proof fn lemma_chirp_silent_outside_window(timer: nat, rate: nat, kind: SignalType)
    ensures
        !chirp_in_window(timer as int, rate as int) <==> chirp_frame_of(timer, rate, kind)
            == ChirpFrame::Silent,
{
}

/// The chirp envelope is symmetric about the middle of the active window: a
/// place in the window and its mirror image, as far from the end of the window
/// as the place is from its start, have the same envelope. At both ends of the
/// window the envelope is zero, in the middle it is full scale where the
/// window has a middle place, and it never exceeds full scale.
pub proof fn lemma_chirp_envelope_symmetric(position: int, rate: int)
    requires
        rate > 0,
        0 <= position <= rate,
    ensures
        envelope_ppm_at(position, rate) == envelope_ppm_at(rate - position, rate),
        0 <= envelope_ppm_at(position, rate) <= FULL_SCALE_PPM,
        envelope_ppm_at(0, rate) == 0,
        envelope_ppm_at(rate, rate) == 0,
        2 * position == rate ==> envelope_ppm_at(position, rate) == FULL_SCALE_PPM,
{
    let raw = triangle(position, rate);
    assert(raw == triangle(rate - position, rate));
    assert(0 <= raw <= rate);
    assert(0 <= (raw * 1_000_000) / rate <= 1_000_000) by (nonlinear_arith)
        requires
            0 <= raw <= rate,
            rate > 0,
    ;
    assert((0int * 1_000_000) / rate == 0) by (nonlinear_arith)
        requires
            rate > 0,
    ;
    assert((rate * 1_000_000) / rate == 1_000_000) by (nonlinear_arith)
        requires
            rate > 0,
    ;
}

/// Two samples of a chirp that lie equally far from the two ends of the
/// window, so that together they span it exactly, sound under the same
/// envelope.
pub proof fn lemma_chirp_samples_mirror(timer: int, mirrored: int, rate: int)
    requires
        rate > 0,
        0 <= timer,
        0 <= mirrored,
        window_position(timer) + window_position(mirrored) == rate,
    ensures
        chirp_envelope_ppm(timer, rate) == chirp_envelope_ppm(mirrored, rate),
{
    lemma_chirp_envelope_symmetric(window_position(timer), rate);
}

/// Timing state of one synthesis engine: the chirp cycle timer and the
/// coherence engine it owns. Each consumer loop drives an engine of its own.
pub struct Synthesizer {
    sample_rate: u32,
    chirp_timer: u64,
    coherence: CoherenceSynth,
}

impl View for Synthesizer {
    type V = SynthState;

    closed spec fn view(&self) -> SynthState {
        SynthState {
            sample_rate: self.sample_rate as nat,
            chirp_timer: self.chirp_timer as nat,
            coherence: self.coherence@,
        }
    }
}

impl Synthesizer {
    /// The chirp timer stays within one period, and the coherence engine runs
    /// at the same sample rate.
    #[verifier::type_invariant]
    spec fn bounded(self) -> bool {
        &&& self.chirp_timer <= chirp_period(self.sample_rate as nat)
        &&& self.coherence@.sample_rate == self.sample_rate
    }

    /// A fresh engine at the start of a chirp cycle and of a session.
    pub fn new(sample_rate: u32) -> (synth: Self)
        ensures
            synth@.sample_rate == sample_rate,
            synth@.chirp_timer == 0,
            synth@.coherence == session_start(sample_rate as nat),
    {
        Synthesizer { sample_rate, chirp_timer: 0, coherence: CoherenceSynth::new(sample_rate) }
    }

    /// Advances the chirp cycle by one sample and decides what each of the six
    /// layers sounds for it.
    pub fn generate_signal_components(&mut self, params: &AudioParams) -> (components:
        SignalComponents)
        ensures
            components == components_of(old(self)@, *params),
            final(self)@ == (SynthState {
                chirp_timer: chirp_timer_after(old(self)@.chirp_timer, old(self)@.sample_rate),
                ..old(self)@
            }),
    {
        proof {
            use_type_invariant(&*self);
        }
        let rate: u64 = self.sample_rate as u64;
        let mut timer: u64 = self.chirp_timer + 1;
        if timer > CHIRP_PERIOD_SECS * rate {
            timer = 0;
        }
        self.chirp_timer = timer;
        let into_window: u64 = CHIRP_WINDOWS_PER_SEC * timer;
        let chirp = if into_window < rate {
            let rising: u64 = 2 * into_window;
            let raw: u64 = if rising < rate { rising } else { 2 * rate - rising };
            assert(raw == triangle(window_position(timer as int), rate as int));
            assert(0 <= (raw * 1_000_000) as int / rate as int <= 1_000_000) by (nonlinear_arith)
                requires
                    0 <= raw <= rate,
                    rate > 0,
            ;
            assert((raw * 1_000_000) as int / rate as int == chirp_envelope_ppm(
                timer as int,
                rate as int,
            ));
            ChirpFrame::Sounding {
                sweep: params.chirp_type.chirp_sweep(),
                shape: params.chirp_type.chirp_shape(),
                elapsed_samples: timer,
                envelope_ppm: (raw * (FULL_SCALE_PPM as u64) / rate) as u32,
            }
        } else {
            ChirpFrame::Silent
        };
        SignalComponents {
            carrier: params.carrier_type.carrier_voice(),
            harmonic: params.harmonic_type.wave_shape(),
            ping: params.ping_type.wave_shape(),
            chirp,
            pad: params.pad_type.wave_shape(),
            breath: params.breath_type.breath_voice(),
        }
    }

    /// Decides one sample of speaker playback. A paused configuration yields
    /// nothing and leaves every timer where it is, the session clock included.
    /// Otherwise the six layers are generated, their mix is audible unless the
    /// signal layer is locked, the coherence engine contributes once a target
    /// is selected, and the session clock counts the sample, whether the
    /// coherence engine generates or not.
    pub fn next_sample(&mut self, params: &AudioParams) -> (frame: Option<StereoFrame>)
        ensures
            !params.playing ==> frame.is_none() && final(self)@ == old(self)@,
            params.playing ==> frame == Some(stereo_frame_of(old(self)@, *params)) && final(self)@
                == state_after_stereo(old(self)@, *params),
            params.playing ==> final(self)@.coherence.session_samples == counted(
                old(self)@.coherence.session_samples,
            ),
    {
        if !params.playing {
            return None;
        }
        proof {
            use_type_invariant(&*self);
        }
        let components = self.generate_signal_components(params);
        let consulted: bool = params.coherence.being_type != BeingType::Unknown;
        let coherence = self.coherence.advance(&params.coherence, consulted);
        Some(
            StereoFrame {
                components,
                signal_audible: !params.lock_signal_layer,
                coherence,
                master_vol_ppm: params.master_vol_ppm,
            },
        )
    }

    /// Advances the session clock of the coherence engine by one sample
    /// without generating audio, for a host that keeps session time while it
    /// generates nothing.
    pub fn update_timer(&mut self, params: &CoherenceParams)
        ensures
            final(self)@ == (SynthState {
                coherence: ticked(old(self)@.coherence, *params),
                ..old(self)@
            }),
    {
        proof {
            use_type_invariant(&*self);
        }
        self.coherence.update_timer(params);
    }

    /// Returns the coherence engine to the start of a session. The chirp
    /// cycle goes on.
    pub fn reset_session(&mut self)
        ensures
            final(self)@ == (SynthState {
                coherence: session_start(old(self)@.sample_rate),
                ..old(self)@
            }),
    {
        proof {
            use_type_invariant(&*self);
        }
        self.coherence.reset();
    }

    /// Samples elapsed in the session, and its current phase.
    pub fn get_session_info(&self) -> (info: (u64, SessionPhase))
        ensures
            info.0 == self@.coherence.session_samples,
            info.1 == self@.coherence.phase,
    {
        self.coherence.get_session_info()
    }

    /// Session time in whole milliseconds.
    pub fn session_timer_ms(&self) -> (ms: u64)
        ensures
            ms == elapsed_ms(self@.coherence.session_samples, self@.coherence.sample_rate),
    {
        self.coherence.session_timer_ms()
    }

    /// Sample rate the engine runs at.
    pub fn sample_rate(&self) -> (rate: u32)
        ensures
            rate == self@.sample_rate,
    {
        self.sample_rate
    }

    /// Decides one sample of radio baseband. The six layers are generated as
    /// for playback; a locked signal layer hands the baseband to the coherence
    /// engine alone, an unlocked one to the six layers alone. The session
    /// clock counts the sample either way.
    pub fn next_rf_sample(&mut self, params: &AudioParams) -> (frame: RfFrame)
        ensures
            frame == rf_frame_of(old(self)@, *params),
            final(self)@ == state_after_rf(old(self)@, *params),
            final(self)@.coherence.session_samples == counted(
                old(self)@.coherence.session_samples,
            ),
    {
        proof {
            use_type_invariant(&*self);
        }
        let components = self.generate_signal_components(params);
        let tone = self.coherence.advance(&params.coherence, params.lock_signal_layer);
        let source = if params.lock_signal_layer {
            RfSource::Coherence(tone)
        } else {
            RfSource::SignalLayer
        };
        RfFrame { components, source, master_vol_ppm: params.master_vol_ppm }
    }
}

} // verus!
