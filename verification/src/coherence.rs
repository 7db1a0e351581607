//! Binaural coherence: its configuration, the session-phase state machine, the
//! gamma-burst sub-state and the per-sample decisions of the stereo tone pair.
//!
//! Time is counted in samples and compared with durations given in
//! milliseconds by cross-multiplying with the sample rate, so no clock value is
//! ever rounded. Frequencies are in millihertz, levels in parts per million.
//!
//! The session clock counts samples. Generating a sample counts it; for the
//! samples in which the engine is silent there is `update_timer`, which moves
//! the clock alone, and `advance` chooses between the two, so that a running
//! host counts every sample exactly once. The gain of a sample is the gain at
//! the session time at which the sample begins.

use vstd::prelude::*;
use crate::constants::{
    ALPHA_MAX_MILLIHZ, BEAT_MAX_MILLIHZ, BEAT_MIN_MILLIHZ, BETA_MAX_MILLIHZ,
    DEFAULT_COHERENCE_VOLUME_PPM, DEFAULT_CUSTOM_BINAURAL_MILLIHZ, DEFAULT_INDUCTION_DURATION_MS,
    DEFAULT_RETURN_DURATION_MS, DEFAULT_STABILIZATION_DURATION_MS, DEFAULT_STARTUP_DURATION_MS,
    DELTA_MAX_MILLIHZ, FULL_SCALE_PPM, GAMMA_BURST_DURATION_SECS, GAMMA_BURST_INTERVAL_SECS,
    OPTIMAL_CARRIER_MILLIHZ, RETURN_FLOOR_PPM, THETA_MAX_MILLIHZ,
};

verus! {

/// Stage of a paced listening session.
#[derive(Clone, Copy, Debug, PartialEq, Eq, Structural)]
pub enum SessionPhase {
    /// Gain ramps up from silence.
    Startup,
    /// Full intensity.
    Induction,
    /// Full intensity, sustained.
    Stabilization,
    /// Gain ramps down to the return floor.
    Return,
}

impl SessionPhase {
    /// Position of the phase in the order a session runs through.
    pub open spec fn rank(self) -> int {
        match self {
            SessionPhase::Startup => 0,
            SessionPhase::Induction => 1,
            SessionPhase::Stabilization => 2,
            SessionPhase::Return => 3,
        }
    }
}

/// Named entrainment targets; `Unknown` selects none.
#[derive(Clone, Copy, Debug, PartialEq, Eq, Structural)]
pub enum BeingType {
    Unknown,
    HumanFocus10,
    HumanFocus12,
    HumanFocus15,
    HumanFocus21,
    HumanCustom,
}

impl BeingType {
    pub open spec fn spec_default_preset_filename(self) -> Seq<char> {
        match self {
            BeingType::Unknown => "DEFAULT_uap_frequencies.json"@,
            BeingType::HumanFocus10 => "DEFAULT_focus_10_mind_awake.json"@,
            BeingType::HumanFocus12 => "DEFAULT_focus_12_expanded.json"@,
            BeingType::HumanFocus15 => "DEFAULT_focus_15_no_time.json"@,
            BeingType::HumanFocus21 => "DEFAULT_focus_21_bridge.json"@,
            BeingType::HumanCustom => "DEFAULT_deep_focus_active.json"@,
        }
    }

    /// File name of the preset that stands for this target.
    pub fn default_preset_filename(&self) -> (name: &'static str)
        ensures
            name@ == self.spec_default_preset_filename(),
    {
        match self {
            BeingType::Unknown => "DEFAULT_uap_frequencies.json",
            BeingType::HumanFocus10 => "DEFAULT_focus_10_mind_awake.json",
            BeingType::HumanFocus12 => "DEFAULT_focus_12_expanded.json",
            BeingType::HumanFocus15 => "DEFAULT_focus_15_no_time.json",
            BeingType::HumanFocus21 => "DEFAULT_focus_21_bridge.json",
            BeingType::HumanCustom => "DEFAULT_deep_focus_active.json",
        }
    }
}

/// Carrier and beat of the pair that a gamma burst puts in place of the
/// configured carriers.
pub const GAMMA_CARRIER_MILLIHZ: u32 = 300_000;

pub const GAMMA_BEAT_MILLIHZ: u32 = 393_000;

/// Binaural configuration. The beat is never stored: it is the distance
/// between the two carriers.
#[derive(Clone, Copy, Debug, PartialEq, Eq, Structural)]
pub struct CoherenceParams {
    pub enabled: bool,
    pub being_type: BeingType,
    pub left_carrier_millihz: u32,
    pub right_carrier_millihz: u32,
    pub harmonic_220hz: bool,
    pub harmonic_495hz: bool,
    /// Target beat, used in custom mode only.
    pub custom_binaural_millihz: u32,
    pub volume_ppm: u32,
    pub startup_duration_ms: u32,
    pub induction_duration_ms: u32,
    pub stabilization_duration_ms: u32,
    pub return_duration_ms: u32,
}

/// Beat of two carriers: their distance.
pub open spec fn beat_of(left: u32, right: u32) -> nat {
    if left >= right { (left - right) as nat } else { (right - left) as nat }
}

/// Name of the brainwave band a beat falls in.
pub open spec fn band_name(beat_millihz: nat) -> Seq<char> {
    if beat_millihz < DELTA_MAX_MILLIHZ {
        "Delta (deep)"@
    } else if beat_millihz < THETA_MAX_MILLIHZ {
        "Theta (meditation)"@
    } else if beat_millihz < ALPHA_MAX_MILLIHZ {
        "Alpha (relaxed)"@
    } else if beat_millihz < BETA_MAX_MILLIHZ {
        "Beta (alert)"@
    } else {
        "Gamma (focus)"@
    }
}

/// A beat held to the range a custom beat may take.
pub open spec fn clamped_beat(target_millihz: u32) -> u32 {
    if target_millihz < BEAT_MIN_MILLIHZ {
        BEAT_MIN_MILLIHZ
    } else if target_millihz > BEAT_MAX_MILLIHZ {
        BEAT_MAX_MILLIHZ
    } else {
        target_millihz
    }
}

/// The binaural configuration a fresh snapshot starts with: the layer off, no
/// target selected, both carriers at the optimal carrier, and the
/// thirty-minute session of 2, 13, 10 and 5 minutes.
pub open spec fn fresh_coherence() -> CoherenceParams {
    CoherenceParams {
        enabled: false,
        being_type: BeingType::Unknown,
        left_carrier_millihz: OPTIMAL_CARRIER_MILLIHZ,
        right_carrier_millihz: OPTIMAL_CARRIER_MILLIHZ,
        harmonic_220hz: false,
        harmonic_495hz: false,
        custom_binaural_millihz: DEFAULT_CUSTOM_BINAURAL_MILLIHZ,
        volume_ppm: DEFAULT_COHERENCE_VOLUME_PPM,
        startup_duration_ms: DEFAULT_STARTUP_DURATION_MS,
        induction_duration_ms: DEFAULT_INDUCTION_DURATION_MS,
        stabilization_duration_ms: DEFAULT_STABILIZATION_DURATION_MS,
        return_duration_ms: DEFAULT_RETURN_DURATION_MS,
    }
}

impl Default for CoherenceParams {
    fn default() -> (params: Self)
        ensures
            params == fresh_coherence(),
    {
        CoherenceParams {
            enabled: false,
            being_type: BeingType::Unknown,
            left_carrier_millihz: OPTIMAL_CARRIER_MILLIHZ,
            right_carrier_millihz: OPTIMAL_CARRIER_MILLIHZ,
            harmonic_220hz: false,
            harmonic_495hz: false,
            custom_binaural_millihz: DEFAULT_CUSTOM_BINAURAL_MILLIHZ,
            volume_ppm: DEFAULT_COHERENCE_VOLUME_PPM,
            startup_duration_ms: DEFAULT_STARTUP_DURATION_MS,
            induction_duration_ms: DEFAULT_INDUCTION_DURATION_MS,
            stabilization_duration_ms: DEFAULT_STABILIZATION_DURATION_MS,
            return_duration_ms: DEFAULT_RETURN_DURATION_MS,
        }
    }
}

impl CoherenceParams {
    /// The configuration after a custom beat was applied: the beat is held to
    /// its range, the left carrier sits at the optimal carrier and the right
    /// one the beat above it; the low harmonic accompanies targets below the
    /// theta edge, the high harmonic targets below the delta edge.
    pub open spec fn with_custom_binaural(self, target_millihz: u32) -> CoherenceParams {
        CoherenceParams {
            custom_binaural_millihz: clamped_beat(target_millihz),
            left_carrier_millihz: OPTIMAL_CARRIER_MILLIHZ,
            right_carrier_millihz: (OPTIMAL_CARRIER_MILLIHZ + clamped_beat(target_millihz)) as u32,
            harmonic_220hz: target_millihz < THETA_MAX_MILLIHZ,
            harmonic_495hz: target_millihz < DELTA_MAX_MILLIHZ,
            ..self
        }
    }

    /// Sets a custom beat and derives carriers and harmonics from it.
    pub fn apply_custom_binaural(&mut self, target_millihz: u32)
        ensures
            *final(self) == old(self).with_custom_binaural(target_millihz),
            beat_of(final(self).left_carrier_millihz, final(self).right_carrier_millihz)
                == clamped_beat(target_millihz),
            BEAT_MIN_MILLIHZ <= final(self).custom_binaural_millihz <= BEAT_MAX_MILLIHZ,
    {
        let beat: u32 = if target_millihz < BEAT_MIN_MILLIHZ {
            BEAT_MIN_MILLIHZ
        } else if target_millihz > BEAT_MAX_MILLIHZ {
            BEAT_MAX_MILLIHZ
        } else {
            target_millihz
        };
        self.custom_binaural_millihz = beat;
        self.left_carrier_millihz = OPTIMAL_CARRIER_MILLIHZ;
        self.right_carrier_millihz = OPTIMAL_CARRIER_MILLIHZ + beat;
        self.harmonic_220hz = target_millihz < THETA_MAX_MILLIHZ;
        self.harmonic_495hz = target_millihz < DELTA_MAX_MILLIHZ;
    }

    /// Current beat: the distance between the two carriers.
    pub fn binaural_beat_millihz(&self) -> (beat: u32)
        ensures
            beat == beat_of(self.left_carrier_millihz, self.right_carrier_millihz),
    {
        if self.left_carrier_millihz >= self.right_carrier_millihz {
            self.left_carrier_millihz - self.right_carrier_millihz
        } else {
            self.right_carrier_millihz - self.left_carrier_millihz
        }
    }

    /// Name of the brainwave band of the current beat.
    pub fn brainwave_state(&self) -> (name: &'static str)
        ensures
            name@ == band_name(beat_of(self.left_carrier_millihz, self.right_carrier_millihz)),
    {
        let beat: u32 = self.binaural_beat_millihz();
        if beat < DELTA_MAX_MILLIHZ {
            "Delta (deep)"
        } else if beat < THETA_MAX_MILLIHZ {
            "Theta (meditation)"
        } else if beat < ALPHA_MAX_MILLIHZ {
            "Alpha (relaxed)"
        } else if beat < BETA_MAX_MILLIHZ {
            "Beta (alert)"
        } else {
            "Gamma (focus)"
        }
    }

    pub open spec fn spec_startup_end_ms(self) -> nat {
        self.startup_duration_ms as nat
    }

    pub open spec fn spec_induction_end_ms(self) -> nat {
        self.spec_startup_end_ms() + self.induction_duration_ms as nat
    }

    pub open spec fn spec_stabilization_end_ms(self) -> nat {
        self.spec_induction_end_ms() + self.stabilization_duration_ms as nat
    }

    pub open spec fn spec_total_session_ms(self) -> nat {
        self.spec_stabilization_end_ms() + self.return_duration_ms as nat
    }

    /// Time at which the startup phase ends.
    pub fn startup_end_ms(&self) -> (end: u64)
        ensures
            end == self.spec_startup_end_ms(),
        no_unwind
    {
        self.startup_duration_ms as u64
    }

    /// Time at which the induction phase ends.
    pub fn induction_end_ms(&self) -> (end: u64)
        ensures
            end == self.spec_induction_end_ms(),
        no_unwind
    {
        self.startup_duration_ms as u64 + self.induction_duration_ms as u64
    }

    /// Time at which the stabilization phase ends and the return begins.
    pub fn stabilization_end_ms(&self) -> (end: u64)
        ensures
            end == self.spec_stabilization_end_ms(),
        no_unwind
    {
        self.startup_duration_ms as u64 + self.induction_duration_ms as u64
            + self.stabilization_duration_ms as u64
    }

    /// Length of the whole session.
    pub fn total_session_ms(&self) -> (end: u64)
        ensures
            end == self.spec_total_session_ms(),
    {
        self.startup_duration_ms as u64 + self.induction_duration_ms as u64
            + self.stabilization_duration_ms as u64 + self.return_duration_ms as u64
    }
}

/// Elapsed time of `samples` samples, scaled so that it compares with
/// `ms * rate` for a duration of `ms` milliseconds at `rate` samples a second.
pub open spec fn scaled_elapsed(samples: nat) -> nat {
    1000 * samples
}

/// Whole milliseconds that `samples` samples take at `rate` samples a second,
/// as far as the counter reaches. At a rate of zero no time has passed before
/// the first sample, and time without end after it.
pub open spec fn elapsed_ms(samples: nat, rate: nat) -> nat {
    if rate == 0 {
        if samples == 0 {
            0
        } else {
            u64::MAX as nat
        }
    } else if 1000 * samples / rate > u64::MAX {
        u64::MAX as nat
    } else {
        1000 * samples / rate
    }
}

/// Phase a session is in after `samples` samples at `rate` samples a second:
/// the first phase whose cumulative end lies beyond the elapsed time, and the
/// return phase when none does.
pub open spec fn phase_at(params: CoherenceParams, samples: nat, rate: nat) -> SessionPhase {
    let elapsed = scaled_elapsed(samples);
    if elapsed < params.spec_startup_end_ms() * rate {
        SessionPhase::Startup
    } else if elapsed < params.spec_induction_end_ms() * rate {
        SessionPhase::Induction
    } else if elapsed < params.spec_stabilization_end_ms() * rate {
        SessionPhase::Stabilization
    } else {
        SessionPhase::Return
    }
}

/// Part of the return phase that has run, scaled like `scaled_elapsed` and
/// held between nothing and the whole phase.
pub open spec fn return_run(params: CoherenceParams, samples: nat, rate: nat) -> nat {
    let elapsed = scaled_elapsed(samples);
    let start = params.spec_stabilization_end_ms() * rate;
    let span = params.return_duration_ms as nat * rate;
    if elapsed <= start {
        0
    } else if elapsed - start >= span {
        span
    } else {
        (elapsed - start) as nat
    }
}

/// Gain of a phase after `samples` samples, in parts per million. Startup
/// rises linearly from silence to full scale over its duration, the two middle
/// phases hold full scale, and the return falls linearly from full scale to
/// the return floor over its duration. A phase without extent in time takes
/// its end value at once.
pub open spec fn phase_gain_ppm(
    phase: SessionPhase,
    params: CoherenceParams,
    samples: nat,
    rate: nat,
) -> nat {
    match phase {
        SessionPhase::Startup => {
            let span = params.startup_duration_ms as nat * rate;
            if scaled_elapsed(samples) >= span {
                FULL_SCALE_PPM as nat
            } else {
                scaled_elapsed(samples) * FULL_SCALE_PPM as nat / span
            }
        },
        SessionPhase::Induction | SessionPhase::Stabilization => FULL_SCALE_PPM as nat,
        SessionPhase::Return => {
            let span = params.return_duration_ms as nat * rate;
            if span == 0 {
                RETURN_FLOOR_PPM as nat
            } else {
                (FULL_SCALE_PPM as nat - (FULL_SCALE_PPM - RETURN_FLOOR_PPM) as nat * return_run(
                    params,
                    samples,
                    rate,
                ) / span) as nat
            }
        },
    }
}

/// Time moving forward never moves a session back to an earlier phase: of two
/// moments in one session, the later one lies in the same phase or in a later
/// one. In particular, once a session is in stabilization it is never again in
/// startup or induction.
pub proof fn lemma_phase_never_goes_back(
    params: CoherenceParams,
    earlier: nat,
    later: nat,
    rate: nat,
)
    requires
        earlier <= later,
    ensures
        phase_at(params, earlier, rate).rank() <= phase_at(params, later, rate).rank(),
        phase_at(params, earlier, rate) == SessionPhase::Stabilization ==> phase_at(
            params,
            later,
            rate,
        ) != SessionPhase::Startup && phase_at(params, later, rate) != SessionPhase::Induction,
{
    let a = params.spec_startup_end_ms();
    let b = params.spec_induction_end_ms();
    let c = params.spec_stabilization_end_ms();
    assert(a * rate <= b * rate && b * rate <= c * rate) by (nonlinear_arith)
        requires
            a <= b,
            b <= c,
    ;
}

/// The startup ramp meets the phase that follows it: at the moment startup
/// ends its gain is exactly full scale, before that moment it never exceeds
/// full scale, and it never falls while time moves forward.
pub proof fn lemma_startup_gain_reaches_full_scale(
    params: CoherenceParams,
    samples: nat,
    later: nat,
    rate: nat,
)
    requires
        samples <= later,
    ensures
        scaled_elapsed(samples) == params.spec_startup_end_ms() * rate ==> phase_gain_ppm(
            SessionPhase::Startup,
            params,
            samples,
            rate,
        ) == FULL_SCALE_PPM,
        phase_gain_ppm(SessionPhase::Startup, params, samples, rate) <= phase_gain_ppm(
            SessionPhase::Startup,
            params,
            later,
            rate,
        ) <= FULL_SCALE_PPM,
{
    let span = params.startup_duration_ms as nat * rate;
    let x = scaled_elapsed(samples) * FULL_SCALE_PPM as nat;
    let y = scaled_elapsed(later) * FULL_SCALE_PPM as nat;
    if scaled_elapsed(later) < span {
        assert(x as int / span as int <= y as int / span as int && (y as int) / (span as int)
            < 1_000_000) by (nonlinear_arith)
            requires
                x <= y,
                y < span * 1_000_000,
                span > 0,
        ;
    } else if scaled_elapsed(samples) < span {
        assert((x as int) / (span as int) < 1_000_000) by (nonlinear_arith)
            requires
                x < span * 1_000_000,
                span > 0,
        ;
    }
}

/// The return ramp starts where stabilization leaves off and ends on the
/// return floor: at the moment stabilization ends its gain is exactly full
/// scale (for a return phase that has an extent in time), at the moment the
/// whole session ends it is exactly the floor, in between it never rises, and
/// it never leaves the range between the two.
pub proof fn lemma_return_gain_runs_from_full_scale_to_floor(
    params: CoherenceParams,
    samples: nat,
    later: nat,
    rate: nat,
)
    requires
        samples <= later,
    ensures
        params.return_duration_ms > 0 && rate > 0 && scaled_elapsed(samples)
            == params.spec_stabilization_end_ms() * rate ==> phase_gain_ppm(
            SessionPhase::Return,
            params,
            samples,
            rate,
        ) == FULL_SCALE_PPM,
        scaled_elapsed(samples) == params.spec_total_session_ms() * rate ==> phase_gain_ppm(
            SessionPhase::Return,
            params,
            samples,
            rate,
        ) == RETURN_FLOOR_PPM,
        RETURN_FLOOR_PPM <= phase_gain_ppm(SessionPhase::Return, params, later, rate)
            <= phase_gain_ppm(SessionPhase::Return, params, samples, rate) <= FULL_SCALE_PPM,
{
    let span = params.return_duration_ms as nat * rate;
    let start = params.spec_stabilization_end_ms() * rate;
    let total = params.spec_total_session_ms() * rate;
    assert(total == start + span) by (nonlinear_arith)
        requires
            total == (params.spec_stabilization_end_ms() + params.return_duration_ms as nat) * rate,
            span == params.return_duration_ms as nat * rate,
            start == params.spec_stabilization_end_ms() * rate,
    ;
    assert(params.return_duration_ms > 0 && rate > 0 ==> span > 0) by (nonlinear_arith)
        requires
            span == params.return_duration_ms as nat * rate,
    ;
    if span > 0 {
        let r1 = return_run(params, samples, rate);
        let r2 = return_run(params, later, rate);
        assert(r1 <= r2 <= span);
        assert((700_000 * r1) as int / span as int <= (700_000 * r2) as int / span as int && (
        700_000 * r2) as int / span as int <= 700_000 && (700_000 * r1) as int / span as int >= 0)
            by (nonlinear_arith)
            requires
                0 <= r1 <= r2,
                r2 <= span,
                span > 0,
        ;
        assert((700_000 * span) as int / span as int == 700_000) by (nonlinear_arith)
            requires
                span > 0,
        ;
        assert((700_000 * 0) as int / span as int == 0) by (nonlinear_arith)
            requires
                span > 0,
        ;
    }
}

/// Gamma-burst sub-state, in samples.
pub struct GammaState {
    /// Samples since the last burst ended.
    pub timer: nat,
    pub active: bool,
    /// Samples the current burst has lasted.
    pub duration: nat,
}

/// Samples between bursts and samples a burst lasts at a sample rate.
pub open spec fn gamma_interval(rate: nat) -> nat {
    GAMMA_BURST_INTERVAL_SECS as nat * rate
}

pub open spec fn gamma_length(rate: nat) -> nat {
    GAMMA_BURST_DURATION_SECS as nat * rate
}

/// A burst begins on this sample: the interval has run out and none is active.
pub open spec fn gamma_starts(g: GammaState, rate: nat) -> bool {
    !g.active && g.timer + 1 >= gamma_interval(rate)
}

/// This sample sounds with the burst pair: a burst is running or begins.
pub open spec fn gamma_sounds(g: GammaState, rate: nat) -> bool {
    g.active || gamma_starts(g, rate)
}

/// The sub-state after one sample. The timer counts up; a running burst counts
/// its own samples, and once it has lasted its length it ends and the timer
/// starts over from zero.
pub open spec fn gamma_step(g: GammaState, rate: nat) -> GammaState {
    if gamma_sounds(g, rate) {
        let duration = if g.active { g.duration + 1 } else { 1 };
        if duration >= gamma_length(rate) {
            GammaState { timer: 0, active: false, duration }
        } else {
            GammaState { timer: g.timer + 1, active: true, duration }
        }
    } else {
        GammaState { timer: g.timer + 1, active: false, duration: g.duration }
    }
}

/// Bounds that the sub-state keeps: the timer never runs further than one
/// interval and the burst that follows it, and a running burst has not yet
/// lasted its length.
pub open spec fn gamma_bounded(g: GammaState, rate: nat) -> bool {
    &&& g.timer <= gamma_interval(rate) + (if g.active {
        g.duration
    } else {
        0
    })
    &&& g.active ==> g.duration < gamma_length(rate)
}

/// The sub-state keeps its bounds from sample to sample. A sample either sounds
/// with the burst pair or leaves the timer short of the interval; and the
/// sample that ends a burst sounds with the burst pair and returns the timer
/// to zero.
pub proof fn lemma_gamma_step_keeps_bounds(g: GammaState, rate: nat)
    requires
        gamma_bounded(g, rate),
    ensures
        gamma_bounded(gamma_step(g, rate), rate),
        gamma_sounds(g, rate) || gamma_step(g, rate).timer < gamma_interval(rate),
        g.active && !gamma_step(g, rate).active ==> gamma_sounds(g, rate) && gamma_step(
            g,
            rate,
        ).timer == 0,
{
}

/// What the coherence engine is asked to sound for one sample.
#[derive(Clone, Copy, Debug, PartialEq, Eq, Structural)]
pub enum CoherenceFrame {
    /// Both channels at zero.
    Silent,
    /// A sine per ear at the given carriers, the enabled harmonics added to
    /// both, scaled by the configured level and by the phase gain.
    Tone {
        left_millihz: u32,
        right_millihz: u32,
        harmonic_220hz: bool,
        harmonic_495hz: bool,
        volume_ppm: u32,
        phase_gain_ppm: u32,
    },
}

/// Abstract state of a coherence engine.
pub struct CoherenceState {
    pub sample_rate: nat,
    pub gamma: GammaState,
    pub session_samples: nat,
    pub phase: SessionPhase,
}

/// State at the start of a session: startup phase, no time elapsed, no burst
/// running or counted.
pub open spec fn session_start(sample_rate: nat) -> CoherenceState {
    CoherenceState {
        sample_rate,
        gamma: GammaState { timer: 0, active: false, duration: 0 },
        session_samples: 0,
        phase: SessionPhase::Startup,
    }
}

/// Whether bursts interrupt the configured carriers: only the first focus
/// level uses them.
pub open spec fn uses_gamma(params: CoherenceParams) -> bool {
    params.being_type == BeingType::HumanFocus10
}

/// The frame of one sample, from the state before it.
pub open spec fn frame_of(state: CoherenceState, params: CoherenceParams) -> CoherenceFrame {
    if !params.enabled {
        CoherenceFrame::Silent
    } else {
        let burst = uses_gamma(params) && gamma_sounds(state.gamma, state.sample_rate);
        CoherenceFrame::Tone {
            left_millihz: if burst { GAMMA_CARRIER_MILLIHZ } else { params.left_carrier_millihz },
            right_millihz: if burst {
                (GAMMA_CARRIER_MILLIHZ + GAMMA_BEAT_MILLIHZ) as u32
            } else {
                params.right_carrier_millihz
            },
            harmonic_220hz: params.harmonic_220hz,
            harmonic_495hz: params.harmonic_495hz,
            volume_ppm: params.volume_ppm,
            phase_gain_ppm: phase_gain_ppm(
                state.phase,
                params,
                state.session_samples,
                state.sample_rate,
            ) as u32,
        }
    }
}

/// The sample counter after one more sample. At its largest value the counter
/// stays where it is.
pub open spec fn counted(samples: nat) -> nat {
    if samples < u64::MAX {
        samples + 1
    } else {
        samples
    }
}

/// The state after the session clock has moved on by one sample: the counter
/// counts the sample, and the phase is the one that the new session time lies
/// in.
pub open spec fn ticked(state: CoherenceState, params: CoherenceParams) -> CoherenceState {
    CoherenceState {
        session_samples: counted(state.session_samples),
        phase: phase_at(params, counted(state.session_samples), state.sample_rate),
        ..state
    }
}

/// The state after one sample was generated. Generating a sample moves the
/// session clock on by that sample, and at the first focus level the gamma
/// sub-state with it. A disabled engine generates nothing, and its state
/// stays.
pub open spec fn state_after_frame(state: CoherenceState, params: CoherenceParams)
    -> CoherenceState {
    if !params.enabled {
        state
    } else if uses_gamma(params) {
        ticked(CoherenceState { gamma: gamma_step(state.gamma, state.sample_rate), ..state }, params)
    } else {
        ticked(state, params)
    }
}

/// The state after one sample of a running engine, whether or not it
/// generates: an engine that is consulted and enabled generates the sample,
/// and for any other the session clock alone moves on. Either way the clock
/// counts the sample exactly once.
pub open spec fn state_after_sample(
    state: CoherenceState,
    params: CoherenceParams,
    consulted: bool,
) -> CoherenceState {
    if consulted && params.enabled {
        state_after_frame(state, params)
    } else {
        ticked(state, params)
    }
}

/// The session clock never moves a session back. Where the phase is up to
/// date for the configuration, one more sample leaves the session in the same
/// phase or takes it to a later one, and the counter does not fall: a session
/// in stabilization or return is never again in startup or induction.
pub proof fn lemma_tick_never_goes_back(state: CoherenceState, params: CoherenceParams)
    requires
        state.phase == phase_at(params, state.session_samples, state.sample_rate),
    ensures
        state.phase.rank() <= ticked(state, params).phase.rank(),
        state.session_samples <= ticked(state, params).session_samples,
        state.session_samples < u64::MAX ==> ticked(state, params).session_samples
            == state.session_samples + 1,
        state.phase == SessionPhase::Stabilization || state.phase == SessionPhase::Return
            ==> ticked(state, params).phase == SessionPhase::Stabilization || ticked(
            state,
            params,
        ).phase == SessionPhase::Return,
        ticked(state, params).phase == phase_at(
            params,
            ticked(state, params).session_samples,
            state.sample_rate,
        ),
{
    lemma_phase_never_goes_back(
        params,
        state.session_samples,
        counted(state.session_samples),
        state.sample_rate,
    );
}

/// Generating a sample moves the session clock exactly as the clock alone
/// moves: the counter and the phase after a generated sample are those after
/// a tick.
pub proof fn lemma_generating_ticks_the_clock(state: CoherenceState, params: CoherenceParams)
    requires
        params.enabled,
    ensures
        state_after_frame(state, params).session_samples == ticked(state, params).session_samples,
        state_after_frame(state, params).phase == ticked(state, params).phase,
        state_after_frame(state, params).session_samples == counted(state.session_samples),
{
}

/// Phase of a session after `samples` samples at `sample_rate` samples a
/// second.
pub fn session_phase_at(params: &CoherenceParams, samples: u64, sample_rate: u32) -> (phase:
    SessionPhase)
    ensures
        phase == phase_at(*params, samples as nat, sample_rate as nat),
    no_unwind
{
    let elapsed: u128 = 1000u128 * (samples as u128);
    let rate: u128 = sample_rate as u128;
    let startup_end: u128 = params.startup_end_ms() as u128;
    let induction_end: u128 = params.induction_end_ms() as u128;
    let stabilization_end: u128 = params.stabilization_end_ms() as u128;
    assert(startup_end * rate <= 0x4_0000_0000 * 0x1_0000_0000) by (nonlinear_arith)
        requires
            startup_end <= 0x4_0000_0000,
            rate <= 0x1_0000_0000,
    ;
    assert(induction_end * rate <= 0x4_0000_0000 * 0x1_0000_0000) by (nonlinear_arith)
        requires
            induction_end <= 0x4_0000_0000,
            rate <= 0x1_0000_0000,
    ;
    assert(stabilization_end * rate <= 0x4_0000_0000 * 0x1_0000_0000) by (nonlinear_arith)
        requires
            stabilization_end <= 0x4_0000_0000,
            rate <= 0x1_0000_0000,
    ;
    if elapsed < startup_end * rate {
        SessionPhase::Startup
    } else if elapsed < induction_end * rate {
        SessionPhase::Induction
    } else if elapsed < stabilization_end * rate {
        SessionPhase::Stabilization
    } else {
        SessionPhase::Return
    }
}

/// Session clock and gamma-burst state of one coherence engine.
pub struct CoherenceSynth {
    sample_rate: u32,
    gamma_timer: u64,
    gamma_active: bool,
    gamma_duration: u64,
    session_samples: u64,
    current_phase: SessionPhase,
}

impl View for CoherenceSynth {
    type V = CoherenceState;

    closed spec fn view(&self) -> CoherenceState {
        CoherenceState {
            sample_rate: self.sample_rate as nat,
            gamma: GammaState {
                timer: self.gamma_timer as nat,
                active: self.gamma_active,
                duration: self.gamma_duration as nat,
            },
            session_samples: self.session_samples as nat,
            phase: self.current_phase,
        }
    }
}

impl CoherenceSynth {
    /// The burst timer never runs further than one interval and one burst.
    #[verifier::type_invariant]
    spec fn bounded(self) -> bool {
        gamma_bounded(self@.gamma, self.sample_rate as nat)
    }

    /// A fresh engine: startup phase, no time elapsed, no burst.
    pub fn new(sample_rate: u32) -> (synth: Self)
        ensures
            synth@ == session_start(sample_rate as nat),
    {
        CoherenceSynth {
            sample_rate,
            gamma_timer: 0,
            gamma_active: false,
            gamma_duration: 0,
            session_samples: 0,
            current_phase: SessionPhase::Startup,
        }
    }

    /// Advances the session clock by one sample and brings the phase up to
    /// date, without generating audio: the companion of `next_sample` for the
    /// samples in which the engine is silent.
    pub fn update_timer(&mut self, params: &CoherenceParams)
        ensures
            final(self)@ == ticked(old(self)@, *params),
            old(self)@.session_samples < u64::MAX ==> final(self)@.session_samples == old(self)@.session_samples + 1,
        no_unwind
    {
        proof {
            use_type_invariant(&*self);
        }
        let samples: u64 = if self.session_samples < u64::MAX {
            self.session_samples + 1
        } else {
            self.session_samples
        };
        *self = CoherenceSynth {
            sample_rate: self.sample_rate,
            gamma_timer: self.gamma_timer,
            gamma_active: self.gamma_active,
            gamma_duration: self.gamma_duration,
            session_samples: samples,
            current_phase: session_phase_at(params, samples, self.sample_rate),
        };
    }

    /// Brings the phase up to date with the session clock.
    pub fn update_session_phase(&mut self, params: &CoherenceParams)
        ensures
            final(self)@ == (CoherenceState {
                phase: phase_at(*params, old(self)@.session_samples, old(self)@.sample_rate),
                ..old(self)@
            }),
        no_unwind
    {
        proof {
            use_type_invariant(&*self);
        }
        *self = CoherenceSynth {
            sample_rate: self.sample_rate,
            gamma_timer: self.gamma_timer,
            gamma_active: self.gamma_active,
            gamma_duration: self.gamma_duration,
            session_samples: self.session_samples,
            current_phase: session_phase_at(params, self.session_samples, self.sample_rate),
        };
    }
    /// Gain of the current phase at the current session time, in parts per
    /// million of full scale.
    pub fn get_phase_volume_multiplier(&self, params: &CoherenceParams) -> (gain: u32)
        ensures
            gain == phase_gain_ppm(
                self@.phase,
                *params,
                self@.session_samples,
                self@.sample_rate,
            ),
            gain <= FULL_SCALE_PPM,
        no_unwind
    {
        let elapsed: u128 = 1000u128 * (self.session_samples as u128);
        let rate: u128 = self.sample_rate as u128;
        let full: u128 = FULL_SCALE_PPM as u128;
        match self.current_phase {
            SessionPhase::Startup => {
                let duration: u128 = params.startup_duration_ms as u128;
                assert(duration * rate <= 0x1_0000_0000 * 0x1_0000_0000) by (nonlinear_arith)
                    requires
                        duration <= 0x1_0000_0000,
                        rate <= 0x1_0000_0000,
                ;
                let span: u128 = duration * rate;
                if elapsed >= span {
                    FULL_SCALE_PPM
                } else {
                    assert(elapsed * full <= 0x1_0000_0000_0000_0000 * 1_000_000)
                        by (nonlinear_arith)
                        requires
                            elapsed < span,
                            span <= 0x1_0000_0000_0000_0000,
                            full == 1_000_000,
                    ;
                    assert(((elapsed * full) as int) / (span as int) < (full as int)) by (nonlinear_arith)
                        requires
                            elapsed < span,
                            full > 0,
                    ;
                    (elapsed * full / span) as u32
                }
            },
            SessionPhase::Induction | SessionPhase::Stabilization => FULL_SCALE_PPM,
            SessionPhase::Return => {
                let duration: u128 = params.return_duration_ms as u128;
                let stabilization_end: u128 = params.stabilization_end_ms() as u128;
                assert(duration * rate <= 0x1_0000_0000 * 0x1_0000_0000) by (nonlinear_arith)
                    requires
                        duration <= 0x1_0000_0000,
                        rate <= 0x1_0000_0000,
                ;
                assert(stabilization_end * rate <= 0x4_0000_0000 * 0x1_0000_0000)
                    by (nonlinear_arith)
                    requires
                        stabilization_end <= 0x4_0000_0000,
                        rate <= 0x1_0000_0000,
                ;
                let span: u128 = duration * rate;
                let start: u128 = stabilization_end * rate;
                if span == 0 {
                    RETURN_FLOOR_PPM
                } else {
                    let run: u128 = if elapsed <= start {
                        0
                    } else if elapsed - start >= span {
                        span
                    } else {
                        elapsed - start
                    };
                    let drop: u128 = (FULL_SCALE_PPM - RETURN_FLOOR_PPM) as u128;
                    assert(drop * run <= 700_000 * 0x1_0000_0000_0000_0000) by (nonlinear_arith)
                        requires
                            run <= span,
                            span <= 0x1_0000_0000_0000_0000,
                            drop == 700_000,
                    ;
                    assert(((drop * run) as int) / (span as int) <= (drop as int)) by (nonlinear_arith)
                        requires
                            run <= span,
                            span > 0,
                            drop >= 0,
                    ;
                    (full - drop * run / span) as u32
                }
            },
        }
    }

    /// Decides what the engine sounds for the next sample and counts the
    /// sample: the session clock moves on by one sample and the phase is
    /// brought up to date, and where bursts are in use the gamma sub-state
    /// moves on. The gain of the sample is the gain at the session time at
    /// which the sample begins, before the clock moves. A disabled engine is
    /// silent and keeps its state, clock included.
    pub fn next_sample(&mut self, params: &CoherenceParams) -> (frame: CoherenceFrame)
        ensures
            frame == frame_of(old(self)@, *params),
            final(self)@ == state_after_frame(old(self)@, *params),
            !params.enabled ==> frame == CoherenceFrame::Silent && final(self)@ == old(self)@,
            params.enabled ==> final(self)@.session_samples == counted(
                old(self)@.session_samples,
            ) && final(self)@.phase == phase_at(
                *params,
                counted(old(self)@.session_samples),
                old(self)@.sample_rate,
            ),
            params.enabled && old(self)@.session_samples < u64::MAX ==> final(self)@.session_samples == old(self)@.session_samples + 1,
        no_unwind
    {
        if !params.enabled {
            return CoherenceFrame::Silent;
        }
        proof {
            use_type_invariant(&*self);
        }
        let gain: u32 = self.get_phase_volume_multiplier(params);
        let mut burst: bool = false;
        let mut gamma_timer: u64 = self.gamma_timer;
        let mut gamma_active: bool = self.gamma_active;
        let mut gamma_duration: u64 = self.gamma_duration;
        if params.being_type == BeingType::HumanFocus10 {
            let rate: u64 = self.sample_rate as u64;
            let timer: u64 = self.gamma_timer + 1;
            let starts: bool = !self.gamma_active && timer >= GAMMA_BURST_INTERVAL_SECS * rate;
            burst = self.gamma_active || starts;
            if burst {
                gamma_duration = if self.gamma_active { self.gamma_duration + 1 } else { 1 };
                if gamma_duration >= GAMMA_BURST_DURATION_SECS * rate {
                    gamma_timer = 0;
                    gamma_active = false;
                } else {
                    gamma_timer = timer;
                    gamma_active = true;
                }
            } else {
                gamma_timer = timer;
                gamma_active = false;
            }
        }
        let samples: u64 = if self.session_samples < u64::MAX {
            self.session_samples + 1
        } else {
            self.session_samples
        };
        *self = CoherenceSynth {
            sample_rate: self.sample_rate,
            gamma_timer,
            gamma_active,
            gamma_duration,
            session_samples: samples,
            current_phase: session_phase_at(params, samples, self.sample_rate),
        };
        CoherenceFrame::Tone {
            left_millihz: if burst { GAMMA_CARRIER_MILLIHZ } else { params.left_carrier_millihz },
            right_millihz: if burst {
                GAMMA_CARRIER_MILLIHZ + GAMMA_BEAT_MILLIHZ
            } else {
                params.right_carrier_millihz
            },
            harmonic_220hz: params.harmonic_220hz,
            harmonic_495hz: params.harmonic_495hz,
            volume_ppm: params.volume_ppm,
            phase_gain_ppm: gain,
        }
    }

    /// Generates the next sample where the engine is consulted and enabled,
    /// and lets the session clock alone count the sample where it is not, so
    /// that every sample of a running host is counted exactly once.
    pub fn advance(&mut self, params: &CoherenceParams, consulted: bool) -> (frame: CoherenceFrame)
        ensures
            frame == if consulted {
                frame_of(old(self)@, *params)
            } else {
                CoherenceFrame::Silent
            },
            final(self)@ == state_after_sample(old(self)@, *params, consulted),
            final(self)@.session_samples == counted(old(self)@.session_samples),
            final(self)@.phase == phase_at(
                *params,
                counted(old(self)@.session_samples),
                old(self)@.sample_rate,
            ),
        no_unwind
    {
        if consulted && params.enabled {
            self.next_sample(params)
        } else {
            self.update_timer(params);
            CoherenceFrame::Silent
        }
    }

    /// Returns the engine to the start of a session: startup phase, no time
    /// elapsed, no burst. The sample rate stays.
    pub fn reset(&mut self)
        ensures
            final(self)@ == session_start(old(self)@.sample_rate),
            final(self)@.phase == SessionPhase::Startup,
            final(self)@.session_samples == 0,
        no_unwind
    {
        *self = CoherenceSynth {
            sample_rate: self.sample_rate,
            gamma_timer: 0,
            gamma_active: false,
            gamma_duration: 0,
            session_samples: 0,
            current_phase: SessionPhase::Startup,
        };
    }

    /// Samples elapsed in the session, and its current phase.
    pub fn get_session_info(&self) -> (info: (u64, SessionPhase))
        ensures
            info.0 == self@.session_samples,
            info.1 == self@.phase,
    {
        (self.session_samples, self.current_phase)
    }

    /// Session time in whole milliseconds.
    pub fn session_timer_ms(&self) -> (ms: u64)
        ensures
            ms == elapsed_ms(self@.session_samples, self@.sample_rate),
    {
        if self.sample_rate == 0 {
            if self.session_samples == 0 {
                0
            } else {
                u64::MAX
            }
        } else {
            let ms: u128 = 1000u128 * (self.session_samples as u128) / (self.sample_rate as u128);
            if ms > u64::MAX as u128 {
                u64::MAX
            } else {
                ms as u64
            }
        }
    }

    /// Sample rate the engine was made for.
    pub fn sample_rate(&self) -> (rate: u32)
        ensures
            rate == self@.sample_rate,
    {
        self.sample_rate
    }
}

} // verus!
