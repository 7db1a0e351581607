//! Radio transmission: the lifecycle of the external transmitter process as a
//! state machine that the worker loop consults once per iteration, and the
//! framing of quantised baseband levels as interleaved 8-bit quadrature bytes.
//!
//! The loop itself, the process and the clock belong to the host. Each
//! iteration it hands the requested parameters to [`RfWorker::poll`], carries
//! out the directive it gets back, and reports how a spawn or a write went.

use vstd::prelude::*;
use vstd::string::StringExecFns;
use crate::utils::{decimal, decimal_string, texts};
use crate::constants::{
    HACKRF_CHECK_INTERVAL_SECS, RF_ABSENT_BACKOFF_MS, RF_BUFFER_CHUNK_SIZE, RF_SAMPLE_RATE_HZ,
    RF_SPAWN_BACKOFF_MS, RF_WORKER_SLEEP_MS,
};

verus! {

/// Lifecycle of the transmitter process.
#[derive(Clone, Copy, Debug, PartialEq, Eq, Structural)]
pub enum TxState {
    /// No process exists.
    Stopped,
    /// A spawn was ordered and its result is awaited.
    Starting,
    /// A process runs with the current frequency and gain.
    Running,
}

/// Why a transmission request was turned off.
#[derive(Clone, Copy, Debug, PartialEq, Eq, Structural)]
pub enum RfFault {
    /// The transmitter hardware does not answer.
    HardwareMissing,
    /// The transmitter process could not be started.
    SpawnFailed,
}

/// What the worker loop is to do in this iteration.
#[derive(Clone, Copy, Debug, PartialEq, Eq, Structural)]
pub enum RfDirective {
    /// Transmission is not requested: end the process if one may exist, pause,
    /// and poll again.
    Idle { stop_process: bool },
    /// Transmission cannot go on: end the process if one may exist, turn the
    /// request off in the configuration, report the fault, pause, and poll
    /// again.
    Abandon { stop_process: bool, fault: RfFault },
    /// End any process, start one with these parameters, and report the result
    /// with `spawn_finished`.
    Spawn { freq_hz: u64, gain_db: u32 },
    /// The process runs with the requested parameters: produce a chunk and
    /// write it, and report the result with `write_finished`.
    Transmit,
}

impl RfFault {
    pub open spec fn spec_message(self) -> Seq<char> {
        match self {
            RfFault::HardwareMissing => "HackRF not detected. Please connect and restart."@,
            RfFault::SpawnFailed => "Failed to start hackrf_transfer: "@,
        }
    }

    /// Text for the error channel. For a failed spawn it is the opening of the
    /// message, to which the host appends what the system said.
    pub fn message(self) -> (text: &'static str)
        ensures
            text@ == self.spec_message(),
    {
        match self {
            RfFault::HardwareMissing => "HackRF not detected. Please connect and restart.",
            RfFault::SpawnFailed => "Failed to start hackrf_transfer: ",
        }
    }

    pub open spec fn spec_backoff_ms(self) -> u64 {
        match self {
            RfFault::HardwareMissing => RF_ABSENT_BACKOFF_MS,
            RfFault::SpawnFailed => RF_SPAWN_BACKOFF_MS,
        }
    }

    /// Pause before the worker polls again after this fault.
    pub fn backoff_ms(self) -> (ms: u64)
        ensures
            ms == self.spec_backoff_ms(),
    {
        match self {
            RfFault::HardwareMissing => RF_ABSENT_BACKOFF_MS,
            RfFault::SpawnFailed => RF_SPAWN_BACKOFF_MS,
        }
    }
}

impl RfDirective {
    pub open spec fn spec_pause_ms(self) -> u64 {
        match self {
            RfDirective::Idle { .. } => RF_WORKER_SLEEP_MS,
            RfDirective::Abandon { fault, .. } => fault.spec_backoff_ms(),
            _ => 0,
        }
    }

    /// Pause that follows the directive before the next poll; none while a
    /// process is being started or fed.
    pub fn pause_ms(self) -> (ms: u64)
        ensures
            ms == self.spec_pause_ms(),
    {
        match self {
            RfDirective::Idle { .. } => RF_WORKER_SLEEP_MS,
            RfDirective::Abandon { fault, .. } => fault.backoff_ms(),
            _ => 0,
        }
    }

    /// Whether the directive has the transmission request turned off in the
    /// shared configuration.
    pub fn turns_request_off(self) -> (off: bool)
        ensures
            off == (self is Abandon),
    {
        match self {
            RfDirective::Abandon { .. } => true,
            _ => false,
        }
    }
}

/// Abstract state of the worker's control part.
pub struct RfWorkerState {
    pub tx: TxState,
    /// Parameters of the process that runs; meaningful in `Running` only.
    pub current_freq: u64,
    pub current_gain: u32,
    /// Cached result of the last hardware detection.
    pub hackrf_available: bool,
    pub audio_sample_rate: u32,
}

/// Directive for one iteration. A request without hardware is abandoned; a
/// request that no running process serves with the same frequency and gain
/// has one spawned, since a running process cannot take new parameters; a
/// request that is served goes on transmitting; and without a request the
/// worker idles. Whatever ends the transmission also ends a process that may
/// exist.
pub open spec fn directive_of(state: RfWorkerState, enabled: bool, freq_hz: u64, gain_db: u32)
    -> RfDirective {
    if !enabled {
        RfDirective::Idle { stop_process: state.tx != TxState::Stopped }
    } else if !state.hackrf_available {
        RfDirective::Abandon {
            stop_process: state.tx != TxState::Stopped,
            fault: RfFault::HardwareMissing,
        }
    } else if state.tx != TxState::Running || freq_hz != state.current_freq || gain_db
        != state.current_gain {
        RfDirective::Spawn { freq_hz, gain_db }
    } else {
        RfDirective::Transmit
    }
}

/// Lifecycle state a directive leaves the worker in.
pub open spec fn tx_after(directive: RfDirective) -> TxState {
    match directive {
        RfDirective::Idle { .. } => TxState::Stopped,
        RfDirective::Abandon { .. } => TxState::Stopped,
        RfDirective::Spawn { .. } => TxState::Starting,
        RfDirective::Transmit => TxState::Running,
    }
}

/// Quadrature samples that stand for one audio sample: the ratio of the radio
/// sample rate to the audio sample rate, rounded down. An audio rate of zero
/// gives the largest ratio there is.
pub open spec fn oversampling(audio_sample_rate: u32) -> nat {
    if audio_sample_rate == 0 {
        usize::MAX as nat
    } else {
        (RF_SAMPLE_RATE_HZ / audio_sample_rate) as nat
    }
}

/// Byte that carries a quadrature level: its two's complement pattern.
pub open spec fn iq_byte(level: i8) -> u8 {
    level as u8
}

/// Level that a quadrature byte carries.
pub open spec fn iq_level(byte: u8) -> i8 {
    byte as i8
}

/// `count` quadrature samples of amplitude modulation: the level in phase and
/// zero in quadrature, interleaved.
pub open spec fn am_samples(level: i8, count: nat) -> Seq<u8> {
    Seq::new(2 * count, |k: int| if k % 2 == 0 { iq_byte(level) } else { 0u8 })
}

/// Decoding the byte pair of an encoded level gives the level back exactly,
/// whatever the level, and every pair of an AM run carries the level in phase
/// and zero in quadrature.
pub proof fn lemma_iq_byte_round_trip(level: i8, count: nat, k: int)
    ensures
        iq_level(iq_byte(level)) == level,
        0 <= k < count ==> iq_level(am_samples(level, count)[2 * k]) == level && am_samples(
            level,
            count,
        )[2 * k + 1] == 0,
{
    assert((level as u8) as i8 == level) by (bit_vector);
}

/// One audio sample under amplitude modulation becomes as many quadrature
/// samples as the radio sample rate holds the audio sample rate, rounded
/// down; each of them carries the level in phase and zero in quadrature, and
/// the level is read back from its byte exactly.
pub proof fn lemma_am_tick_frames(level: i8, audio_sample_rate: u32, k: int)
    requires
        audio_sample_rate > 0,
        0 <= k < oversampling(audio_sample_rate),
    ensures
        oversampling(audio_sample_rate) == RF_SAMPLE_RATE_HZ as nat / audio_sample_rate as nat,
        am_samples(level, oversampling(audio_sample_rate)).len() == 2 * oversampling(
            audio_sample_rate,
        ),
        iq_level(am_samples(level, oversampling(audio_sample_rate))[2 * k]) == level,
        am_samples(level, oversampling(audio_sample_rate))[2 * k + 1] == 0,
{
    lemma_iq_byte_round_trip(level, oversampling(audio_sample_rate), k);
}

/// A chunk never holds more quadrature samples than the chunk size.
pub proof fn lemma_chunk_fits(samples_per_tick: nat)
    requires
        samples_per_tick > 0,
    ensures
        (RF_BUFFER_CHUNK_SIZE as nat / samples_per_tick) * samples_per_tick
            <= RF_BUFFER_CHUNK_SIZE,
{
    let c = RF_BUFFER_CHUNK_SIZE as int;
    let s = samples_per_tick as int;
    assert((c / s) * s <= c) by (nonlinear_arith)
        requires
            s > 0,
            c >= 0,
    ;
}

/// Arguments of the transmitter process: transmit from standard input at the
/// given frequency in hertz, at the radio sample rate, with the antenna port
/// powered, at the given gain in decibels.
pub open spec fn transfer_arguments(freq_hz: u64, gain_db: u32) -> Seq<Seq<char>> {
    seq![
        "-t"@,
        "-"@,
        "-f"@,
        decimal(freq_hz as nat),
        "-s"@,
        decimal(RF_SAMPLE_RATE_HZ as nat),
        "-a"@,
        "1"@,
        "-x"@,
        decimal(gain_db as nat),
    ]
}

/// Builds the argument list for a transmitter process.
pub fn transfer_args(freq_hz: u64, gain_db: u32) -> (args: Vec<String>)
    ensures
        texts(args@) == transfer_arguments(freq_hz, gain_db),
{
    let mut args: Vec<String> = Vec::new();
    args.push(String::from_str("-t"));
    args.push(String::from_str("-"));
    args.push(String::from_str("-f"));
    args.push(decimal_string(freq_hz));
    args.push(String::from_str("-s"));
    args.push(decimal_string(RF_SAMPLE_RATE_HZ as u64));
    args.push(String::from_str("-a"));
    args.push(String::from_str("1"));
    args.push(String::from_str("-x"));
    args.push(decimal_string(gain_db as u64));
    assert(texts(args@) =~= transfer_arguments(freq_hz, gain_db));
    args
}

/// Control part of the radio worker.
pub struct RfWorker {
    tx: TxState,
    current_freq: u64,
    current_gain: u32,
    hackrf_available: bool,
    audio_sample_rate: u32,
}

impl View for RfWorker {
    type V = RfWorkerState;

    closed spec fn view(&self) -> RfWorkerState {
        RfWorkerState {
            tx: self.tx,
            current_freq: self.current_freq,
            current_gain: self.current_gain,
            hackrf_available: self.hackrf_available,
            audio_sample_rate: self.audio_sample_rate,
        }
    }
}

impl RfWorker {
    /// A worker without a process, with the result of a first hardware
    /// detection.
    pub fn new(audio_sample_rate: u32, hackrf_available: bool) -> (worker: Self)
        ensures
            worker@ == (RfWorkerState {
                tx: TxState::Stopped,
                current_freq: 0,
                current_gain: 0,
                hackrf_available,
                audio_sample_rate,
            }),
    {
        RfWorker {
            tx: TxState::Stopped,
            current_freq: 0,
            current_gain: 0,
            hackrf_available,
            audio_sample_rate,
        }
    }

    /// Whether the cached hardware detection is older than its interval and
    /// is to be repeated.
    pub fn hardware_check_due(elapsed_nanos: u128) -> (due: bool)
        ensures
            due == (elapsed_nanos > HACKRF_CHECK_INTERVAL_SECS as nat * 1_000_000_000),
    {
        elapsed_nanos > (HACKRF_CHECK_INTERVAL_SECS as u128) * 1_000_000_000
    }

    /// Records the result of a hardware detection. The host writes the same
    /// value to the detected flag of the configuration.
    pub fn set_hardware(&mut self, available: bool)
        ensures
            final(self)@ == (RfWorkerState { hackrf_available: available, ..old(self)@ }),
    {
        self.hackrf_available = available;
    }

    /// Decides one iteration of the worker loop from the request read from the
    /// configuration.
    pub fn poll(&mut self, enabled: bool, freq_hz: u64, gain_db: u32) -> (directive: RfDirective)
        ensures
            directive == directive_of(old(self)@, enabled, freq_hz, gain_db),
            final(self)@ == (RfWorkerState { tx: tx_after(directive), ..old(self)@ }),
            enabled && !old(self)@.hackrf_available ==> directive is Abandon
                && directive->fault == RfFault::HardwareMissing,
            directive == RfDirective::Transmit ==> enabled && old(self)@.tx == TxState::Running
                && freq_hz == old(self)@.current_freq && gain_db == old(self)@.current_gain,
    {
        let may_run: bool = self.tx != TxState::Stopped;
        if !enabled {
            self.tx = TxState::Stopped;
            RfDirective::Idle { stop_process: may_run }
        } else if !self.hackrf_available {
            self.tx = TxState::Stopped;
            RfDirective::Abandon { stop_process: may_run, fault: RfFault::HardwareMissing }
        } else if self.tx != TxState::Running || freq_hz != self.current_freq || gain_db
            != self.current_gain {
            self.tx = TxState::Starting;
            RfDirective::Spawn { freq_hz, gain_db }
        } else {
            RfDirective::Transmit
        }
    }

    /// Takes in the result of the spawn that `poll` ordered. A process that
    /// started runs with the given parameters and is fed at once; a failed
    /// start leaves no process and abandons the request.
    pub fn spawn_finished(&mut self, freq_hz: u64, gain_db: u32, started: bool) -> (directive:
        RfDirective)
        ensures
            started ==> directive == RfDirective::Transmit && final(self)@ == (RfWorkerState {
                tx: TxState::Running,
                current_freq: freq_hz,
                current_gain: gain_db,
                ..old(self)@
            }),
            !started ==> directive == (RfDirective::Abandon {
                stop_process: false,
                fault: RfFault::SpawnFailed,
            }) && final(self)@ == (RfWorkerState { tx: TxState::Stopped, ..old(self)@ }),
    {
        if started {
            self.current_freq = freq_hz;
            self.current_gain = gain_db;
            self.tx = TxState::Running;
            RfDirective::Transmit
        } else {
            self.tx = TxState::Stopped;
            RfDirective::Abandon { stop_process: false, fault: RfFault::SpawnFailed }
        }
    }

    /// Takes in the result of writing a chunk to the process. After a failed
    /// write the process is torn down, so that the next poll of a standing
    /// request starts a new one. Returns whether the process is to be ended.
    pub fn write_finished(&mut self, written: bool) -> (stop_process: bool)
        ensures
            stop_process == !written,
            written ==> final(self)@ == old(self)@,
            !written ==> final(self)@ == (RfWorkerState { tx: TxState::Stopped, ..old(self)@ }),
    {
        if !written {
            self.tx = TxState::Stopped;
        }
        !written
    }

    /// Lifecycle state of the transmitter process.
    pub fn state(&self) -> (tx: TxState)
        ensures
            tx == self@.tx,
    {
        self.tx
    }

    /// Quadrature samples emitted for each audio sample.
    pub fn samples_per_audio_tick(&self) -> (ratio: usize)
        ensures
            ratio == oversampling(self@.audio_sample_rate),
    {
        if self.audio_sample_rate == 0 {
            usize::MAX
        } else {
            (RF_SAMPLE_RATE_HZ / self.audio_sample_rate) as usize
        }
    }

    /// Audio samples that fill one chunk at the given oversampling ratio.
    pub fn audio_steps_per_chunk(samples_per_tick: usize) -> (steps: usize)
        requires
            samples_per_tick > 0,
        ensures
            steps == RF_BUFFER_CHUNK_SIZE / samples_per_tick,
            steps * samples_per_tick <= RF_BUFFER_CHUNK_SIZE,
    {
        proof {
            lemma_chunk_fits(samples_per_tick as nat);
        }
        RF_BUFFER_CHUNK_SIZE / samples_per_tick
    }

    /// Appends one amplitude-modulated audio sample to a chunk: the level in
    /// phase and zero in quadrature, repeated for each quadrature sample of
    /// the oversampling ratio.
    pub fn push_am(buffer: &mut Vec<u8>, level: i8, samples_per_tick: usize)
        ensures
            final(buffer)@ == old(buffer)@ + am_samples(level, samples_per_tick as nat),
    {
        let mut i: usize = 0;
        while i < samples_per_tick
            invariant
                i <= samples_per_tick,
                buffer@ == old(buffer)@ + am_samples(level, i as nat),
            decreases samples_per_tick - i,
        {
            buffer.push(level as u8);
            buffer.push(0);
            i += 1;
            assert(buffer@ =~= old(buffer)@ + am_samples(level, i as nat));
        }
    }

    /// Appends one quadrature sample to a chunk, in phase first.
    pub fn push_iq(buffer: &mut Vec<u8>, in_phase: i8, quadrature: i8)
        ensures
            final(buffer)@ == old(buffer)@ + seq![iq_byte(in_phase), iq_byte(quadrature)],
    {
        buffer.push(in_phase as u8);
        buffer.push(quadrature as u8);
        assert(buffer@ =~= old(buffer)@ + seq![iq_byte(in_phase), iq_byte(quadrature)]);
    }
}

} // verus!
