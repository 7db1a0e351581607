use soulwhistle::rf::{transfer_args, RfDirective, RfFault, RfWorker, TxState};

const FREQ: u64 = 1_420_405_752;
const GAIN: u32 = 30;

/// A worker with hardware whose process runs at `FREQ` and `GAIN`.
fn running() -> RfWorker {
    let mut worker = RfWorker::new(44_100, true);
    assert_eq!(worker.poll(true, FREQ, GAIN), RfDirective::Spawn { freq_hz: FREQ, gain_db: GAIN });
    assert_eq!(worker.spawn_finished(FREQ, GAIN, true), RfDirective::Transmit);
    worker
}

#[test]
fn absent_hardware_turns_the_request_off_within_one_poll() {
    let mut worker = RfWorker::new(44_100, false);
    let directive = worker.poll(true, FREQ, GAIN);
    assert_eq!(
        directive,
        RfDirective::Abandon { stop_process: false, fault: RfFault::HardwareMissing }
    );
    assert!(directive.turns_request_off());
    assert_eq!(RfFault::HardwareMissing.message(), "HackRF not detected. Please connect and restart.");
    assert_eq!(directive.pause_ms(), 2000);
    assert_eq!(worker.state(), TxState::Stopped);
}

#[test]
fn hardware_that_disappears_ends_the_running_process() {
    let mut worker = running();
    worker.set_hardware(false);
    assert_eq!(
        worker.poll(true, FREQ, GAIN),
        RfDirective::Abandon { stop_process: true, fault: RfFault::HardwareMissing }
    );
    assert_eq!(worker.state(), TxState::Stopped);
    // The host has turned the request off: the worker idles.
    assert_eq!(worker.poll(false, FREQ, GAIN), RfDirective::Idle { stop_process: false });
}

#[test]
fn idle_without_request() {
    let mut worker = RfWorker::new(44_100, true);
    let directive = worker.poll(false, FREQ, GAIN);
    assert_eq!(directive, RfDirective::Idle { stop_process: false });
    assert!(!directive.turns_request_off());
    assert_eq!(directive.pause_ms(), 100);
    assert_eq!(worker.state(), TxState::Stopped);
}

#[test]
fn request_withdrawn_stops_the_process() {
    let mut worker = running();
    assert_eq!(worker.poll(false, FREQ, GAIN), RfDirective::Idle { stop_process: true });
    assert_eq!(worker.state(), TxState::Stopped);
    assert_eq!(worker.poll(false, FREQ, GAIN), RfDirective::Idle { stop_process: false });
}

#[test]
fn lifecycle_stopped_starting_running() {
    let mut worker = RfWorker::new(44_100, true);
    assert_eq!(worker.state(), TxState::Stopped);
    let directive = worker.poll(true, FREQ, GAIN);
    assert_eq!(directive, RfDirective::Spawn { freq_hz: FREQ, gain_db: GAIN });
    assert_eq!(directive.pause_ms(), 0);
    assert_eq!(worker.state(), TxState::Starting);
    assert_eq!(worker.spawn_finished(FREQ, GAIN, true), RfDirective::Transmit);
    assert_eq!(worker.state(), TxState::Running);
    assert_eq!(worker.poll(true, FREQ, GAIN), RfDirective::Transmit);
    assert_eq!(worker.poll(true, FREQ, GAIN), RfDirective::Transmit);
    assert_eq!(worker.state(), TxState::Running);
    assert_eq!(RfDirective::Transmit.pause_ms(), 0);
}

#[test]
fn changed_frequency_or_gain_restarts_the_process() {
    let mut worker = running();
    assert_eq!(
        worker.poll(true, FREQ + 100_000, GAIN),
        RfDirective::Spawn { freq_hz: FREQ + 100_000, gain_db: GAIN }
    );
    assert_eq!(worker.spawn_finished(FREQ + 100_000, GAIN, true), RfDirective::Transmit);
    assert_eq!(worker.poll(true, FREQ + 100_000, GAIN), RfDirective::Transmit);
    assert_eq!(
        worker.poll(true, FREQ + 100_000, GAIN + 1),
        RfDirective::Spawn { freq_hz: FREQ + 100_000, gain_db: GAIN + 1 }
    );
    assert_eq!(worker.state(), TxState::Starting);
}

#[test]
fn failed_spawn_abandons_the_request() {
    let mut worker = RfWorker::new(44_100, true);
    let _ = worker.poll(true, FREQ, GAIN);
    let directive = worker.spawn_finished(FREQ, GAIN, false);
    assert_eq!(
        directive,
        RfDirective::Abandon { stop_process: false, fault: RfFault::SpawnFailed }
    );
    assert!(directive.turns_request_off());
    assert_eq!(directive.pause_ms(), 1000);
    assert_eq!(RfFault::SpawnFailed.message(), "Failed to start hackrf_transfer: ");
    assert_eq!(worker.state(), TxState::Stopped);
    // A request that is made again is served with a new spawn.
    assert_eq!(worker.poll(true, FREQ, GAIN), RfDirective::Spawn { freq_hz: FREQ, gain_db: GAIN });
}

#[test]
fn failed_write_tears_down_and_the_next_poll_restarts() {
    let mut worker = running();
    assert!(!worker.write_finished(true));
    assert_eq!(worker.state(), TxState::Running);
    assert!(worker.write_finished(false));
    assert_eq!(worker.state(), TxState::Stopped);
    assert_eq!(worker.poll(true, FREQ, GAIN), RfDirective::Spawn { freq_hz: FREQ, gain_db: GAIN });
}

#[test]
fn fault_backoffs() {
    assert_eq!(RfFault::HardwareMissing.backoff_ms(), 2000);
    assert_eq!(RfFault::SpawnFailed.backoff_ms(), 1000);
}

#[test]
fn hardware_check_is_due_after_five_seconds() {
    assert!(!RfWorker::hardware_check_due(0));
    assert!(!RfWorker::hardware_check_due(4_999_999_999));
    assert!(!RfWorker::hardware_check_due(5_000_000_000));
    assert!(RfWorker::hardware_check_due(5_000_000_001));
    assert!(RfWorker::hardware_check_due(u128::MAX));
}

#[test]
fn oversampling_ratio() {
    assert_eq!(RfWorker::new(44_100, true).samples_per_audio_tick(), 45);
    assert_eq!(RfWorker::new(48_000, true).samples_per_audio_tick(), 41);
    assert_eq!(RfWorker::new(2_000_000, true).samples_per_audio_tick(), 1);
    assert_eq!(RfWorker::new(2_000_001, true).samples_per_audio_tick(), 0);
    assert_eq!(RfWorker::new(1, true).samples_per_audio_tick(), 2_000_000);
    assert_eq!(RfWorker::new(0, true).samples_per_audio_tick(), usize::MAX);
}

#[test]
fn oversampling_ratio_agrees_with_float_division() {
    for rate in [8_000u32, 11_025, 16_000, 22_050, 32_000, 44_100, 48_000, 88_200, 96_000, 192_000] {
        let expected = (2_000_000.0f32 / rate as f32) as usize;
        assert_eq!(RfWorker::new(rate, true).samples_per_audio_tick(), expected);
    }
}

#[test]
fn audio_steps_per_chunk() {
    assert_eq!(RfWorker::audio_steps_per_chunk(45), 91);
    assert_eq!(RfWorker::audio_steps_per_chunk(41), 99);
    assert_eq!(RfWorker::audio_steps_per_chunk(1), 4096);
    assert_eq!(RfWorker::audio_steps_per_chunk(4096), 1);
    assert_eq!(RfWorker::audio_steps_per_chunk(4097), 0);
    assert_eq!(RfWorker::audio_steps_per_chunk(usize::MAX), 0);
}

#[test]
fn am_samples_are_level_and_zero_interleaved() {
    let mut buffer = vec![9u8];
    RfWorker::push_am(&mut buffer, 127, 3);
    assert_eq!(buffer, vec![9, 127, 0, 127, 0, 127, 0]);
    RfWorker::push_am(&mut buffer, -127, 1);
    assert_eq!(buffer[7..], [0x81, 0]);
    RfWorker::push_am(&mut buffer, 5, 0);
    assert_eq!(buffer.len(), 9);
}

#[test]
fn am_round_trip_recovers_every_level() {
    for level in i8::MIN..=i8::MAX {
        let mut buffer = Vec::new();
        RfWorker::push_am(&mut buffer, level, 45);
        assert_eq!(buffer.len(), 90);
        for pair in buffer.chunks(2) {
            assert_eq!(pair[0] as i8, level);
            assert_eq!(pair[1], 0);
        }
    }
}

#[test]
fn am_round_trip_of_a_baseband_value_is_within_one_level() {
    // Quantising a value to a level, framing it and reading the byte back
    // recovers the value within one step of 1/127.
    for k in -100..=100 {
        let value = k as f32 / 100.0;
        let level = (value * 127.0).clamp(-127.0, 127.0) as i8;
        let mut buffer = Vec::new();
        RfWorker::push_am(&mut buffer, level, 1);
        let decoded = (buffer[0] as i8) as f32 / 127.0;
        assert!((decoded - value).abs() <= 1.0 / 127.0, "value {}", value);
    }
}

#[test]
fn quadrature_pairs_are_in_phase_first() {
    let mut buffer = Vec::new();
    RfWorker::push_iq(&mut buffer, 127, 0);
    RfWorker::push_iq(&mut buffer, 0, -127);
    RfWorker::push_iq(&mut buffer, -1, -128);
    assert_eq!(buffer, vec![127, 0, 0, 0x81, 0xFF, 0x80]);
}

#[test]
fn transmitter_arguments() {
    assert_eq!(
        transfer_args(1_420_405_752, 30),
        vec!["-t", "-", "-f", "1420405752", "-s", "2000000", "-a", "1", "-x", "30"]
    );
    assert_eq!(
        transfer_args(0, 0),
        vec!["-t", "-", "-f", "0", "-s", "2000000", "-a", "1", "-x", "0"]
    );
    assert_eq!(transfer_args(u64::MAX, u32::MAX)[3], u64::MAX.to_string());
    assert_eq!(transfer_args(u64::MAX, u32::MAX)[9], u32::MAX.to_string());
}
