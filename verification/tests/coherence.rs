use soulwhistle::coherence::{
    session_phase_at, BeingType, CoherenceFrame, CoherenceParams, CoherenceSynth, SessionPhase,
    GAMMA_BEAT_MILLIHZ, GAMMA_CARRIER_MILLIHZ,
};

const RATE: u32 = 44_100;

fn at(samples: u64, params: &CoherenceParams) -> SessionPhase {
    session_phase_at(params, samples, RATE)
}

fn minutes(m: u64) -> u64 {
    m * 60 * RATE as u64
}

/// An engine that has counted `samples` samples of a session.
fn engine_after(samples: u64, params: &CoherenceParams) -> CoherenceSynth {
    let mut synth = CoherenceSynth::new(RATE);
    for _ in 0..samples {
        synth.update_timer(params);
    }
    synth
}

fn tone(frame: CoherenceFrame) -> (u32, u32, bool, bool, u32, u32) {
    match frame {
        CoherenceFrame::Tone {
            left_millihz,
            right_millihz,
            harmonic_220hz,
            harmonic_495hz,
            volume_ppm,
            phase_gain_ppm,
        } => (left_millihz, right_millihz, harmonic_220hz, harmonic_495hz, volume_ppm, phase_gain_ppm),
        CoherenceFrame::Silent => panic!("expected a tone"),
    }
}

#[test]
fn default_preset_filenames() {
    assert_eq!(BeingType::Unknown.default_preset_filename(), "DEFAULT_uap_frequencies.json");
    assert_eq!(BeingType::HumanFocus10.default_preset_filename(), "DEFAULT_focus_10_mind_awake.json");
    assert_eq!(BeingType::HumanFocus12.default_preset_filename(), "DEFAULT_focus_12_expanded.json");
    assert_eq!(BeingType::HumanFocus15.default_preset_filename(), "DEFAULT_focus_15_no_time.json");
    assert_eq!(BeingType::HumanFocus21.default_preset_filename(), "DEFAULT_focus_21_bridge.json");
    assert_eq!(BeingType::HumanCustom.default_preset_filename(), "DEFAULT_deep_focus_active.json");
}

#[test]
fn default_params_are_off_with_a_thirty_minute_session() {
    let p = CoherenceParams::default();
    assert!(!p.enabled);
    assert_eq!(p.being_type, BeingType::Unknown);
    assert_eq!(p.left_carrier_millihz, 400_000);
    assert_eq!(p.right_carrier_millihz, 400_000);
    assert!(!p.harmonic_220hz);
    assert!(!p.harmonic_495hz);
    assert_eq!(p.custom_binaural_millihz, 4_100);
    assert_eq!(p.volume_ppm, 500_000);
    assert_eq!(p.startup_end_ms(), 2 * 60_000);
    assert_eq!(p.induction_end_ms(), 15 * 60_000);
    assert_eq!(p.stabilization_end_ms(), 25 * 60_000);
    assert_eq!(p.total_session_ms(), 30 * 60_000);
    assert_eq!(p.binaural_beat_millihz(), 0);
}

#[test]
fn cumulative_ends_do_not_overflow() {
    let mut p = CoherenceParams::default();
    p.startup_duration_ms = u32::MAX;
    p.induction_duration_ms = u32::MAX;
    p.stabilization_duration_ms = u32::MAX;
    p.return_duration_ms = u32::MAX;
    assert_eq!(p.total_session_ms(), 4 * (u32::MAX as u64));
    assert_eq!(at(u64::MAX, &p), SessionPhase::Return);
    assert_eq!(at(0, &p), SessionPhase::Startup);
}

#[test]
fn custom_binaural_sets_carriers_and_harmonics() {
    let mut p = CoherenceParams::default();
    p.apply_custom_binaural(6_000);
    assert_eq!(p.custom_binaural_millihz, 6_000);
    assert_eq!(p.left_carrier_millihz, 400_000);
    assert_eq!(p.right_carrier_millihz, 406_000);
    assert_eq!(p.binaural_beat_millihz(), 6_000);
    assert!(p.harmonic_220hz);
    assert!(!p.harmonic_495hz);

    p.apply_custom_binaural(3_999);
    assert!(p.harmonic_220hz && p.harmonic_495hz);
    p.apply_custom_binaural(4_000);
    assert!(p.harmonic_220hz && !p.harmonic_495hz);
    p.apply_custom_binaural(8_000);
    assert!(!p.harmonic_220hz && !p.harmonic_495hz);
}

#[test]
fn custom_binaural_is_clamped() {
    let mut p = CoherenceParams::default();
    p.apply_custom_binaural(0);
    assert_eq!(p.custom_binaural_millihz, 100);
    assert_eq!(p.right_carrier_millihz, 400_100);
    p.apply_custom_binaural(99);
    assert_eq!(p.custom_binaural_millihz, 100);
    p.apply_custom_binaural(100);
    assert_eq!(p.custom_binaural_millihz, 100);
    p.apply_custom_binaural(30_000);
    assert_eq!(p.custom_binaural_millihz, 30_000);
    p.apply_custom_binaural(30_001);
    assert_eq!(p.custom_binaural_millihz, 30_000);
    p.apply_custom_binaural(u32::MAX);
    assert_eq!(p.custom_binaural_millihz, 30_000);
    assert_eq!(p.right_carrier_millihz, 430_000);
    assert!(!p.harmonic_220hz);
}

#[test]
fn custom_binaural_keeps_the_other_fields() {
    let mut p = CoherenceParams::default();
    p.enabled = true;
    p.being_type = BeingType::HumanCustom;
    p.volume_ppm = 123_456;
    p.return_duration_ms = 7;
    p.apply_custom_binaural(5_000);
    assert!(p.enabled);
    assert_eq!(p.being_type, BeingType::HumanCustom);
    assert_eq!(p.volume_ppm, 123_456);
    assert_eq!(p.return_duration_ms, 7);
    assert_eq!(p.startup_duration_ms, 120_000);
}

#[test]
fn beat_is_the_distance_of_the_carriers() {
    let mut p = CoherenceParams::default();
    p.left_carrier_millihz = 100_000;
    p.right_carrier_millihz = 104_100;
    assert_eq!(p.binaural_beat_millihz(), 4_100);
    p.left_carrier_millihz = 304_800;
    p.right_carrier_millihz = 300_000;
    assert_eq!(p.binaural_beat_millihz(), 4_800);
    p.left_carrier_millihz = 0;
    p.right_carrier_millihz = u32::MAX;
    assert_eq!(p.binaural_beat_millihz(), u32::MAX);
}

#[test]
fn brainwave_bands() {
    let mut p = CoherenceParams::default();
    let mut band = |beat: u32| {
        p.left_carrier_millihz = 400_000;
        p.right_carrier_millihz = 400_000 + beat;
        p.brainwave_state()
    };
    assert_eq!(band(0), "Delta (deep)");
    assert_eq!(band(3_999), "Delta (deep)");
    assert_eq!(band(4_000), "Theta (meditation)");
    assert_eq!(band(7_999), "Theta (meditation)");
    assert_eq!(band(8_000), "Alpha (relaxed)");
    assert_eq!(band(11_999), "Alpha (relaxed)");
    assert_eq!(band(12_000), "Beta (alert)");
    assert_eq!(band(29_999), "Beta (alert)");
    assert_eq!(band(30_000), "Gamma (focus)");
    assert_eq!(band(393_000), "Gamma (focus)");
}

#[test]
fn phases_follow_the_cumulative_boundaries() {
    let p = CoherenceParams::default();
    assert_eq!(at(0, &p), SessionPhase::Startup);
    assert_eq!(at(minutes(2) - 1, &p), SessionPhase::Startup);
    assert_eq!(at(minutes(2), &p), SessionPhase::Induction);
    assert_eq!(at(minutes(15) - 1, &p), SessionPhase::Induction);
    assert_eq!(at(minutes(15), &p), SessionPhase::Stabilization);
    assert_eq!(at(minutes(25) - 1, &p), SessionPhase::Stabilization);
    assert_eq!(at(minutes(25), &p), SessionPhase::Return);
    assert_eq!(at(minutes(30), &p), SessionPhase::Return);
    assert_eq!(at(minutes(600), &p), SessionPhase::Return);
}

#[test]
fn phases_without_extent_are_passed_over() {
    let mut p = CoherenceParams::default();
    p.startup_duration_ms = 0;
    assert_eq!(at(0, &p), SessionPhase::Induction);
    p.induction_duration_ms = 0;
    assert_eq!(at(0, &p), SessionPhase::Stabilization);
    p.stabilization_duration_ms = 0;
    assert_eq!(at(0, &p), SessionPhase::Return);
}

#[test]
fn phase_boundary_between_two_samples() {
    // One millisecond at 44.1 kHz is 44.1 samples: sample 44 still lies before
    // the boundary, sample 45 behind it.
    let mut p = CoherenceParams::default();
    p.startup_duration_ms = 1;
    assert_eq!(at(44, &p), SessionPhase::Startup);
    assert_eq!(at(45, &p), SessionPhase::Induction);
}

#[test]
fn phase_at_rate_zero_is_return() {
    let p = CoherenceParams::default();
    assert_eq!(session_phase_at(&p, 0, 0), SessionPhase::Return);
    assert_eq!(session_phase_at(&p, 1000, 0), SessionPhase::Return);
}

#[test]
fn phases_never_go_back_as_time_moves_on() {
    let p = CoherenceParams::default();
    let rank = |phase: SessionPhase| match phase {
        SessionPhase::Startup => 0,
        SessionPhase::Induction => 1,
        SessionPhase::Stabilization => 2,
        SessionPhase::Return => 3,
    };
    let mut last = 0;
    let mut samples: u64 = 0;
    while samples <= minutes(31) {
        let now = rank(at(samples, &p));
        assert!(now >= last);
        last = now;
        samples += 7 * RATE as u64 + 13;
    }
    assert_eq!(last, 3);
}

#[test]
fn update_timer_counts_and_tracks_the_phase() {
    let mut p = CoherenceParams::default();
    p.startup_duration_ms = 1;
    p.induction_duration_ms = 1;
    p.stabilization_duration_ms = 1;
    let mut synth = CoherenceSynth::new(1000);
    assert_eq!(synth.get_session_info(), (0, SessionPhase::Startup));
    synth.update_timer(&p);
    assert_eq!(synth.get_session_info(), (1, SessionPhase::Induction));
    synth.update_timer(&p);
    assert_eq!(synth.get_session_info(), (2, SessionPhase::Stabilization));
    synth.update_timer(&p);
    assert_eq!(synth.get_session_info(), (3, SessionPhase::Return));
    synth.update_timer(&p);
    assert_eq!(synth.get_session_info(), (4, SessionPhase::Return));
}

#[test]
fn reset_returns_to_startup_with_no_time_elapsed() {
    let mut p = CoherenceParams::default();
    p.enabled = true;
    p.being_type = BeingType::HumanFocus10;
    p.startup_duration_ms = 0;
    let mut synth = CoherenceSynth::new(10);
    for _ in 0..400 {
        let _ = synth.next_sample(&p);
    }
    assert_eq!(synth.get_session_info(), (400, SessionPhase::Induction));
    synth.reset();
    assert_eq!(synth.get_session_info(), (0, SessionPhase::Startup));
    assert_eq!(synth.sample_rate(), 10);
    // The burst timer starts over as well: the next burst is a full interval away.
    for _ in 0..349 {
        assert_eq!(tone(synth.next_sample(&p)).0, 400_000);
    }
    assert_eq!(tone(synth.next_sample(&p)).0, GAMMA_CARRIER_MILLIHZ);
}

#[test]
fn startup_gain_ramps_linearly() {
    let p = CoherenceParams::default();
    let mut synth = CoherenceSynth::new(1);
    // At one sample a second the startup phase lasts 120 samples.
    assert_eq!(synth.get_phase_volume_multiplier(&p), 0);
    for _ in 0..30 {
        synth.update_timer(&p);
    }
    assert_eq!(synth.get_phase_volume_multiplier(&p), 250_000);
    for _ in 0..30 {
        synth.update_timer(&p);
    }
    assert_eq!(synth.get_phase_volume_multiplier(&p), 500_000);
    for _ in 0..59 {
        synth.update_timer(&p);
    }
    assert_eq!(synth.get_session_info(), (119, SessionPhase::Startup));
    assert_eq!(synth.get_phase_volume_multiplier(&p), 991_666);
    synth.update_timer(&p);
    assert_eq!(synth.get_session_info(), (120, SessionPhase::Induction));
    assert_eq!(synth.get_phase_volume_multiplier(&p), 1_000_000);
}

#[test]
fn startup_gain_reaches_full_scale_at_the_boundary_even_when_the_phase_is_stale() {
    // The phase is only brought up to date by the timer. With durations that
    // change under a running session the stored phase can lag behind; the ramp
    // then holds at full scale rather than running past it.
    let long = CoherenceParams::default();
    let mut short = long;
    short.startup_duration_ms = 10_000;
    let mut synth = CoherenceSynth::new(1);
    for _ in 0..10 {
        synth.update_timer(&long);
    }
    assert_eq!(synth.get_session_info(), (10, SessionPhase::Startup));
    assert_eq!(synth.get_phase_volume_multiplier(&short), 1_000_000);
    for _ in 0..5 {
        synth.update_timer(&long);
    }
    assert_eq!(synth.get_phase_volume_multiplier(&short), 1_000_000);
}

#[test]
fn return_gain_holds_full_scale_before_the_ramp_begins() {
    // A stored return phase with a session time that lies before the return:
    // the ramp has not begun, so the gain is full scale.
    let mut ended = CoherenceParams::default();
    ended.startup_duration_ms = 0;
    ended.induction_duration_ms = 0;
    ended.stabilization_duration_ms = 0;
    let synth = engine_after(3, &ended);
    assert_eq!(synth.get_session_info(), (3, SessionPhase::Return));
    assert_eq!(synth.get_phase_volume_multiplier(&CoherenceParams::default()), 1_000_000);
}

#[test]
fn gain_of_default_session_at_minute_fifteen_and_thirty() {
    let p = CoherenceParams::default();
    let rate: u64 = 1;
    let mut synth = CoherenceSynth::new(rate as u32);
    for _ in 0..15 * 60 * rate {
        synth.update_timer(&p);
    }
    assert_eq!(synth.get_session_info().1, SessionPhase::Stabilization);
    assert_eq!(synth.get_phase_volume_multiplier(&p), 1_000_000);
    for _ in 0..10 * 60 * rate {
        synth.update_timer(&p);
    }
    // Minute 25: the return begins at full scale.
    assert_eq!(synth.get_session_info().1, SessionPhase::Return);
    assert_eq!(synth.get_phase_volume_multiplier(&p), 1_000_000);
    for _ in 0..150 * rate {
        synth.update_timer(&p);
    }
    // Half way through the return: 1.0 - 0.35.
    assert_eq!(synth.get_phase_volume_multiplier(&p), 650_000);
    for _ in 0..150 * rate {
        synth.update_timer(&p);
    }
    // Minute 30: the floor, and it holds from there on.
    assert_eq!(synth.get_phase_volume_multiplier(&p), 300_000);
    for _ in 0..1000 {
        synth.update_timer(&p);
    }
    assert_eq!(synth.get_phase_volume_multiplier(&p), 300_000);
}

#[test]
fn return_gain_one_sample_into_the_ramp() {
    let p = CoherenceParams::default();
    let mut synth = CoherenceSynth::new(1);
    for _ in 0..25 * 60 + 1 {
        synth.update_timer(&p);
    }
    // 700000 * 1 / 300 = 2333 (rounded down) below full scale.
    assert_eq!(synth.get_phase_volume_multiplier(&p), 1_000_000 - 2_333);
}

#[test]
fn phases_without_extent_take_their_end_value() {
    let mut p = CoherenceParams::default();
    p.startup_duration_ms = 0;
    let synth = CoherenceSynth::new(RATE);
    assert_eq!(synth.get_session_info().1, SessionPhase::Startup);
    assert_eq!(synth.get_phase_volume_multiplier(&p), 1_000_000);

    let mut q = CoherenceParams::default();
    q.startup_duration_ms = 0;
    q.induction_duration_ms = 0;
    q.stabilization_duration_ms = 0;
    q.return_duration_ms = 0;
    let mut ended = CoherenceSynth::new(RATE);
    ended.update_timer(&q);
    assert_eq!(ended.get_session_info().1, SessionPhase::Return);
    assert_eq!(ended.get_phase_volume_multiplier(&q), 300_000);
}

#[test]
fn disabled_engine_is_silent_and_stands_still() {
    let mut p = CoherenceParams::default();
    p.being_type = BeingType::HumanFocus10;
    p.startup_duration_ms = 0;
    let mut synth = CoherenceSynth::new(1);
    for _ in 0..100 {
        assert_eq!(synth.next_sample(&p), CoherenceFrame::Silent);
    }
    // A disabled engine keeps its clock as well.
    assert_eq!(synth.get_session_info(), (0, SessionPhase::Startup));
    // No burst time was counted while disabled: the first burst still comes
    // with the 35th sample after enabling.
    p.enabled = true;
    for _ in 0..34 {
        assert_eq!(tone(synth.next_sample(&p)).0, 400_000);
    }
    assert_eq!(tone(synth.next_sample(&p)).0, GAMMA_CARRIER_MILLIHZ);
}

#[test]
fn tone_carries_the_configuration() {
    let mut p = CoherenceParams::default();
    p.enabled = true;
    p.being_type = BeingType::HumanFocus12;
    p.left_carrier_millihz = 100_000;
    p.right_carrier_millihz = 101_500;
    p.harmonic_495hz = true;
    p.volume_ppm = 420_000;
    p.startup_duration_ms = 0;
    let mut synth = CoherenceSynth::new(RATE);
    assert_eq!(
        synth.next_sample(&p),
        CoherenceFrame::Tone {
            left_millihz: 100_000,
            right_millihz: 101_500,
            harmonic_220hz: false,
            harmonic_495hz: true,
            volume_ppm: 420_000,
            phase_gain_ppm: 1_000_000,
        }
    );
}

#[test]
fn generating_a_sample_advances_the_session_clock() {
    let mut p = CoherenceParams::default();
    p.enabled = true;
    p.being_type = BeingType::HumanFocus12;
    let mut synth = CoherenceSynth::new(RATE);
    for n in 0..1000u64 {
        assert_eq!(synth.get_session_info().0, n);
        let _ = synth.next_sample(&p);
        assert_eq!(synth.get_session_info().0, n + 1);
    }
    assert_eq!(synth.get_session_info(), (1000, SessionPhase::Startup));
    assert_eq!(synth.session_timer_ms(), 22);
    // 1000 samples into a startup of 5292000 samples.
    assert_eq!(tone(synth.next_sample(&p)).5, 188);
}

#[test]
fn a_session_runs_through_its_phases_by_generating_alone() {
    let mut p = CoherenceParams::default();
    p.enabled = true;
    p.being_type = BeingType::HumanFocus12;
    p.startup_duration_ms = 2_000;
    p.induction_duration_ms = 3_000;
    p.stabilization_duration_ms = 1_000;
    p.return_duration_ms = 4_000;
    let mut synth = CoherenceSynth::new(1);
    let mut phases = Vec::new();
    let mut gains = Vec::new();
    for _ in 0..12 {
        gains.push(tone(synth.next_sample(&p)).5);
        phases.push(synth.get_session_info().1);
    }
    assert_eq!(synth.get_session_info().0, 12);
    // The phase after each sample is the phase of the new session time.
    assert_eq!(
        phases,
        vec![
            SessionPhase::Startup,
            SessionPhase::Induction,
            SessionPhase::Induction,
            SessionPhase::Induction,
            SessionPhase::Stabilization,
            SessionPhase::Return,
            SessionPhase::Return,
            SessionPhase::Return,
            SessionPhase::Return,
            SessionPhase::Return,
            SessionPhase::Return,
            SessionPhase::Return,
        ]
    );
    // The gain of a sample is the gain at the time the sample begins.
    assert_eq!(
        gains,
        vec![
            0, 500_000, 1_000_000, 1_000_000, 1_000_000, 1_000_000, 1_000_000, 825_000, 650_000,
            475_000, 300_000, 300_000
        ]
    );
}

#[test]
fn generating_and_ticking_move_the_clock_alike() {
    let mut p = CoherenceParams::default();
    p.enabled = true;
    p.being_type = BeingType::HumanFocus15;
    p.startup_duration_ms = 3;
    p.induction_duration_ms = 3;
    p.stabilization_duration_ms = 3;
    let mut generating = CoherenceSynth::new(1000);
    let mut silent = CoherenceSynth::new(1000);
    for _ in 0..12 {
        let _ = generating.next_sample(&p);
        silent.update_timer(&p);
        assert_eq!(generating.get_session_info(), silent.get_session_info());
    }
    assert_eq!(generating.get_session_info(), (12, SessionPhase::Return));
}

#[test]
fn advance_counts_every_sample_once() {
    let mut enabled = CoherenceParams::default();
    enabled.enabled = true;
    enabled.startup_duration_ms = 0;
    let disabled = CoherenceParams::default();
    let mut synth = CoherenceSynth::new(RATE);
    assert!(matches!(synth.advance(&enabled, true), CoherenceFrame::Tone { .. }));
    assert_eq!(synth.get_session_info().0, 1);
    assert_eq!(synth.advance(&enabled, false), CoherenceFrame::Silent);
    assert_eq!(synth.get_session_info().0, 2);
    assert_eq!(synth.advance(&disabled, true), CoherenceFrame::Silent);
    assert_eq!(synth.get_session_info().0, 3);
    assert_eq!(synth.advance(&disabled, false), CoherenceFrame::Silent);
    assert_eq!(synth.get_session_info(), (4, SessionPhase::Startup));
    assert_eq!(synth.advance(&enabled, false), CoherenceFrame::Silent);
    assert_eq!(synth.get_session_info(), (5, SessionPhase::Induction));
}

#[test]
fn gamma_bursts_come_every_interval_and_last_their_length() {
    let mut p = CoherenceParams::default();
    p.enabled = true;
    p.being_type = BeingType::HumanFocus10;
    p.left_carrier_millihz = 100_000;
    p.right_carrier_millihz = 104_100;
    let rate: u32 = 4;
    let interval = 35 * rate as usize;
    let length = 3 * rate as usize;
    let mut synth = CoherenceSynth::new(rate);
    let mut burst = Vec::new();
    for _ in 0..3 * (interval + length) {
        let (left, right, ..) = tone(synth.next_sample(&p));
        if left == GAMMA_CARRIER_MILLIHZ {
            assert_eq!(right, GAMMA_CARRIER_MILLIHZ + GAMMA_BEAT_MILLIHZ);
            burst.push(true);
        } else {
            assert_eq!((left, right), (100_000, 104_100));
            burst.push(false);
        }
    }
    // The first burst begins with the sample that completes the interval and
    // lasts `length` samples; then the timer starts over.
    let mut expected = Vec::new();
    while expected.len() < burst.len() {
        for _ in 0..interval - 1 {
            expected.push(false);
        }
        for _ in 0..length {
            expected.push(true);
        }
    }
    expected.truncate(burst.len());
    assert_eq!(burst, expected);
}

#[test]
fn gamma_pair_is_300_and_693_hertz() {
    assert_eq!(GAMMA_CARRIER_MILLIHZ, 300_000);
    assert_eq!(GAMMA_CARRIER_MILLIHZ + GAMMA_BEAT_MILLIHZ, 693_000);
}

#[test]
fn other_targets_have_no_bursts() {
    for being in [
        BeingType::Unknown,
        BeingType::HumanFocus12,
        BeingType::HumanFocus15,
        BeingType::HumanFocus21,
        BeingType::HumanCustom,
    ] {
        let mut p = CoherenceParams::default();
        p.enabled = true;
        p.being_type = being;
        let mut synth = CoherenceSynth::new(1);
        for _ in 0..200 {
            assert_eq!(tone(synth.next_sample(&p)).0, 400_000);
        }
    }
}

#[test]
fn bursts_at_rate_zero_sound_on_every_sample() {
    let mut p = CoherenceParams::default();
    p.enabled = true;
    p.being_type = BeingType::HumanFocus10;
    let mut synth = CoherenceSynth::new(0);
    for _ in 0..10 {
        assert_eq!(tone(synth.next_sample(&p)).0, GAMMA_CARRIER_MILLIHZ);
    }
}

#[test]
fn phase_is_brought_up_to_date_on_request() {
    let long = CoherenceParams::default();
    let mut short = long;
    short.startup_duration_ms = 1_000;
    let mut synth = CoherenceSynth::new(1);
    for _ in 0..5 {
        synth.update_timer(&long);
    }
    assert_eq!(synth.get_session_info(), (5, SessionPhase::Startup));
    synth.update_session_phase(&short);
    assert_eq!(synth.get_session_info(), (5, SessionPhase::Induction));
    synth.update_session_phase(&long);
    assert_eq!(synth.get_session_info(), (5, SessionPhase::Startup));
}

#[test]
fn session_time_in_milliseconds() {
    let p = CoherenceParams::default();
    let mut synth = CoherenceSynth::new(44_100);
    assert_eq!(synth.session_timer_ms(), 0);
    for _ in 0..44 {
        synth.update_timer(&p);
    }
    assert_eq!(synth.session_timer_ms(), 0);
    synth.update_timer(&p);
    assert_eq!(synth.session_timer_ms(), 1);
    for _ in 0..44_055 {
        synth.update_timer(&p);
    }
    assert_eq!(synth.get_session_info().0, 44_100);
    assert_eq!(synth.session_timer_ms(), 1000);
    let mut still = CoherenceSynth::new(0);
    assert_eq!(still.session_timer_ms(), 0);
    still.update_timer(&p);
    assert_eq!(still.session_timer_ms(), u64::MAX);
}

/// Phase by a floating-point clock in minutes.
fn phase_by_minutes(samples: u64, rate: f32, durations_min: [f32; 4]) -> SessionPhase {
    let minutes = (samples as f32 / rate) / 60.0;
    let startup_end = durations_min[0];
    let induction_end = startup_end + durations_min[1];
    let stabilization_end = induction_end + durations_min[2];
    if minutes < startup_end {
        SessionPhase::Startup
    } else if minutes < induction_end {
        SessionPhase::Induction
    } else if minutes < stabilization_end {
        SessionPhase::Stabilization
    } else {
        SessionPhase::Return
    }
}

#[test]
fn phases_agree_with_a_clock_in_minutes() {
    let p = CoherenceParams::default();
    let mut samples: u64 = 0;
    // Steps that never land within a second of a boundary.
    while samples < 40 * 60 * 44_100 {
        assert_eq!(
            at(samples, &p),
            phase_by_minutes(samples, 44_100.0, [2.0, 13.0, 10.0, 5.0]),
            "samples {}",
            samples
        );
        samples += 44_100 * 7 + 22_050;
    }
}

#[test]
fn gains_agree_with_the_ramps_in_minutes() {
    let p = CoherenceParams::default();
    let rate: u32 = 8;
    let mut synth = CoherenceSynth::new(rate);
    for samples in 0..(31 * 60 * rate as u64) {
        let minutes = (samples as f32 / rate as f32) / 60.0;
        let expected = match synth.get_session_info().1 {
            SessionPhase::Startup => (minutes / 2.0).min(1.0),
            SessionPhase::Induction | SessionPhase::Stabilization => 1.0,
            SessionPhase::Return => 1.0 - (((minutes - 25.0) / 5.0) * 0.7).min(0.7),
        };
        let gain = synth.get_phase_volume_multiplier(&p) as f32 / 1_000_000.0;
        assert!((gain - expected).abs() < 1e-4, "samples {}: {} vs {}", samples, gain, expected);
        synth.update_timer(&p);
    }
}
