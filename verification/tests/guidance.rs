use betterjeb::interpolate::Interpolate;
use betterjeb::launch::{is_terminal, step, AscentConfig, State, StagingMonitor};
use betterjeb::telemetry::{Attitude, Channel, StreamTable};

fn config() -> AscentConfig {
    AscentConfig {
        heading: 90_000,
        turn_alt: 1_000_000,
        track_alt: 24_000_000,
        target_apoapsis: 100_000_000,
        atmosphere_alt: 70_000_000,
        target_periapsis: 80_000_000,
        eta_burn: 10_000,
        pitch_tolerance: 500,
        pitch_program: Interpolate::new((100_000, 32_000_000), (90_000, 0)),
        aoa_program: Interpolate::new((1_000_000, 18_000_000), (5_000, 25_000)),
    }
}

#[test]
fn launch_ignites_and_advances() {
    let cfg = config();
    let t = Attitude::default();
    let (next, cmds) = step(State::Launch, &t, &cfg);
    assert_eq!(next, State::Ascent);
    assert_eq!(cmds.attitude, Some((90_000, 90_000)));
    assert!(cmds.engage);
    assert!(cmds.next_stage);
    assert!(!cmds.disengage);
}

#[test]
fn ascent_holds_below_turn_altitude() {
    let cfg = config();
    let t = Attitude { alt: 500_000, ..Attitude::default() };
    let (next, cmds) = step(State::Ascent, &t, &cfg);
    assert_eq!(next, State::Ascent);
    assert_eq!(cmds.throttle, None);
    assert_eq!(cmds.pitch, None);
}

#[test]
fn ascent_advances_to_turn_at_altitude() {
    // Vehicle climbing through 1200 m while in Ascent: the next evaluation
    // must hand over to the gravity turn.
    let cfg = config();
    let t = Attitude { alt: 1_200_000, ..Attitude::default() };
    let (next, _) = step(State::Ascent, &t, &cfg);
    assert_eq!(next, State::Turn);
}

#[test]
fn turn_commands_scheduled_pitch() {
    let cfg = config();
    // Above the tracking altitude the scheduled program value is commanded
    // unmodified.
    let t = Attitude { alt: 30_000_000, pitch: 20_000, aoa: 1_000, ..Attitude::default() };
    let (next, cmds) = step(State::Turn, &t, &cfg);
    assert_eq!(next, State::Turn);
    let scheduled = cfg.pitch_program.inter(30_000_000);
    assert_eq!(cmds.pitch, Some(scheduled));
}

#[test]
fn turn_bounds_pitch_near_velocity_vector() {
    let cfg = config();
    // Below the tracking altitude the command must not exceed measured
    // pitch less angle of attack less the scheduled margin.
    let t = Attitude { alt: 10_000_000, pitch: 80_000, aoa: 2_000, ..Attitude::default() };
    let (_, cmds) = step(State::Turn, &t, &cfg);
    let scheduled = cfg.pitch_program.inter(10_000_000);
    let bound = t.pitch - t.aoa - cfg.aoa_program.inter(10_000_000);
    assert_eq!(cmds.pitch, Some(scheduled.min(bound)));
    assert!(cmds.pitch.unwrap() <= bound);
}

#[test]
fn turn_ends_when_apoapsis_reached() {
    let cfg = config();
    let t = Attitude { alt: 40_000_000, apop: 100_500_000, ..Attitude::default() };
    let (next, _) = step(State::Turn, &t, &cfg);
    assert_eq!(next, State::Coast);
}

#[test]
fn coast_cuts_throttle_until_space() {
    let cfg = config();
    let t = Attitude { alt: 50_000_000, ..Attitude::default() };
    let (next, cmds) = step(State::Coast, &t, &cfg);
    assert_eq!(next, State::Coast);
    assert_eq!(cmds.throttle, Some(0));

    let t = Attitude { alt: 70_500_000, ..Attitude::default() };
    let (next, _) = step(State::Coast, &t, &cfg);
    assert_eq!(next, State::Circularize);
}

#[test]
fn circularize_burns_near_apoapsis() {
    let cfg = config();
    let t = Attitude { alt: 72_000_000, perip: 20_000_000, eta_apop: 8_000, ..Attitude::default() };
    let (next, cmds) = step(State::Circularize, &t, &cfg);
    assert_eq!(next, State::Circularize);
    assert_eq!(cmds.throttle, Some(1000));

    let t = Attitude { alt: 72_000_000, perip: 20_000_000, eta_apop: 60_000, ..Attitude::default() };
    let (_, cmds) = step(State::Circularize, &t, &cfg);
    assert_eq!(cmds.throttle, Some(0));
}

#[test]
fn circularize_levels_pitch() {
    let cfg = config();
    let t = Attitude { pitch: 3_000, perip: 20_000_000, eta_apop: 60_000, ..Attitude::default() };
    let (_, cmds) = step(State::Circularize, &t, &cfg);
    assert_eq!(cmds.pitch, Some(0));

    let t = Attitude { pitch: 200, perip: 20_000_000, eta_apop: 60_000, ..Attitude::default() };
    let (_, cmds) = step(State::Circularize, &t, &cfg);
    assert_eq!(cmds.pitch, None);
}

#[test]
fn insertion_finishes_exactly_once() {
    // Periapsis 81000 m against a target of 80000 m: circularization is
    // done; the run transitions to Orbit and issues the zero-throttle and
    // disengage commands exactly once before the loop ends.
    let cfg = config();
    let t = Attitude { perip: 81_000_000, eta_apop: 60_000, ..Attitude::default() };
    let mut state = State::Circularize;
    let mut finish_commands: u32 = 0;
    loop {
        let (next, cmds) = step(state, &t, &cfg);
        if cmds.throttle == Some(0) && cmds.disengage {
            finish_commands += 1;
        }
        state = next;
        if is_terminal(state) && cmds.disengage {
            break;
        }
        assert!(finish_commands <= 1);
    }
    assert_eq!(state, State::Orbit);
    assert_eq!(finish_commands, 1);
}

#[test]
fn staging_fires_once_per_stage() {
    let mut monitor = StagingMonitor::new();
    // Thrust builds up on stage 2: no staging.
    assert!(!monitor.observe(100_000, 2));
    assert!(!monitor.observe(120_000, 2));
    // Thrust drops on the same, not yet staged-from, index: stage once.
    assert!(monitor.observe(90_000, 2));
    // Further drops on that index are fluctuation.
    assert!(!monitor.observe(50_000, 2));
    assert!(!monitor.observe(10_000, 2));
    // The next stage builds thrust, then drops: stage again.
    assert!(!monitor.observe(80_000, 3));
    assert!(monitor.observe(60_000, 3));
}

#[test]
fn telemetry_keeps_latest_values() {
    let table = StreamTable {
        alt: 11,
        aoa: 12,
        pitch: 13,
        apop: 14,
        perip: 15,
        eta_apop: 16,
        thrust: 17,
        stage: 18,
        mass: 19,
        isp: 20,
    };
    let mut att = Attitude::default();
    assert_eq!(att.alt, 0);
    // A partial update: only altitude, pitch and mass arrive, plus a handle
    // the table does not know, which is ignored.
    let batch: Vec<(u64, i64)> = vec![(11, 1_200_000), (13, 45_000), (19, 9_250_000), (99, 7)];
    att.apply_update(&table, &batch);
    assert_eq!(att.alt, 1_200_000);
    assert_eq!(att.pitch, 45_000);
    assert_eq!(att.mass, 9_250_000);
    assert_eq!(att.apop, 0);
    assert_eq!(att.isp, 0);
    // A later sample for the same channel wins, within one batch too.
    let batch: Vec<(u64, i64)> = vec![(11, 1_250_000), (11, 1_300_000)];
    att.apply_update(&table, &batch);
    assert_eq!(att.alt, 1_300_000);
    assert_eq!(att.pitch, 45_000);
}

#[test]
fn telemetry_channel_lookup() {
    let table = StreamTable {
        alt: 11,
        aoa: 12,
        pitch: 13,
        apop: 14,
        perip: 15,
        eta_apop: 16,
        thrust: 17,
        stage: 18,
        mass: 19,
        isp: 20,
    };
    assert_eq!(table.channel_of(11), Some(Channel::Alt));
    assert_eq!(table.channel_of(18), Some(Channel::Stage));
    assert_eq!(table.channel_of(19), Some(Channel::Mass));
    assert_eq!(table.channel_of(20), Some(Channel::Isp));
    assert_eq!(table.channel_of(3), None);
}
