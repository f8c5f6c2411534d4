use windyble::config::GpioConfig;
use windyble::motor::{
    Motor, PinDir, PinOp, PinState, DEFAULT_DURATION, INITIAL_HALF_PERIOD_US, SPEED_MAX,
    SPEED_MIN, TEST_HALF_PERIOD_US, speed_from_bus,
};

fn pulse(m: &mut Motor) -> Option<u64> {
    let run = m.state.run;
    m.pulse(run)
}

fn config() -> GpioConfig {
    GpioConfig {
        step: 11,
        dir: 9,
        power_relay_pin: 16,
        pt1: 6,
        pt2: 5,
        is_up_pin: Some(2),
        is_down_pin: Some(3),
        go_up_pin: Some(18),
        go_down_pin: Some(17),
    }
}

#[test]
fn new_motor_is_idle_and_holds_no_pin() {
    let m = Motor::new(config(), false);
    assert!(!m.is_running());
    assert_eq!(m.state.step_duration, INITIAL_HALF_PERIOD_US);
    assert_eq!(INITIAL_HALF_PERIOD_US, 850);
    assert_eq!(DEFAULT_DURATION, 400);
    assert_eq!(m.state.dir_pin, PinState::Released);
    assert_eq!(m.state.power_pin, PinState::Released);
    assert!(m.pending.is_empty());
}

#[test]
fn second_turn_is_refused_and_keeps_direction() {
    let mut m = Motor::new(config(), false);
    assert!(m.turn(PinDir::CLOCKWISE));
    let ops = m.take_ops();
    assert_eq!(ops, vec![PinOp::Low(16), PinOp::High(9)]);
    assert!(!m.turn(PinDir::COUNTER_CLOCKWISE));
    assert!(!m.turn(PinDir::CLOCKWISE));
    assert_eq!(m.state.direction, PinDir::CLOCKWISE);
    assert_eq!(m.state.dir_pin, PinState::High);
    assert!(m.take_ops().is_empty());
    assert!(m.is_running());
}

#[test]
fn turn_up_drives_direction_low() {
    let mut m = Motor::new(config(), false);
    assert!(m.turn(PinDir::COUNTER_CLOCKWISE));
    assert_eq!(m.take_ops(), vec![PinOp::Low(16), PinOp::Low(9)]);
    assert_eq!(m.state.power_pin, PinState::Low);
    assert_eq!(m.state.dir_pin, PinState::Low);
}

#[test]
fn stop_mid_pulse_ends_loop_with_step_low() {
    let mut m = Motor::new(config(), false);
    m.set_speed(100);
    assert!(m.turn(PinDir::CLOCKWISE));
    assert_eq!(pulse(&mut m), Some(SPEED_MAX));
    assert_eq!(m.state.step_pin, PinState::High);
    m.stop();
    assert!(!m.is_running());
    assert_eq!(m.state.power_pin, PinState::High);
    assert_eq!(pulse(&mut m), None);
    assert_eq!(m.state.step_pin, PinState::Low);
    let ops = m.take_ops();
    assert_eq!(ops[ops.len() - 1], PinOp::Low(11));
    assert_eq!(ops[ops.len() - 2], PinOp::High(16));
}

#[test]
fn stop_on_low_phase_keeps_step_low() {
    let mut m = Motor::new(config(), false);
    assert!(m.turn(PinDir::CLOCKWISE));
    pulse(&mut m);
    pulse(&mut m);
    assert_eq!(m.state.step_pin, PinState::Low);
    m.stop();
    assert_eq!(pulse(&mut m), None);
    assert_eq!(m.state.step_pin, PinState::Low);
}

#[test]
fn pulse_toggles_step_line() {
    let mut m = Motor::new(config(), false);
    m.set_speed(0);
    assert!(m.turn(PinDir::CLOCKWISE));
    m.take_ops();
    assert_eq!(pulse(&mut m), Some(SPEED_MIN));
    assert_eq!(pulse(&mut m), Some(SPEED_MIN));
    assert_eq!(pulse(&mut m), Some(SPEED_MIN));
    assert_eq!(m.take_ops(), vec![PinOp::High(11), PinOp::Low(11), PinOp::High(11)]);
}

#[test]
fn pulse_when_idle_returns_none() {
    let mut m = Motor::new(config(), false);
    assert_eq!(pulse(&mut m), None);
    assert_eq!(m.take_ops(), vec![PinOp::Low(11)]);
}

#[test]
fn test_mode_pulses_slowly() {
    let mut m = Motor::new(config(), true);
    m.set_speed(0);
    assert!(m.turn(PinDir::COUNTER_CLOCKWISE));
    assert_eq!(pulse(&mut m), Some(TEST_HALF_PERIOD_US));
}

#[test]
fn speed_maps_percent_onto_half_period() {
    let mut m = Motor::new(config(), false);
    m.set_speed(0);
    assert_eq!(m.state.step_duration, SPEED_MIN);
    assert_eq!(m.state.step_duration, 300);
    m.set_speed(50);
    assert_eq!(m.state.step_duration, (SPEED_MIN + SPEED_MAX) / 2);
    assert_eq!(m.state.step_duration, 650);
    m.set_speed(100);
    assert_eq!(m.state.step_duration, SPEED_MAX);
    m.set_speed(1);
    assert_eq!(m.state.step_duration, 307);
    m.set_speed(33);
    assert_eq!(m.state.step_duration, 531);
}

#[test]
fn speed_above_range_is_clamped() {
    let mut m = Motor::new(config(), false);
    m.set_speed(101);
    assert_eq!(m.state.step_duration, SPEED_MAX);
    m.set_speed(u64::MAX);
    assert_eq!(m.state.step_duration, SPEED_MAX);
    assert!(m.pending.is_empty());
}

#[test]
fn speed_change_applies_on_next_half_step() {
    let mut m = Motor::new(config(), false);
    m.set_speed(0);
    assert!(m.turn(PinDir::CLOCKWISE));
    assert_eq!(pulse(&mut m), Some(300));
    m.set_speed(100);
    assert_eq!(pulse(&mut m), Some(1000));
}

#[test]
fn current_limit_truth_table() {
    let mut m = Motor::new(config(), false);
    m.set_potentiometer(&0);
    assert_eq!((m.state.pt1_pin, m.state.pt2_pin), (PinState::Floating, PinState::Floating));
    assert_eq!(m.take_ops(), vec![PinOp::Input(6), PinOp::Input(5)]);
    m.set_potentiometer(&1);
    assert_eq!((m.state.pt1_pin, m.state.pt2_pin), (PinState::Low, PinState::Floating));
    assert_eq!(m.take_ops(), vec![PinOp::Low(6), PinOp::Input(5)]);
    m.set_potentiometer(&2);
    assert_eq!((m.state.pt1_pin, m.state.pt2_pin), (PinState::Floating, PinState::Low));
    assert_eq!(m.take_ops(), vec![PinOp::Input(6), PinOp::Low(5)]);
    m.set_potentiometer(&3);
    assert_eq!((m.state.pt1_pin, m.state.pt2_pin), (PinState::Low, PinState::Low));
    assert_eq!(m.take_ops(), vec![PinOp::Low(6), PinOp::Low(5)]);
}

#[test]
fn unknown_current_limit_falls_back_to_lowest() {
    let mut m = Motor::new(config(), false);
    m.set_potentiometer(&3);
    m.take_ops();
    m.set_potentiometer(&4);
    assert_eq!((m.state.pt1_pin, m.state.pt2_pin), (PinState::Floating, PinState::Floating));
    assert_eq!(m.take_ops(), vec![PinOp::Input(6), PinOp::Input(5)]);
    m.set_potentiometer(&-1);
    assert_eq!((m.state.pt1_pin, m.state.pt2_pin), (PinState::Floating, PinState::Floating));
}

#[test]
fn current_limit_round_trip_restores_init_state() {
    let mut fresh = Motor::new(config(), false);
    fresh.init(&0);
    let mut m = Motor::new(config(), false);
    m.init(&0);
    m.set_potentiometer(&2);
    m.set_potentiometer(&0);
    assert_eq!(m.state.pt1_pin, fresh.state.pt1_pin);
    assert_eq!(m.state.pt2_pin, fresh.state.pt2_pin);
    assert_eq!(m.state.pt1_pin, PinState::Floating);
    assert_eq!(m.state.pt2_pin, PinState::Floating);
}

#[test]
fn init_acquires_in_order_then_settles() {
    let mut m = Motor::new(config(), false);
    m.init(&2);
    assert_eq!(
        m.take_ops(),
        vec![
            PinOp::Acquire(9),
            PinOp::Acquire(11),
            PinOp::Acquire(16),
            PinOp::Acquire(6),
            PinOp::Acquire(5),
            PinOp::Settle,
            PinOp::Low(9),
            PinOp::Low(11),
            PinOp::Input(6),
            PinOp::Low(5),
            PinOp::High(16),
        ]
    );
    assert_eq!(m.state.power_pin, PinState::High);
    assert_eq!(m.state.step_pin, PinState::Low);
    assert!(!m.is_running());
}

#[test]
fn done_keeps_power_pin() {
    let mut m = Motor::new(config(), false);
    m.init(&0);
    m.take_ops();
    m.done();
    assert_eq!(
        m.take_ops(),
        vec![PinOp::Release(9), PinOp::Release(11), PinOp::Release(6), PinOp::Release(5)]
    );
    assert_eq!(m.state.power_pin, PinState::High);
    assert_eq!(m.state.dir_pin, PinState::Released);
    assert_eq!(m.state.pt2_pin, PinState::Released);
}

#[test]
fn power_relay_is_active_low() {
    let mut m = Motor::new(config(), false);
    m.power_motor(true);
    m.power_motor(false);
    assert_eq!(m.take_ops(), vec![PinOp::Low(16), PinOp::High(16)]);
}

#[test]
fn set_direction_drives_dir_pin() {
    let mut m = Motor::new(config(), false);
    m.set_direction(PinDir::CLOCKWISE);
    assert_eq!(m.state.direction, 1);
    m.set_direction(PinDir::COUNTER_CLOCKWISE);
    m.set_direction(7);
    assert_eq!(m.take_ops(), vec![PinOp::High(9), PinOp::Low(9), PinOp::High(9)]);
}

#[test]
fn restart_retires_previous_pulse_loop() {
    let mut m = Motor::new(config(), false);
    assert_eq!(m.state.run, 0);
    assert!(m.turn(PinDir::CLOCKWISE));
    let first = m.state.run;
    assert_eq!(first, 1);
    m.stop();
    assert!(m.turn(PinDir::COUNTER_CLOCKWISE));
    let second = m.state.run;
    assert_eq!(second, 2);
    m.take_ops();
    assert_eq!(m.pulse(first), None);
    assert!(m.take_ops().is_empty());
    assert_eq!(m.pulse(second), Some(850));
    assert_eq!(m.take_ops(), vec![PinOp::High(11)]);
}

#[test]
fn refused_turn_keeps_run_number() {
    let mut m = Motor::new(config(), false);
    assert!(m.turn(PinDir::CLOCKWISE));
    assert!(!m.turn(PinDir::CLOCKWISE));
    assert_eq!(m.state.run, 1);
}

#[test]
fn bus_speed_is_clamped() {
    assert_eq!(speed_from_bus(-5), 0);
    assert_eq!(speed_from_bus(0), 0);
    assert_eq!(speed_from_bus(42), 42);
    assert_eq!(speed_from_bus(100), 100);
    assert_eq!(speed_from_bus(400), 100);
    assert_eq!(speed_from_bus(i64::MIN), 0);
}
