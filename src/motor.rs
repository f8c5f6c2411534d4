//! The motor drive: direction, power, current limit and the stepping
//! waveform of one stepper motor.
//!
//! A [`Motor`] does not touch hardware itself. Each operation updates the
//! model of its pins in [`MotorState`] and appends the matching [`PinOp`]s to
//! `pending`, which the caller takes with [`Motor::take_ops`] and performs in
//! order. Each accepted turn starts a new run with a number of its own; the
//! pulse loop of that run calls [`Motor::pulse`] with that number once per
//! half-step and sleeps for the delay it returns, until it returns `None`.
//! A loop whose run is no longer the current one ends without touching the
//! step line.

use vstd::prelude::*;
use crate::config::GpioConfig;

verus! {

/// Shortest half-period of the step signal, in microseconds.
pub const SPEED_MIN: u64 = 300;

/// Longest half-period of the step signal, in microseconds.
pub const SPEED_MAX: u64 = 1_000;

/// Speed setting used when no configuration gives one.
pub const DEFAULT_DURATION: u64 = 400;

/// Half-period used in test mode, so that a run is slow enough to follow.
pub const TEST_HALF_PERIOD_US: u64 = 1_000_000;

/// Half-period a motor starts with, before any speed is set.
pub const INITIAL_HALF_PERIOD_US: u64 = SPEED_MAX - SPEED_MIN / 2;

/// Turning directions, as written to the direction pin's logic.
pub struct PinDir;

impl PinDir {
    /// Down: the direction pin is driven high.
    pub const CLOCKWISE: u8 = 1;
    /// Up: the direction pin is driven low.
    pub const COUNTER_CLOCKWISE: u8 = 0;
}

/// What a pin was last set to by the motor.
#[derive(Debug, PartialEq, Eq, Structural, Copy, Clone)]
pub enum PinState {
    /// Not held by the motor.
    Released,
    /// Held as an input, so the line floats.
    Floating,
    /// Held as an output driven low.
    Low,
    /// Held as an output driven high.
    High,
}

/// One operation on a physical pin, identified by its number.
#[derive(Debug, PartialEq, Eq, Structural, Copy, Clone)]
pub enum PinOp {
    /// Request access to the pin.
    Acquire(u8),
    /// Wait for access rights to settle before the first write.
    Settle,
    /// Make the pin an input, leaving the line floating.
    Input(u8),
    /// Make the pin an output and drive it low.
    Low(u8),
    /// Make the pin an output and drive it high.
    High(u8),
    /// Give up access to the pin.
    Release(u8),
}

/// The model of a motor: its configuration, whether its pulse loop runs,
/// the step half-period, and the state of each pin it owns.
#[derive(Clone, Copy)]
pub struct MotorState {
    pub gpio_config: GpioConfig,
    pub running: bool,
    /// The number of the latest run; only its pulse loop may step.
    pub run: u64,
    pub step_duration: u64,
    pub is_test: bool,
    pub direction: u8,
    pub dir_pin: PinState,
    pub step_pin: PinState,
    pub power_pin: PinState,
    pub pt1_pin: PinState,
    pub pt2_pin: PinState,
}

/// A motor and the pin operations it has asked for and that were not taken
/// yet.
pub struct Motor {
    pub state: MotorState,
    pub pending: Vec<PinOp>,
}

/// The half-period for a speed percentage, clamped to `[0, 100]` and mapped
/// linearly onto `[SPEED_MIN, SPEED_MAX]`.
pub open spec fn half_period_for(percent: u64) -> u64 {
    let p: int = if percent > 100 { 100 } else { percent as int };
    (SPEED_MIN + (SPEED_MAX - SPEED_MIN) * p / 100) as u64
}

/// The two current-limit pins for a level: 0 both floating (0.5 A), 1 the
/// first low (1 A), 2 the second low (1.5 A), 3 both low (2 A). Any other
/// level is taken as 0.
pub open spec fn limit_levels(level: i64) -> (PinState, PinState) {
    if level == 1 {
        (PinState::Low, PinState::Floating)
    } else if level == 2 {
        (PinState::Floating, PinState::Low)
    } else if level == 3 {
        (PinState::Low, PinState::Low)
    } else {
        (PinState::Floating, PinState::Floating)
    }
}

/// The power relay is active low: powered means the pin is driven low.
pub open spec fn power_level(on: bool) -> PinState {
    if on {
        PinState::Low
    } else {
        PinState::High
    }
}

/// Counter-clockwise (up) drives the direction pin low, anything else high.
pub open spec fn direction_level(dir: u8) -> PinState {
    if dir == PinDir::COUNTER_CLOCKWISE {
        PinState::Low
    } else {
        PinState::High
    }
}

/// The operation that puts pin `num` into state `s`.
pub open spec fn pin_op(num: u8, s: PinState) -> PinOp {
    match s {
        PinState::Released => PinOp::Release(num),
        PinState::Floating => PinOp::Input(num),
        PinState::Low => PinOp::Low(num),
        PinState::High => PinOp::High(num),
    }
}

pub open spec fn limit_ops(cfg: GpioConfig, level: i64) -> Seq<PinOp> {
    seq![pin_op(cfg.pt1, limit_levels(level).0), pin_op(cfg.pt2, limit_levels(level).1)]
}

pub open spec fn power_ops(cfg: GpioConfig, on: bool) -> Seq<PinOp> {
    seq![pin_op(cfg.power_relay_pin, power_level(on))]
}

pub open spec fn direction_ops(cfg: GpioConfig, dir: u8) -> Seq<PinOp> {
    seq![pin_op(cfg.dir, direction_level(dir))]
}

/// The run number after `r`; it wraps only after `u64::MAX` runs.
pub open spec fn next_run(r: u64) -> u64 {
    if r == u64::MAX {
        0
    } else {
        (r + 1) as u64
    }
}

/// The state of a newly made motor: stopped, at the initial half-period,
/// facing up, and holding none of its pins.
pub open spec fn initial_state(cfg: GpioConfig, is_test: bool) -> MotorState {
    MotorState {
        gpio_config: cfg,
        running: false,
        run: 0,
        step_duration: INITIAL_HALF_PERIOD_US,
        is_test,
        direction: PinDir::COUNTER_CLOCKWISE,
        dir_pin: PinState::Released,
        step_pin: PinState::Released,
        power_pin: PinState::Released,
        pt1_pin: PinState::Released,
        pt2_pin: PinState::Released,
    }
}

/// What `init` performs: acquire direction, step, power and the
/// current-limit pair in that order, let access settle, then face up, hold
/// the step line low, set the current limit and leave the motor unpowered.
pub open spec fn init_ops(cfg: GpioConfig, level: i64) -> Seq<PinOp> {
    seq![
        PinOp::Acquire(cfg.dir),
        PinOp::Acquire(cfg.step),
        PinOp::Acquire(cfg.power_relay_pin),
        PinOp::Acquire(cfg.pt1),
        PinOp::Acquire(cfg.pt2),
        PinOp::Settle,
    ] + direction_ops(cfg, PinDir::COUNTER_CLOCKWISE) + seq![PinOp::Low(cfg.step)]
        + limit_ops(cfg, level) + power_ops(cfg, false)
}

/// What `done` performs: release every pin but the power relay's, whose
/// line keeps its level.
pub open spec fn done_ops(cfg: GpioConfig) -> Seq<PinOp> {
    seq![
        PinOp::Release(cfg.dir),
        PinOp::Release(cfg.step),
        PinOp::Release(cfg.pt1),
        PinOp::Release(cfg.pt2),
    ]
}

impl MotorState {
    pub open spec fn with_speed(self, percent: u64) -> MotorState {
        MotorState { step_duration: half_period_for(percent), ..self }
    }

    pub open spec fn with_limit(self, level: i64) -> MotorState {
        MotorState { pt1_pin: limit_levels(level).0, pt2_pin: limit_levels(level).1, ..self }
    }

    pub open spec fn with_power(self, on: bool) -> MotorState {
        MotorState { power_pin: power_level(on), ..self }
    }

    pub open spec fn with_direction(self, dir: u8) -> MotorState {
        MotorState { direction: dir, dir_pin: direction_level(dir), ..self }
    }

    /// A turn is accepted only when no pulse loop is live.
    pub open spec fn accepts_turn(self) -> bool {
        !self.running
    }

    /// After `turn(dir)`: unchanged when already running; else powered,
    /// facing `dir` and running under the next run number.
    pub open spec fn turned(self, dir: u8) -> MotorState {
        if self.running {
            self
        } else {
            MotorState {
                running: true,
                run: next_run(self.run),
                ..self.with_power(true).with_direction(dir)
            }
        }
    }

    pub open spec fn turn_ops(self, dir: u8) -> Seq<PinOp> {
        if self.running {
            Seq::empty()
        } else {
            power_ops(self.gpio_config, true) + direction_ops(self.gpio_config, dir)
        }
    }

    /// After `stop`: not running and unpowered.
    pub open spec fn stopped(self) -> MotorState {
        MotorState { running: false, ..self.with_power(false) }
    }

    /// The pulse loop of run `run` is the current one.
    pub open spec fn owns_pulse(self, run: u64) -> bool {
        run == self.run
    }

    /// The delay before the next half-step of run `run`'s loop, or `None`
    /// when that loop must end: its run was stopped or replaced.
    pub open spec fn pulse_delay(self, run: u64) -> Option<u64> {
        if !self.owns_pulse(run) || !self.running {
            None
        } else if self.is_test {
            Some(TEST_HALF_PERIOD_US)
        } else {
            Some(self.step_duration)
        }
    }

    /// One half-step of run `run`'s loop: while running the step line
    /// toggles (low to high, high to low); once stopped it is forced low. A
    /// loop of an earlier run changes nothing.
    pub open spec fn pulsed(self, run: u64) -> MotorState {
        if !self.owns_pulse(run) {
            self
        } else {
            MotorState {
                step_pin: if self.running && self.step_pin != PinState::High {
                    PinState::High
                } else {
                    PinState::Low
                },
                ..self
            }
        }
    }

    pub open spec fn pulse_ops(self, run: u64) -> Seq<PinOp> {
        if !self.owns_pulse(run) {
            Seq::empty()
        } else {
            seq![pin_op(self.gpio_config.step, self.pulsed(run).step_pin)]
        }
    }

    /// After `init(level)`.
    pub open spec fn initialized(self, level: i64) -> MotorState {
        MotorState {
            step_pin: PinState::Low,
            ..self.with_direction(PinDir::COUNTER_CLOCKWISE).with_limit(level).with_power(false)
        }
    }

    /// After `done`: every pin but the power relay's released.
    pub open spec fn released(self) -> MotorState {
        MotorState {
            dir_pin: PinState::Released,
            step_pin: PinState::Released,
            pt1_pin: PinState::Released,
            pt2_pin: PinState::Released,
            ..self
        }
    }
}

fn limit_pin_levels(level: i64) -> (r: (PinState, PinState))
    ensures
        r == limit_levels(level),
{
    if level == 1 {
        (PinState::Low, PinState::Floating)
    } else if level == 2 {
        (PinState::Floating, PinState::Low)
    } else if level == 3 {
        (PinState::Low, PinState::Low)
    } else {
        (PinState::Floating, PinState::Floating)
    }
}

/// Clamps a speed value from the bus into `[0, 100]`.
pub fn speed_from_bus(v: i64) -> (r: u64)
    ensures
        r == bus_speed(v),
{
    if v < 0 {
        0
    } else if v > 100 {
        100
    } else {
        v as u64
    }
}

fn pin_op_for(num: u8, s: PinState) -> (r: PinOp)
    ensures
        r == pin_op(num, s),
{
    match s {
        PinState::Released => PinOp::Release(num),
        PinState::Floating => PinOp::Input(num),
        PinState::Low => PinOp::Low(num),
        PinState::High => PinOp::High(num),
    }
}

impl Motor {
    pub fn new(gpio_config: GpioConfig, is_test: bool) -> (r: Motor)
        ensures
            r.state == initial_state(gpio_config, is_test),
            r.pending@ == Seq::<PinOp>::empty(),
    {
        Motor {
            state: MotorState {
                gpio_config,
                running: false,
                run: 0,
                step_duration: INITIAL_HALF_PERIOD_US,
                is_test,
                direction: PinDir::COUNTER_CLOCKWISE,
                dir_pin: PinState::Released,
                step_pin: PinState::Released,
                power_pin: PinState::Released,
                pt1_pin: PinState::Released,
                pt2_pin: PinState::Released,
            },
            pending: Vec::new(),
        }
    }

    fn push_op(&mut self, op: PinOp)
        ensures
            final(self).state == old(self).state,
            final(self).pending@ == old(self).pending@.push(op),
    {
        self.pending.push(op);
    }

    /// Sets the speed as a percentage; values above 100 count as 100.
    pub fn set_speed(&mut self, val: u64)
        ensures
            final(self).state == old(self).state.with_speed(val),
            final(self).pending@ == old(self).pending@,
    {
        let p: u64 = if val > 100 { 100 } else { val };
        let span: u64 = SPEED_MAX - SPEED_MIN;
        assert(span * p <= 100_000) by (nonlinear_arith)
            requires
                span == 700,
                p <= 100,
        ;
        self.state.step_duration = SPEED_MIN + span * p / 100;
    }

    /// Sets the current limit by the level's truth table (see
    /// [`limit_levels`]); a level outside `0..=3` counts as 0.
    pub fn set_potentiometer(&mut self, pt_val: &i64)
        ensures
            final(self).state == old(self).state.with_limit(*pt_val),
            final(self).pending@ == old(self).pending@ + limit_ops(
                old(self).state.gpio_config,
                *pt_val,
            ),
    {
        let (p1, p2) = limit_pin_levels(*pt_val);
        let n1 = self.state.gpio_config.pt1;
        let n2 = self.state.gpio_config.pt2;
        self.push_op(pin_op_for(n1, p1));
        self.push_op(pin_op_for(n2, p2));
        self.state.pt1_pin = p1;
        self.state.pt2_pin = p2;
    }

    /// Switches the power relay on or off.
    pub fn power_motor(&mut self, on: bool)
        ensures
            final(self).state == old(self).state.with_power(on),
            final(self).pending@ == old(self).pending@ + power_ops(
                old(self).state.gpio_config,
                on,
            ),
    {
        let n = self.state.gpio_config.power_relay_pin;
        let level = if on { PinState::Low } else { PinState::High };
        self.push_op(pin_op_for(n, level));
        self.state.power_pin = level;
    }

    pub fn is_running(&self) -> (r: bool)
        ensures
            r == self.state.running,
    {
        self.state.running
    }

    /// Starts a run in direction `dir`: powers the motor, sets the direction
    /// and marks the pulse loop live. Returns false, changing nothing, when
    /// a run is already live.
    pub fn turn(&mut self, dir: u8) -> (r: bool)
        ensures
            r == old(self).state.accepts_turn(),
            final(self).state == old(self).state.turned(dir),
            final(self).pending@ == old(self).pending@ + old(self).state.turn_ops(dir),
    {
        if self.state.running {
            return false;
        }
        self.power_motor(true);
        self.set_direction(dir);
        self.state.running = true;
        self.state.run = self.state.run.wrapping_add(1);
        true
    }

    /// Ends the run: the pulse loop sees it on its next half-step, and the
    /// motor is switched off.
    pub fn stop(&mut self)
        ensures
            final(self).state == old(self).state.stopped(),
            final(self).pending@ == old(self).pending@ + power_ops(
                old(self).state.gpio_config,
                false,
            ),
    {
        self.state.running = false;
        self.power_motor(false);
    }

    pub fn set_direction(&mut self, dir: u8)
        ensures
            final(self).state == old(self).state.with_direction(dir),
            final(self).pending@ == old(self).pending@ + direction_ops(
                old(self).state.gpio_config,
                dir,
            ),
    {
        let n = self.state.gpio_config.dir;
        let level = if dir == PinDir::COUNTER_CLOCKWISE {
            PinState::Low
        } else {
            PinState::High
        };
        self.push_op(pin_op_for(n, level));
        self.state.direction = dir;
        self.state.dir_pin = level;
    }

    /// Takes the motor's pins and puts them in their resting state with the
    /// current limit at `init_pt`.
    pub fn init(&mut self, init_pt: &i64)
        ensures
            final(self).state == old(self).state.initialized(*init_pt),
            final(self).pending@ == old(self).pending@ + init_ops(
                old(self).state.gpio_config,
                *init_pt,
            ),
    {
        let cfg = self.state.gpio_config;
        self.push_op(PinOp::Acquire(cfg.dir));
        self.push_op(PinOp::Acquire(cfg.step));
        self.push_op(PinOp::Acquire(cfg.power_relay_pin));
        self.push_op(PinOp::Acquire(cfg.pt1));
        self.push_op(PinOp::Acquire(cfg.pt2));
        self.push_op(PinOp::Settle);
        self.set_direction(PinDir::COUNTER_CLOCKWISE);
        self.push_op(PinOp::Low(cfg.step));
        self.state.step_pin = PinState::Low;
        self.set_potentiometer(init_pt);
        self.power_motor(false);
    }

    /// Releases the motor's pins, leaving the power relay where it is.
    pub fn done(&mut self)
        ensures
            final(self).state == old(self).state.released(),
            final(self).pending@ == old(self).pending@ + done_ops(old(self).state.gpio_config),
    {
        let cfg = self.state.gpio_config;
        self.push_op(PinOp::Release(cfg.dir));
        self.push_op(PinOp::Release(cfg.step));
        self.push_op(PinOp::Release(cfg.pt1));
        self.push_op(PinOp::Release(cfg.pt2));
        self.state.dir_pin = PinState::Released;
        self.state.step_pin = PinState::Released;
        self.state.pt1_pin = PinState::Released;
        self.state.pt2_pin = PinState::Released;
    }

    /// One half-step of the pulse loop of run `run`. While that run is
    /// live, toggles the step line and returns the delay to wait; once it is
    /// stopped, drives the step line low and returns `None`, ending the loop.
    /// The loop of an earlier run gets `None` and writes nothing.
    pub fn pulse(&mut self, run: u64) -> (r: Option<u64>)
        ensures
            r == old(self).state.pulse_delay(run),
            final(self).state == old(self).state.pulsed(run),
            final(self).pending@ == old(self).pending@ + old(self).state.pulse_ops(run),
    {
        if run != self.state.run {
            proof {
                assert(self.pending@ =~= old(self).pending@ + Seq::<PinOp>::empty());
            }
            return None;
        }
        let level = if self.state.running && self.state.step_pin != PinState::High {
            PinState::High
        } else {
            PinState::Low
        };
        let n = self.state.gpio_config.step;
        self.push_op(pin_op_for(n, level));
        self.state.step_pin = level;
        if !self.state.running {
            None
        } else if self.state.is_test {
            Some(TEST_HALF_PERIOD_US)
        } else {
            Some(self.state.step_duration)
        }
    }

    /// Hands over the pending pin operations, oldest first.
    pub fn take_ops(&mut self) -> (r: Vec<PinOp>)
        ensures
            r@ == old(self).pending@,
            final(self).pending@ == Seq::<PinOp>::empty(),
            final(self).state == old(self).state,
    {
        let mut out: Vec<PinOp> = Vec::new();
        std::mem::swap(&mut out, &mut self.pending);
        out
    }
}

/// A second `turn`, in any direction, right after an accepted one is
/// refused and changes nothing: neither the direction nor any pin.
pub proof fn lemma_second_turn_refused(s: MotorState, d1: u8, d2: u8)
    ensures
        !s.turned(d1).accepts_turn(),
        s.turned(d1).turned(d2) == s.turned(d1),
        s.turned(d1).turn_ops(d2) == Seq::<PinOp>::empty(),
        s.accepts_turn() ==> s.turned(d1).direction == d1,
{
}

/// Whatever the phase of the waveform, once `stop` has run the motor is
/// unpowered, the current run's next half-step drives the step line low and
/// ends its loop, and further half-steps keep it low.
pub proof fn lemma_stop_ends_pulse_low(s: MotorState)
    ensures
        !s.stopped().running,
        s.stopped().power_pin == PinState::High,
        s.stopped().pulse_delay(s.run) is None,
        s.stopped().pulsed(s.run).step_pin == PinState::Low,
        s.stopped().pulse_ops(s.run) == seq![PinOp::Low(s.gpio_config.step)],
        s.stopped().pulsed(s.run).pulse_delay(s.run) is None,
        s.stopped().pulsed(s.run).pulsed(s.run).step_pin == PinState::Low,
{
}

/// A turn, a stop and at once a new turn: the new turn is accepted under a
/// new run number, and the first run's loop, on its next half-step, ends
/// without writing the step line, so one loop at most drives it.
pub proof fn lemma_restart_retires_old_loop(s: MotorState, d1: u8, d2: u8)
    requires
        s.accepts_turn(),
    ensures
        s.turned(d1).stopped().accepts_turn(),
        s.turned(d1).stopped().turned(d2).run != s.turned(d1).run,
        s.turned(d1).stopped().turned(d2).pulse_delay(s.turned(d1).run) is None,
        s.turned(d1).stopped().turned(d2).pulsed(s.turned(d1).run) == s.turned(
            d1,
        ).stopped().turned(d2),
        s.turned(d1).stopped().turned(d2).pulse_ops(s.turned(d1).run) == Seq::<PinOp>::empty(),
        s.turned(d1).stopped().turned(d2).pulse_delay(s.turned(d1).stopped().turned(d2).run)
            is Some,
{
}

/// The speed percentage for a value read from the bus: below 0 counts as 0,
/// above 100 as 100.
pub open spec fn bus_speed(v: i64) -> u64 {
    if v < 0 {
        0
    } else if v > 100 {
        100
    } else {
        v as u64
    }
}

/// Every speed setting gives a half-period within `[SPEED_MIN, SPEED_MAX]`;
/// settings above 100 are clamped to 100, not refused, and a higher setting
/// never gives a shorter half-period.
pub proof fn lemma_speed_clamped(p: u64, q: u64)
    ensures
        SPEED_MIN <= half_period_for(p) <= SPEED_MAX,
        p >= 100 ==> half_period_for(p) == SPEED_MAX,
        p <= q ==> half_period_for(p) <= half_period_for(q),
{
    let a: int = if p > 100 { 100 } else { p as int };
    let b: int = if q > 100 { 100 } else { q as int };
    assert(0 <= 700 * a / 100 <= 700) by (nonlinear_arith)
        requires
            0 <= a <= 100,
    ;
    assert(a <= b ==> 700 * a / 100 <= 700 * b / 100) by (nonlinear_arith)
        requires
            0 <= a <= 100,
            0 <= b <= 100,
    ;
}

/// Only the levels 0 to 3 select a current limit of their own; every other
/// level drives the pins as level 0 does.
pub proof fn lemma_unknown_limit_is_lowest(level: i64)
    ensures
        !(0 <= level <= 3) ==> limit_levels(level) == limit_levels(0),
        limit_levels(0) == (PinState::Floating, PinState::Floating),
{
}

/// Setting any current limit and then level 0 leaves both limiting pins
/// floating, as `init` at level 0 leaves them; in particular after level 2
/// and then level 0.
pub proof fn lemma_limit_round_trip(s: MotorState, level: i64)
    ensures
        s.with_limit(level).with_limit(0).pt1_pin == initial_state(
            s.gpio_config,
            s.is_test,
        ).initialized(0).pt1_pin,
        s.with_limit(level).with_limit(0).pt2_pin == initial_state(
            s.gpio_config,
            s.is_test,
        ).initialized(0).pt2_pin,
        s.with_limit(level).with_limit(0).pt1_pin == PinState::Floating,
        s.with_limit(level).with_limit(0).pt2_pin == PinState::Floating,
{
}

} // verus!
