//! The turn coordinator: the handshake that lets two controllers, each
//! driving one motor of a shared mechanical bridge, start and stop together.
//!
//! Each controller holds a [`Coordinator`]. Local intents (move up, move
//! down, stop), endstop events and the values of the `turn` property seen on
//! the property bus go in; the controller's next state and a list of
//! [`Command`]s come out, to be carried out in order.
//!
//! A move starts with a Ready value naming its direction. The authority
//! issues `Go` as soon as it decides to move, on a local intent or on a peer's
//! Ready, and starts its own motor at that moment. The follower answers a
//! Ready with `Go` and starts its motor only when it sees `Go`. Any side may
//! stop alone; a stopped peer stops the other.

use vstd::prelude::*;
use crate::motor::{Motor, MotorState, PinDir, PinOp, power_ops};

verus! {

/// The handshake states, carried on the bus as the integers 0 to 3.
#[derive(Debug, PartialEq, Eq, Structural, Copy, Clone)]
pub enum MotorTurnState {
    Stopped,
    Go,
    ReadyUp,
    ReadyDown,
}

impl MotorTurnState {
    pub open spec fn code(self) -> u8 {
        match self {
            MotorTurnState::Stopped => 0,
            MotorTurnState::Go => 1,
            MotorTurnState::ReadyUp => 2,
            MotorTurnState::ReadyDown => 3,
        }
    }

    /// The value carried on the bus.
    pub fn value(&self) -> (r: u8)
        ensures
            r == self.code(),
    {
        match self {
            MotorTurnState::Go => 1,
            MotorTurnState::ReadyUp => 2,
            MotorTurnState::ReadyDown => 3,
            MotorTurnState::Stopped => 0,
        }
    }
}

/// The state a bus value stands for; values other than 1 to 3 read as
/// `Stopped`.
pub open spec fn turn_state_of(v: i8) -> MotorTurnState {
    if v == 3 {
        MotorTurnState::ReadyDown
    } else if v == 2 {
        MotorTurnState::ReadyUp
    } else if v == 1 {
        MotorTurnState::Go
    } else {
        MotorTurnState::Stopped
    }
}

impl From<i8> for MotorTurnState {
    fn from(v: i8) -> MotorTurnState {
        if v == 3 {
            MotorTurnState::ReadyDown
        } else if v == 2 {
            MotorTurnState::ReadyUp
        } else if v == 1 {
            MotorTurnState::Go
        } else {
            MotorTurnState::Stopped
        }
    }
}

impl vstd::std_specs::convert::FromSpecImpl<i8> for MotorTurnState {
    open spec fn obeys_from_spec() -> bool {
        true
    }

    open spec fn from_spec(v: i8) -> MotorTurnState {
        turn_state_of(v)
    }
}

/// A bus value equals a state when it is exactly that state's code.
impl PartialEq<MotorTurnState> for i8 {
    fn eq(&self, other: &MotorTurnState) -> bool {
        match other {
            MotorTurnState::Go => *self == 1,
            MotorTurnState::ReadyUp => *self == 2,
            MotorTurnState::ReadyDown => *self == 3,
            MotorTurnState::Stopped => *self == 0,
        }
    }
}

impl vstd::std_specs::cmp::PartialEqSpecImpl<MotorTurnState> for i8 {
    open spec fn obeys_eq_spec() -> bool {
        true
    }

    open spec fn eq_spec(&self, other: &MotorTurnState) -> bool {
        *self as int == other.code() as int
    }
}

/// Where the element stands, as the endstops report it.
#[derive(Debug, PartialEq, Eq, Structural, Copy, Clone)]
pub enum MotionState {
    Free,
    AtTop,
    AtBottom,
}

/// One of the two limit switches.
#[derive(Debug, PartialEq, Eq, Structural, Copy, Clone)]
pub enum Endstop {
    Top,
    Bottom,
}

/// The level at which a limit switch reports that its end is reached.
pub const ENDSTOP_TRIGGERED: u8 = 0;

/// What a coordinator asks of its motor and of the property bus.
#[derive(Debug, PartialEq, Eq, Structural, Copy, Clone)]
pub enum Command {
    /// Power the motor without stepping.
    PowerOn,
    /// Start stepping in the given direction.
    Turn(u8),
    /// Stop stepping and power the motor off.
    Stop,
    /// Publish this value of the `turn` property to the peer.
    Publish(MotorTurnState),
}

/// The state of one controller's side of the handshake.
#[derive(Debug, Clone, Copy)]
pub struct Coordinator {
    /// Whether this controller is the authority (the bus server) or the
    /// follower.
    pub is_authority: bool,
    pub handshake: MotorTurnState,
    pub motion: MotionState,
    /// The direction of the pending or running move.
    pub direction: u8,
}

pub open spec fn is_direction(d: u8) -> bool {
    d == PinDir::COUNTER_CLOCKWISE || d == PinDir::CLOCKWISE
}

/// The Ready state that announces a move in direction `d`.
pub open spec fn ready_for(d: u8) -> MotorTurnState {
    if d == PinDir::COUNTER_CLOCKWISE {
        MotorTurnState::ReadyUp
    } else {
        MotorTurnState::ReadyDown
    }
}

/// A move toward an end that is already reached is not allowed.
pub open spec fn blocked(m: MotionState, d: u8) -> bool {
    (d == PinDir::COUNTER_CLOCKWISE && m == MotionState::AtTop) || (d == PinDir::CLOCKWISE && m
        == MotionState::AtBottom)
}

/// The direction toward an endstop: up for the top one.
pub open spec fn toward(end: Endstop) -> u8 {
    match end {
        Endstop::Top => PinDir::COUNTER_CLOCKWISE,
        Endstop::Bottom => PinDir::CLOCKWISE,
    }
}

pub open spec fn reached(end: Endstop) -> MotionState {
    match end {
        Endstop::Top => MotionState::AtTop,
        Endstop::Bottom => MotionState::AtBottom,
    }
}

impl Coordinator {
    /// A move in direction `d` is pending or running.
    pub open spec fn moving_toward(self, d: u8) -> bool {
        is_direction(d) && (self.handshake == ready_for(d) || (self.handshake
            == MotorTurnState::Go && self.direction == d))
    }

    /// Valid states: no move is pending or running toward an end that is
    /// already reached.
    pub open spec fn wf(self) -> bool {
        &&& !(self.moving_toward(PinDir::COUNTER_CLOCKWISE) && self.motion == MotionState::AtTop)
        &&& !(self.moving_toward(PinDir::CLOCKWISE) && self.motion == MotionState::AtBottom)
    }

    /// The result of a bus value `v` of `turn`: values outside 0 to 3 are
    /// dropped.
    pub open spec fn after_bus_turn(self, v: i64) -> (Coordinator, Seq<Command>) {
        if 0 <= v <= 3 {
            self.after_turn_changed(v as i8)
        } else {
            (self, Seq::empty())
        }
    }

    /// The result of a local intent: `Some(d)` asks to move in direction
    /// `d`, anything else to stop.
    pub open spec fn after_request(self, dir: Option<u8>) -> (Coordinator, Seq<Command>) {
        if dir is Some && is_direction(dir->0) {
            let d = dir->0;
            if self.handshake != MotorTurnState::Stopped || blocked(self.motion, d) {
                (self, Seq::empty())
            } else if self.is_authority {
                (
                    Coordinator { handshake: MotorTurnState::Go, direction: d, ..self },
                    seq![
                        Command::PowerOn,
                        Command::Publish(ready_for(d)),
                        Command::Publish(MotorTurnState::Go),
                        Command::Turn(d),
                    ],
                )
            } else {
                (
                    Coordinator { handshake: ready_for(d), direction: d, ..self },
                    seq![Command::PowerOn, Command::Publish(ready_for(d))],
                )
            }
        } else {
            (
                Coordinator { handshake: MotorTurnState::Stopped, ..self },
                seq![Command::Stop, Command::Publish(MotorTurnState::Stopped)],
            )
        }
    }

    /// The result of seeing the peer publish `v` as the `turn` property.
    pub open spec fn after_turn_changed(self, v: i8) -> (Coordinator, Seq<Command>) {
        if v == 2 || v == 3 {
            let d = if v == 2 {
                PinDir::COUNTER_CLOCKWISE
            } else {
                PinDir::CLOCKWISE
            };
            if blocked(self.motion, d) || !(self.handshake == MotorTurnState::Stopped
                || self.handshake == ready_for(d)) {
                (self, Seq::empty())
            } else if self.is_authority {
                (
                    Coordinator { handshake: MotorTurnState::Go, direction: d, ..self },
                    seq![Command::PowerOn, Command::Publish(MotorTurnState::Go), Command::Turn(d)],
                )
            } else {
                (
                    Coordinator { handshake: ready_for(d), direction: d, ..self },
                    seq![Command::PowerOn, Command::Publish(MotorTurnState::Go)],
                )
            }
        } else if v == 1 {
            if self.handshake == MotorTurnState::ReadyUp || self.handshake
                == MotorTurnState::ReadyDown {
                let d = if self.handshake == MotorTurnState::ReadyUp {
                    PinDir::COUNTER_CLOCKWISE
                } else {
                    PinDir::CLOCKWISE
                };
                (
                    Coordinator { handshake: MotorTurnState::Go, direction: d, ..self },
                    seq![Command::Turn(d)],
                )
            } else {
                (self, Seq::empty())
            }
        } else if v == 0 && self.handshake != MotorTurnState::Stopped {
            (Coordinator { handshake: MotorTurnState::Stopped, ..self }, seq![Command::Stop])
        } else {
            (self, Seq::empty())
        }
    }

    /// The result of an endstop's input changing to `value`.
    pub open spec fn after_endstop(self, end: Endstop, value: u8) -> (Coordinator, Seq<Command>) {
        if value == ENDSTOP_TRIGGERED {
            if self.moving_toward(toward(end)) {
                (
                    Coordinator {
                        motion: reached(end),
                        handshake: MotorTurnState::Stopped,
                        ..self
                    },
                    seq![Command::Stop, Command::Publish(MotorTurnState::Stopped)],
                )
            } else {
                (Coordinator { motion: reached(end), ..self }, Seq::empty())
            }
        } else {
            (Coordinator { motion: MotionState::Free, ..self }, Seq::empty())
        }
    }
}

/// Records the direction of the pending move.
pub fn store_direction(state: &mut Coordinator, d: u8)
    ensures
        *final(state) == (Coordinator { direction: d, ..*old(state) }),
{
    state.direction = d;
}

/// The direction of the pending or running move.
pub fn current_direction(state: &Coordinator) -> (r: u8)
    ensures
        r == state.direction,
{
    state.direction
}

fn ready_state_for(d: u8) -> (r: MotorTurnState)
    ensures
        r == ready_for(d),
{
    if d == PinDir::COUNTER_CLOCKWISE {
        MotorTurnState::ReadyUp
    } else {
        MotorTurnState::ReadyDown
    }
}

fn is_blocked(m: MotionState, d: u8) -> (r: bool)
    ensures
        r == blocked(m, d),
{
    (d == PinDir::COUNTER_CLOCKWISE && m == MotionState::AtTop) || (d == PinDir::CLOCKWISE && m
        == MotionState::AtBottom)
}

impl Coordinator {
    /// A controller at rest, in free travel, facing up.
    pub fn new(is_authority: bool) -> (r: Coordinator)
        ensures
            r.wf(),
            r.is_authority == is_authority,
            r.handshake == MotorTurnState::Stopped,
            r.motion == MotionState::Free,
            r.direction == PinDir::COUNTER_CLOCKWISE,
    {
        Coordinator {
            is_authority,
            handshake: MotorTurnState::Stopped,
            motion: MotionState::Free,
            direction: PinDir::COUNTER_CLOCKWISE,
        }
    }

    /// Handles a local intent: `Some(d)` with `d` a direction asks to move,
    /// anything else asks to stop.
    pub fn turn_motor(&mut self, direction: Option<u8>) -> (r: Vec<Command>)
        ensures
            (*final(self), r@) == old(self).after_request(direction),
            old(self).wf() ==> final(self).wf(),
    {
        let mut cmds: Vec<Command> = Vec::new();
        match direction {
            Some(d) if d == PinDir::COUNTER_CLOCKWISE || d == PinDir::CLOCKWISE => {
                if self.handshake != MotorTurnState::Stopped || is_blocked(self.motion, d) {
                    return cmds;
                }
                let ready = ready_state_for(d);
                store_direction(self, d);
                cmds.push(Command::PowerOn);
                cmds.push(Command::Publish(ready));
                if self.is_authority {
                    self.handshake = MotorTurnState::Go;
                    cmds.push(Command::Publish(MotorTurnState::Go));
                    cmds.push(Command::Turn(d));
                } else {
                    self.handshake = ready;
                }
            },
            _ => {
                self.handshake = MotorTurnState::Stopped;
                cmds.push(Command::Stop);
                cmds.push(Command::Publish(MotorTurnState::Stopped));
            },
        }
        proof {
            assert(cmds@ =~= old(self).after_request(direction).1);
        }
        cmds
    }

    /// Handles a value of the `turn` property published by the peer.
    /// Values other than 0 to 3, a Ready toward a reached end or against a
    /// pending move, and a `Go` with no pending Ready are ignored.
    pub fn on_turn_changed(&mut self, value: i8) -> (r: Vec<Command>)
        ensures
            (*final(self), r@) == old(self).after_turn_changed(value),
            old(self).wf() ==> final(self).wf(),
    {
        let mut cmds: Vec<Command> = Vec::new();
        if value == MotorTurnState::ReadyUp || value == MotorTurnState::ReadyDown {
            let d = if value == MotorTurnState::ReadyUp {
                PinDir::COUNTER_CLOCKWISE
            } else {
                PinDir::CLOCKWISE
            };
            let ready = ready_state_for(d);
            if is_blocked(self.motion, d) || !(self.handshake == MotorTurnState::Stopped
                || self.handshake == ready) {
                return cmds;
            }
            store_direction(self, d);
            cmds.push(Command::PowerOn);
            cmds.push(Command::Publish(MotorTurnState::Go));
            if self.is_authority {
                self.handshake = MotorTurnState::Go;
                cmds.push(Command::Turn(d));
            } else {
                self.handshake = ready;
            }
        } else if value == MotorTurnState::Go {
            if self.handshake == MotorTurnState::ReadyUp || self.handshake
                == MotorTurnState::ReadyDown {
                let d = if self.handshake == MotorTurnState::ReadyUp {
                    PinDir::COUNTER_CLOCKWISE
                } else {
                    PinDir::CLOCKWISE
                };
                store_direction(self, d);
                self.handshake = MotorTurnState::Go;
                cmds.push(Command::Turn(d));
            }
        } else if value == MotorTurnState::Stopped && self.handshake != MotorTurnState::Stopped {
            self.handshake = MotorTurnState::Stopped;
            cmds.push(Command::Stop);
        }
        proof {
            assert(cmds@ =~= old(self).after_turn_changed(value).1);
        }
        cmds
    }

    /// Handles an endstop's input changing to `value`. Reaching an end
    /// stops a move toward it; leaving it frees travel again.
    pub fn on_endstop(&mut self, end: Endstop, value: u8) -> (r: Vec<Command>)
        ensures
            (*final(self), r@) == old(self).after_endstop(end, value),
            old(self).wf() ==> final(self).wf(),
    {
        let mut cmds: Vec<Command> = Vec::new();
        if value == ENDSTOP_TRIGGERED {
            let d = match end {
                Endstop::Top => PinDir::COUNTER_CLOCKWISE,
                Endstop::Bottom => PinDir::CLOCKWISE,
            };
            let heading = self.handshake == ready_state_for(d) || (self.handshake
                == MotorTurnState::Go && current_direction(self) == d);
            self.motion = match end {
                Endstop::Top => MotionState::AtTop,
                Endstop::Bottom => MotionState::AtBottom,
            };
            if heading {
                self.handshake = MotorTurnState::Stopped;
                cmds.push(Command::Stop);
                cmds.push(Command::Publish(MotorTurnState::Stopped));
            }
        } else {
            self.motion = MotionState::Free;
        }
        proof {
            assert(cmds@ =~= old(self).after_endstop(end, value).1);
        }
        cmds
    }
}

impl Coordinator {
    /// Handles a value of the `turn` property as the bus carries it; a value
    /// outside 0 to 3 is dropped and changes nothing.
    pub fn on_bus_turn(&mut self, value: i64) -> (r: Vec<Command>)
        ensures
            (*final(self), r@) == old(self).after_bus_turn(value),
            old(self).wf() ==> final(self).wf(),
    {
        if 0 <= value && value <= 3 {
            self.on_turn_changed(value as i8)
        } else {
            Vec::new()
        }
    }
}

/// The motor's state after it carries out `cmd`.
pub open spec fn command_state(s: MotorState, cmd: Command) -> MotorState {
    match cmd {
        Command::PowerOn => s.with_power(true),
        Command::Turn(d) => s.turned(d),
        Command::Stop => s.stopped(),
        Command::Publish(_) => s,
    }
}

/// The pin operations the motor asks for when it carries out `cmd`.
pub open spec fn command_ops(s: MotorState, cmd: Command) -> Seq<PinOp> {
    match cmd {
        Command::PowerOn => power_ops(s.gpio_config, true),
        Command::Turn(d) => s.turn_ops(d),
        Command::Stop => power_ops(s.gpio_config, false),
        Command::Publish(_) => Seq::empty(),
    }
}

/// Carries out a motor command; `Publish` is left to the caller and changes
/// nothing here. Returns true exactly when a run started, whose pulse loop
/// the caller then drives with [`Motor::pulse`].
pub fn apply_command(motor: &mut Motor, cmd: Command) -> (r: bool)
    ensures
        r == (cmd is Turn && old(motor).state.accepts_turn()),
        final(motor).state == command_state(old(motor).state, cmd),
        final(motor).pending@ == old(motor).pending@ + command_ops(old(motor).state, cmd),
{
    match cmd {
        Command::PowerOn => {
            motor.power_motor(true);
            false
        },
        Command::Turn(d) => motor.turn(d),
        Command::Stop => {
            motor.stop();
            false
        },
        Command::Publish(_) => {
            proof {
                assert(motor.pending@ =~= old(motor).pending@ + Seq::<PinOp>::empty());
            }
            false
        },
    }
}

/// When an endstop is reached, a pending or running move toward it is
/// stopped and the stop published, and from then on a move toward that end
/// is refused, whether asked locally or by the peer. A move the other way is
/// left as it was.
pub proof fn lemma_endstop_stops_move_toward_it(c: Coordinator, end: Endstop, d: u8)
    ensures
        c.moving_toward(toward(end)) ==> c.after_endstop(end, ENDSTOP_TRIGGERED) == (
        Coordinator { motion: reached(end), handshake: MotorTurnState::Stopped, ..c },
        seq![Command::Stop, Command::Publish(MotorTurnState::Stopped)],
        ),
        is_direction(d) && d != toward(end) && c.moving_toward(d) ==> c.after_endstop(
            end,
            ENDSTOP_TRIGGERED,
        ) == (Coordinator { motion: reached(end), ..c }, Seq::<Command>::empty()),
        c.after_endstop(end, ENDSTOP_TRIGGERED).0.after_request(Some(toward(end))) == (
        c.after_endstop(end, ENDSTOP_TRIGGERED).0,
        Seq::<Command>::empty(),
        ),
        c.after_endstop(end, ENDSTOP_TRIGGERED).0.after_turn_changed(
            ready_for(toward(end)).code() as i8,
        ) == (c.after_endstop(end, ENDSTOP_TRIGGERED).0, Seq::<Command>::empty()),
{
}

/// A follower with a pending move that sees the peer announce the same
/// move answers with a single `Go` and keeps its motor powered, without
/// starting it: no `Turn` is among its commands, and its move stays pending.
pub proof fn lemma_follower_answers_ready_with_go(c: Coordinator, d: u8)
    requires
        c.wf(),
        !c.is_authority,
        is_direction(d),
        c.handshake == ready_for(d),
    ensures
        c.after_turn_changed(ready_for(d).code() as i8) == (
        Coordinator { direction: d, ..c },
        seq![Command::PowerOn, Command::Publish(MotorTurnState::Go)],
        ),
        c.after_turn_changed(ready_for(d).code() as i8).0.handshake == ready_for(d),
{
}

} // verus!
