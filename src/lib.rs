//! Drive and synchronisation logic for a pair of bridged stepper-motor
//! controllers that raise and lower one element together.
//!
//! The library decides; the hardware and the property bus are driven by the
//! caller. A [`motor::Motor`] records the pin operations it wants performed,
//! the [`coordinator::Coordinator`] turns intents, endstop events and peer
//! handshake messages into motor commands and values to publish, and
//! [`endstop::InputListener`] turns sampled input levels into edge events.

pub mod mock_gpio;
pub mod config;
pub mod motor;
pub mod endstop;
pub mod coordinator;
