//! Control logic for a distributed power-window system: a hub that classifies
//! button voltages and relays commands, and door nodes that drive a relay pair
//! under overload and inactivity supervision.

// Shared by hub and doors: the configuration record and hardware addresses.
pub mod config;
pub mod mac;

// Door node: relay driver, motion controller and fault breaker.
pub mod driver;
pub mod motion;
pub mod breaker;

// Hub: button classifier, door registry, command relay and diagnostics.
pub mod controls;
pub mod clients;
pub mod relay;
pub mod app_state;
