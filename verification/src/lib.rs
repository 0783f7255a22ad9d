//! Driver core for an addressable RGBW LED strip.
//!
//! The crate holds the verified logic of the controller: the fixed-point
//! color model and its conversions, the wire-format packing for the strip's
//! one-wire protocol, the cancellation token, the remote-input state machine,
//! the show state machines, and the fixed-priority dispatch model that ties
//! them together.  Hardware access (GPIO, PIO, UART, timers) stays outside;
//! the library computes frames, words, and decisions from plain values.

pub mod clock;
pub mod color;
pub mod config;
pub mod controller;
pub mod demo;
pub mod engine;
pub mod encoder;
pub mod fix;
pub mod hsv;
pub mod input;
pub mod random;
pub mod remote;
pub mod rng;
pub mod show;
pub mod snake;
pub mod spotlight;
pub mod token;
pub mod uart;
pub mod util;
