//! Event-dispatch core of an input-method bridge.
//!
//! The library receives normalized keyboard events and lifecycle
//! notifications, drives a transliteration/suggestion session, and turns the
//! session's output into preedit text, an ordered candidate list, and final
//! committed text.  All interaction with the host framework and with the
//! transliteration engine is expressed as plain data: the dispatcher consumes
//! key events plus the engine's answers as values, and returns the display
//! and engine commands to perform, so that every decision it makes is
//! verified here while the process around it stays free to perform the
//! actual I/O.

pub mod keys;
pub mod keycode;
pub mod constants;
pub mod settings;
pub mod config;
pub mod lookup;
pub mod suggestion;
pub mod actions;
pub mod state;
pub mod signal_handler;
