//! A click-through state machine for an image overlay window.
//!
//! The library owns the one piece of shared state of the overlay — whether
//! pointer input currently passes through it — and the decisions every
//! trigger makes around that flag: the programmatic toggle command, the
//! global-hotkey callback, and the reset that runs when the overlay closes.
//! The surrounding application performs the OS calls (applying the
//! pointer-passthrough property, showing, hiding, notifying the UI) and
//! feeds their outcomes back in; everything that decides is here, with a
//! contract.
//!
//! Showing the overlay deliberately leaves the flag alone: the close-time
//! reset already guarantees that a reopened overlay starts interactive, so
//! a show never needs to touch the state machine.

pub mod controller;
pub mod laws;
pub mod shell;
