//! Core of an interactive, full-screen terminal front end that turns single
//! keystrokes into version-control operations and renders their textual
//! results back to the screen.
//!
//! The crate is organised as a state machine over plain values: a key event
//! (plus modifier) is looked up in a fixed action table, the session steps
//! from mode to mode (idle, awaiting a prompted line, selecting files for a
//! selective commit), and each step emits the effects an embedding program
//! must perform: render a banner, run the line prompt, call the backend.
//! The backend itself — the concrete version-control tool — sits behind the
//! [`VersionControlActions`] trait and is supplied by the embedding program.

pub mod actions;
pub mod backend;
pub mod entry;
pub mod render;
pub mod select;
pub mod session;
