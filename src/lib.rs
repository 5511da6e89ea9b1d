//! Core of an on-screen keystroke visualizer: key-token tables for two key
//! alphabets, the rolling display buffer that collapses repeats and keeps the
//! line within a width, the capture-source state machine, and the decisions
//! that the window host acts on.

pub mod digits;
pub mod keys;
mod text;
pub mod buffer;
pub mod capture;
pub mod lemmas;
pub mod screen;
