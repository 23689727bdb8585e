//! A full-screen terminal greeting card: a few multiple-choice locks, a final
//! yes/no prompt and a short animation in between.
//!
//! This crate holds everything the card decides: where each piece of text is
//! written on screen, how the status bar reads, which keys count at which
//! prompt, how the lock sequence moves on, and where the animated glyph stands
//! on each tick. Reading keys, writing to the terminal and the clock are left
//! to the caller, which hands plain values in and performs what comes back.

pub mod clock;
pub mod cutscene;
pub mod frame;
pub mod input;
pub mod layout;
pub mod screens;
pub mod sequencer;
pub mod session;
