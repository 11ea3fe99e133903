//! A terminal frame buffer with a fixed-timestep application loop.
//!
//! The crate keeps a grid of styled character cells, turns that grid into
//! the sequence of terminal commands that repaints it, and decides, one
//! event at a time, what the frame loop does next.  Nothing here touches a
//! terminal, a clock or a keyboard: commands and actions are plain values
//! for a driver to carry out, and what the driver learns comes back as
//! plain values too.
//!
//! - [`terminal`]: cells, the canvas, and the display surface that issues
//!   commands;
//! - [`command`]: the commands, the sequences they are issued in, and how
//!   many colour commands a repaint takes;
//! - [`pen`]: what a terminal shows once it has carried the commands out;
//! - [`app`]: the frame loop as a transition from event to action;
//! - [`keyboard`]: the keys of the current frame;
//! - [`spatial`]: coordinates.

pub mod app;
pub mod command;
pub mod keyboard;
pub mod pen;
pub mod spatial;
pub mod terminal;
