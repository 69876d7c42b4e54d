//! Window management decisions for a desktop study timer.
//!
//! The timer's window has two modes. In setup mode it is a small panel whose
//! size depends on which optional sections are open; in studying mode it is a
//! thin bar across the top of the monitor. This crate decides, for each
//! request from the user interface, which window operations are to be
//! performed and in what order. Performing them is left to the caller.

pub mod action;
pub mod command;
pub mod layout;
pub mod sizing;
