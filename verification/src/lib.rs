//! A todo list driven by typed commands.
//!
//! The list lives in a [`state::State`]. A line of text is read as a
//! [`command::Command`], which is executed against the state. What a command has
//! to say comes back as [`report::Report`] values, and what it needs from the
//! outside (the save file, an answer to a question) as an
//! [`action::Action`] for the caller to carry out.

pub mod bytes;
pub mod text;
pub mod encoding;
pub mod entry;
pub mod rank;
pub mod spelling;
pub mod command;
pub mod state;
pub mod number;
pub mod answer;
pub mod report;
pub mod action;
pub mod step;
pub mod input;
pub mod execute;
pub mod laws;
