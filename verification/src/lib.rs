//! The navigation and view-state engine of a terminal dashboard that browses
//! recent commits across several Git repositories, marks commits and asks
//! for a summary of them.
//!
//! The library holds the state and its transitions, and derives what the
//! screen shows; it reads no file and draws nothing. A session owns a
//! [`models::ViewState`], the [`commits::CommitData`] of the active time
//! window, the marks and the summary overlay. Every key and every mouse
//! event is handed to [`input::handle_key`] or [`mouse::handle_mouse`],
//! which change the state and return the [`models::Action`] that the caller
//! has to carry out. [`ui::render_commits`] plans the screen for a frame.
//!
//! - [`commits`], [`active`]: the loaded commits, and which of them are on
//!   display at which position and on which row.
//! - [`marks`]: the marked commits.
//! - [`state`], [`input`], [`mouse`]: consistency of the state, the
//!   transitions, and the reading of mouse events.
//! - [`layout`], [`ui`], [`tickets`]: the regions of the screen, the plan
//!   of what is shown, and commit lines cut into their pieces.
//! - [`prompts`], [`network`]: the summary request and what is shown for
//!   its outcome.
//! - [`git`], [`config`], [`intervals`]: arguments for and output of `git`,
//!   settings, and time windows.
//! - [`scroll`], [`text`], [`utils`]: offsets, text, and window heights.
//! - [`laws`]: what holds of all of this, proved.

pub mod active;
pub mod commits;
pub mod config;
pub mod git;
pub mod input;
pub mod intervals;
pub mod laws;
pub mod layout;
pub mod marks;
pub mod models;
pub mod mouse;
pub mod network;
pub mod prompts;
pub mod scroll;
pub mod state;
pub mod text;
pub mod tickets;
pub mod ui;
pub mod utils;
