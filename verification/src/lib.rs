//! Command-processing engine of a tiling window manager.
//!
//! The engine is a single-writer state machine: it accepts structured
//! command messages, mutates a hierarchical model of monitors, workspaces,
//! containers and windows, and reports the side effects it wants performed
//! (window moves, shows, hides, persistence, responses) as a list of
//! actions for an unverified shell to carry out.

use vstd::prelude::*;

pub mod actions;
pub mod commands;
pub mod model;
pub mod errors;
pub mod rect;
pub mod ring;
pub mod rules;
pub mod startmenu;
pub mod subscribers;
pub mod window_manager;

verus! {

} // verus!
