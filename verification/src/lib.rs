//! Verified core of a terminal client for a remote todo service.
//!
//! The state and sequencing logic of the interactive application lives here:
//! the filtered-view engine, the input form, the selection tracker, the
//! screen/mode state machine and the action coordinator.  Network transport,
//! rendering and on-disk configuration are external collaborators.

pub mod app;
pub mod cli_types;
pub mod config;
pub mod dates;
pub mod filter;
pub mod form;
pub mod keys;
pub mod logging;
pub mod resolve;
pub mod strutil;
pub mod todo;
pub mod widget;

use vstd::prelude::*;

verus! {

/// How many leading characters of a todo identifier are shown in list output.
pub const ID_DISPLAY_LENGTH: usize = 8;

} // verus!
