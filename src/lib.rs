//! The startup sequence of a desktop application shell: which capability plugins it
//! attaches, in what order, when the configuration context may be edited and when it is
//! consumed, and what becomes of the process when the runtime fails to start.
use vstd::prelude::*;

pub mod bootstrap;
pub mod plugin;

pub use bootstrap::{Action, Bootstrap, Event, Phase};
pub use plugin::{planned_at, registration_plan, Plugin, PLUGIN_COUNT};
