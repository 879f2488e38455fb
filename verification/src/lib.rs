//! Decision logic of a Discord community bot: reaction roles, automatic
//! threads, slash commands and channel locking.
use vstd::prelude::*;

pub mod commands;
pub mod config;
pub mod handler;
pub mod laws;
pub mod permissions;
pub mod reaction;
pub mod reply;
pub mod text;
pub mod thread_channel;
pub mod util;

verus! {

} // verus!
