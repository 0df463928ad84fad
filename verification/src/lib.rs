//! A tiling window manager core: the workspace model, the master-stack
//! layout, focus and activation transitions, and the dispatch of events and
//! actions. Every transition is a function from state to state that also
//! hands back the protocol requests to send.

pub mod config;
pub mod wm;
