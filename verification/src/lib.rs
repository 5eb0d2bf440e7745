//! Core of a terminal client for browsing issue-tracker tickets and
//! version-control branches: the data model, the selection-list container,
//! the query composition, and the state actor's event-processing step.
//!
//! All interaction with the outside world (the tracker's HTTP API, the
//! repository on disk, the terminal, configuration files) happens in the
//! surrounding application, which feeds plain events into
//! [`state::State::process_event`] and performs the [`events::Effect`]s
//! it returns.

pub mod branches;
pub mod config;
pub mod events;
pub mod jql;
pub mod keys;
pub mod selection;
pub mod summaries;
pub mod text;

pub mod laws;
pub mod state;

pub use config::Config;
