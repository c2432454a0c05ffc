//! Message shapes, typed form lookups and settings reconciliation for a
//! launcher that talks to extension processes.

pub mod actions;
pub mod api;
pub mod text;
pub mod search;
pub mod extensions;
pub mod reconcile;
pub mod settings;
pub mod apps;
pub mod paths;
pub mod search_results;
