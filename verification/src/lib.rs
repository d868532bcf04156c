//! Decision logic for fetching song lyrics for a local music collection:
//! track identity from paths, catalog queries, candidate selection,
//! sidecar persistence policy and run accounting.

pub mod candidate;
pub mod encode;
pub mod outcome;
pub mod path;
pub mod query;
pub mod reply;
pub mod run;
pub mod task;
pub mod text;
pub mod title;
