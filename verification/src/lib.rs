//! Verified core of a command-line media downloader for a tag-based
//! imageboard API.
//!
//! The library holds the logic of the download pipeline: turning a favorites
//! or tag search into page requests, deciding which URL to fetch for each
//! post (with an optional lower-quality fallback), skipping posts whose file
//! is already on disk, and aggregating per-batch statistics into a final
//! report. All functions here are pure with respect to the outside world;
//! the surrounding binary performs the HTTP requests, filesystem checks and
//! thread-pool dispatch and feeds the results back in.

pub mod api_defs;
pub mod batch;
pub mod config;
pub mod decimal;
pub mod dispatch;
pub mod paginate;
pub mod paths;
pub mod query;
pub mod report;
pub mod resolver;
pub mod stats;
