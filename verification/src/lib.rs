//! Feed ingestion client library: the command-line argument model and the
//! ingestion of feeds, with machine-checked contracts.

pub mod failure;
pub mod feed;
pub mod local;
pub mod logging;
pub mod rss;
pub mod startup;
pub mod text;
pub mod urls;
