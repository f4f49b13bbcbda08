//! Download orchestration for firmware images: which devices to visit, what
//! to fetch for each, and how a streamed image is staged and promoted so that
//! an interrupted download never leaves a file at its final path.
//!
//! The library decides; the program around it performs the network and
//! filesystem work and reports back what happened.

pub mod api_json_types;
pub mod cancel;
pub mod client;
pub mod downloader;
pub mod materializer;
pub mod options;
pub mod outcome;
pub mod report;
pub mod text;
