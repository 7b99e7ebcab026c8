//! Fetching server packs from the CurseForge add-on service, without the
//! fetching: this crate plans the requests, keeps the books of a download and
//! decides what a run does next, and leaves the network, the disk and the
//! terminal to its caller.
//!
//! - [`client`] makes the requests that the service answers, and cuts a
//!   search result to the size that was asked for.
//! - [`url`] writes the addresses of the service and names the file that a
//!   download is saved in.
//! - [`download`] follows one streamed download from request to last byte.
//! - [`flow`] leads from the search over the choice of a project and of a
//!   file to the download.
//! - [`models`] holds the records that the service sends.
//! - [`text`] reads and writes numbers and trims lines.
//! - [`error`] names what can go wrong.

pub mod client;
pub mod download;
pub mod error;
pub mod flow;
pub mod models;
pub mod text;
pub mod url;
