//! Firefox release channels: which version each channel is at, and where the
//! source archive of a release can be downloaded.
//!
//! The crate does no I/O. A caller fetches the version document and hands the
//! outcome in; every decision about it is made, and proved, here.
//!
//! - `version`: the channels, the version document, and the URL of a
//!   release's source archive.
//! - `handler`: the reply to each request, decided in two steps around the
//!   fetch.
//! - `location`: the URL parser that decides what a redirect's location is.

pub mod handler;
pub mod location;
pub mod version;
