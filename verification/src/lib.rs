//! Core of a small image-listing web service.
//!
//! Each HTTP route of the service is backed by a verified function here that
//! turns plain request data (path segments, the `Host` header, query
//! parameters) into the exact response text or response decision. The
//! surrounding HTTP server only moves bytes between the network and these
//! functions.

pub mod json;
pub mod num;
mod text;
pub mod web;
