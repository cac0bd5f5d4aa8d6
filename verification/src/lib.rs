//! A minimal verified HTTP request router for a single-process edge handler.
//!
//! The crate matches an inbound (method, path) pair against an ordered table
//! of compiled route patterns, extracts captured parameters, and turns the
//! outcomes of the surrounding runtime's calls (asset-store fetches, form
//! parsing, configuration lookups) into HTTP responses with pinned-down
//! statuses, headers and bodies.

pub mod dispatch;
pub mod handlers;
pub mod json;
pub mod pattern;
pub mod response;
pub mod router;
pub mod strutil;
