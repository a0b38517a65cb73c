//! Core of a small HTTP static file server: joining request paths with a
//! configured root directory, choosing among the missing / directory / file
//! responses, and rendering directory listings as HTML.
//!
//! The filesystem itself is an outside collaborator: callers probe it and
//! hand the observed outcomes to this crate as plain values, and every
//! decision taken on those outcomes is verified here.

pub mod listing;
pub mod paths;
pub mod response;
