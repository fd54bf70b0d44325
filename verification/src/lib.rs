//! Resolution of symbolic icon references into SVG markup.
//!
//! An icon is named by a reference `pack:name` together with optional
//! presentation overrides (color, width, height, flip, rotate, view box).
//! The library builds the canonical query URL for such a request, derives a
//! stable cache key from that URL, and decides — under one of three operating
//! modes — whether the SVG text comes from a local cache, from the network,
//! or from a pre-populated offline store.
//!
//! All I/O (filesystem, HTTP) is performed by the caller: the resolver is a
//! step function from a pending resolution and the outcome of the last I/O
//! action to the next I/O action, so the whole control flow is verified here
//! while a thin driver executes the actions.

pub mod digest;
pub mod errors;
pub mod paths;
pub mod request;
pub mod resolver;
pub mod store;
pub mod strutil;
pub mod urlbuild;
pub mod urlenc;
