//! The error kinds a resolution can end in.
//!
//! Every error is terminal for the resolution that raised it; the first four
//! are detected before any I/O is attempted.

use vstd::prelude::*;

verus! {

/// Why a resolution failed.
///
/// * `MalformedReference` — the `pack:name` reference did not split on `:`
///   into exactly two non-empty parts.
/// * `InvalidOption` — a recognized option was given a value of the wrong
///   shape (`field` names the option).
/// * `UnknownOption` — an option name outside the recognized set.
/// * `UrlConstructionError` — the request could not be turned into a
///   canonical URL.
/// * `FetchFailed` — the network transport failed (connection, timeout,
///   non-success status); `reason` preserves the underlying cause.
/// * `IconNotFound` — the remote service answered with its literal `"404"`
///   body for this `pack`/`name`.
/// * `OfflineAssetMissing` — offline-serve mode found no entry for this
///   `pack`/`name` in the offline store.
/// * `IoError` — a store read or write failed for a reason other than
///   "not found"; `path` and `reason` preserve the underlying cause.
#[derive(Debug, Clone)]
pub enum ResolutionError {
    MalformedReference,
    InvalidOption { field: String },
    UnknownOption { name: String },
    UrlConstructionError,
    FetchFailed { reason: String },
    IconNotFound { pack: String, name: String },
    OfflineAssetMissing { pack: String, name: String },
    IoError { path: String, reason: String },
}

} // verus!
