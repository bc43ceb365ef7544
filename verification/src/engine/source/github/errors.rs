//! What can go wrong with engines that are released on GitHub.

use crate::failure::{caused, plain, Failure};
use vstd::prelude::*;

verus! {

/// Errors that can occur when resolving a GitHub engine.
#[derive(Debug)]
#[non_exhaustive]
pub enum ResolveError {
    /// Handling the request failed.
    Request(Failure),
}

/// Errors that can occur when downloading a GitHub engine.
#[derive(Debug)]
#[non_exhaustive]
pub enum DownloadError {
    /// An asset for the current platform could not be found.
    AssetNotFound,
    /// Handling the request failed.
    Request(Failure),
    /// The asset's name could not be parsed.
    ParseAssetName(Failure),
}

/// An error in resolving as it is told to the user.
pub open spec fn resolve_error_chain(e: ResolveError) -> Seq<Seq<char>> {
    match e {
        ResolveError::Request(cause) => caused("failed to handle GitHub API request"@, cause@),
    }
}

/// An error in downloading as it is told to the user.
pub open spec fn download_error_chain(e: DownloadError) -> Seq<Seq<char>> {
    match e {
        DownloadError::AssetNotFound => plain("failed to find asset for current platform"@),
        DownloadError::Request(cause) => caused("failed to handle GitHub API request"@, cause@),
        DownloadError::ParseAssetName(cause) => caused("failed to parse asset name"@, cause@),
    }
}

impl ResolveError {
    /// The error as it is told to the user.
    pub fn into_failure(self) -> (r: Failure)
        ensures
            r@ == resolve_error_chain(self),
    {
        match self {
            ResolveError::Request(cause) => cause.context("failed to handle GitHub API request"),
        }
    }
}

impl DownloadError {
    /// The error as it is told to the user.
    pub fn into_failure(self) -> (r: Failure)
        ensures
            r@ == download_error_chain(self),
    {
        match self {
            DownloadError::AssetNotFound => Failure::of(
                "failed to find asset for current platform",
            ),
            DownloadError::Request(cause) => cause.context("failed to handle GitHub API request"),
            DownloadError::ParseAssetName(cause) => cause.context("failed to parse asset name"),
        }
    }
}

} // verus!
