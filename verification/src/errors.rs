//! The error taxonomy: every failure of classification or construction is a
//! synchronous return value of one of these variants.

use vstd::prelude::*;

verus! {

/// Errors returned by URL classification and client construction.
#[derive(Debug, Clone, PartialEq, Eq)]
pub enum StorageError {
    /// The URL's scheme, or its host pattern under `https`, is not
    /// recognized; carries the full URL text.
    UnsupportedUrl(String),
    /// The requested backend's capability module is not enabled in this
    /// build; carries the feature name and the URL text.
    MissingFeature { feature: String, url: String },
    /// A provider module's builder failed; its message is surfaced
    /// unchanged.
    ProviderBuild(String),
    /// HDFS construction yielded nothing; carries the URL text.
    HdfsConstruction(String),
}

} // verus!
