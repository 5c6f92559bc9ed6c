//! The crate's own view of a storage location URL: the components that
//! classification and construction read, held as plain strings.

use vstd::prelude::*;

verus! {

/// A storage location URL, reduced to the components this crate reads.
///
/// `scheme` is the URL's scheme, `host` its host (empty when the URL has
/// none), `path` its path component, and `raw` the full URL text as the
/// caller's URL type serializes it. Callers that hold a parsed URL value
/// fill these fields from its accessors.
#[derive(Debug, Clone)]
pub struct StorageUrl {
    pub scheme: String,
    pub host: String,
    pub path: String,
    pub raw: String,
}

} // verus!
