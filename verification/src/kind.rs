//! Classification of a storage URL into a backend kind.

use crate::errors::StorageError;
use crate::strutil::{contains_substr, spec_contains, str_eq};
use crate::urlinfo::StorageUrl;
use vstd::prelude::*;

verus! {

/// The closed set of storage backend categories this crate can route to.
#[derive(Debug, Clone, Copy, PartialEq, Eq)]
pub enum ObjectStoreKind {
    Local,
    InMemory,
    S3,
    Google,
    Azure,
    Hdfs,
}

/// The classification table. Scheme comparison is exact; under `https`
/// the host decides, by substring containment rather than suffix
/// matching. `None` means the URL is unsupported.
pub open spec fn spec_classify(scheme: Seq<char>, host: Seq<char>) -> Option<ObjectStoreKind> {
    if scheme == "file"@ {
        Option::Some(ObjectStoreKind::Local)
    } else if scheme == "memory"@ {
        Option::Some(ObjectStoreKind::InMemory)
    } else if scheme == "az"@ || scheme == "abfs"@ || scheme == "abfss"@ || scheme == "azure"@
        || scheme == "wasb"@ || scheme == "adl"@ {
        Option::Some(ObjectStoreKind::Azure)
    } else if scheme == "s3"@ || scheme == "s3a"@ {
        Option::Some(ObjectStoreKind::S3)
    } else if scheme == "gs"@ {
        Option::Some(ObjectStoreKind::Google)
    } else if scheme == "hdfs"@ {
        Option::Some(ObjectStoreKind::Hdfs)
    } else if scheme == "https"@ {
        if spec_contains(host, "amazonaws.com"@) {
            Option::Some(ObjectStoreKind::S3)
        } else if spec_contains(host, "dfs.core.windows.net"@) || spec_contains(
            host,
            "blob.core.windows.net"@,
        ) {
            Option::Some(ObjectStoreKind::Azure)
        } else {
            Option::None
        }
    } else {
        Option::None
    }
}

impl ObjectStoreKind {
    /// Classify a URL into a backend kind, or fail with `UnsupportedUrl`
    /// carrying the full URL text.
    pub fn parse_url(url: &StorageUrl) -> (r: Result<Self, StorageError>)
        ensures
            r matches Ok(k) ==> spec_classify(url.scheme@, url.host@) == Option::Some(k),
            r matches Err(e) ==> spec_classify(url.scheme@, url.host@) is None && (e
                matches StorageError::UnsupportedUrl(u) && u@ == url.raw@),
    {
        let s = url.scheme.as_str();
        if str_eq(s, "file") {
            Ok(ObjectStoreKind::Local)
        } else if str_eq(s, "memory") {
            Ok(ObjectStoreKind::InMemory)
        } else if str_eq(s, "az") || str_eq(s, "abfs") || str_eq(s, "abfss") || str_eq(s, "azure")
            || str_eq(s, "wasb") || str_eq(s, "adl") {
            Ok(ObjectStoreKind::Azure)
        } else if str_eq(s, "s3") || str_eq(s, "s3a") {
            Ok(ObjectStoreKind::S3)
        } else if str_eq(s, "gs") {
            Ok(ObjectStoreKind::Google)
        } else if str_eq(s, "hdfs") {
            Ok(ObjectStoreKind::Hdfs)
        } else if str_eq(s, "https") {
            let h = url.host.as_str();
            if contains_substr(h, "amazonaws.com") {
                Ok(ObjectStoreKind::S3)
            } else if contains_substr(h, "dfs.core.windows.net") || contains_substr(
                h,
                "blob.core.windows.net",
            ) {
                Ok(ObjectStoreKind::Azure)
            } else {
                Err(StorageError::UnsupportedUrl(url.raw.clone()))
            }
        } else {
            Err(StorageError::UnsupportedUrl(url.raw.clone()))
        }
    }
}

} // verus!
