//! Recognition of provider option keys.
//!
//! Each cloud provider owns a closed, typed vocabulary of configuration
//! keys, defined by the `object_store` crate. A raw option key is
//! recognized when its lowercased form parses into that vocabulary; the
//! recognized key is represented here by its canonical spelling, the one
//! the provider's key type itself reports. The canonical spelling is in
//! bijection with the typed key, so the typed key can always be recovered
//! from it.

use std::str::FromStr;
use vstd::prelude::*;

verus! {

/// The canonical spelling of an S3 option key: `Some` exactly when the
/// given string is a recognized S3 configuration key.
pub uninterp spec fn s3_canon(s: Seq<char>) -> Option<Seq<char>>;

/// The canonical spelling of an Azure option key.
pub uninterp spec fn azure_canon(s: Seq<char>) -> Option<Seq<char>>;

/// The canonical spelling of a Google Cloud Storage option key.
pub uninterp spec fn gcs_canon(s: Seq<char>) -> Option<Seq<char>>;

/// Relies on `object_store::aws::AmazonS3ConfigKey`: `from_str` accepts
/// exactly the crate's documented S3 option key spellings, and `as_ref`
/// reports one canonical spelling per key; both depend on the string
/// alone.
#[verifier::external_body]
pub fn s3_canon_key(s: &str) -> (r: Option<String>)
    ensures
        r matches Some(c) ==> s3_canon(s@) == Some(c@),
        r is None ==> s3_canon(s@) is None,
{
    match object_store::aws::AmazonS3ConfigKey::from_str(s) {
        Ok(k) => Some(k.as_ref().to_string()),
        Err(_) => None,
    }
}

/// Relies on `object_store::azure::AzureConfigKey`: `from_str` accepts
/// exactly the crate's documented Azure option key spellings, and
/// `as_ref` reports one canonical spelling per key; both depend on the
/// string alone.
#[verifier::external_body]
pub fn azure_canon_key(s: &str) -> (r: Option<String>)
    ensures
        r matches Some(c) ==> azure_canon(s@) == Some(c@),
        r is None ==> azure_canon(s@) is None,
{
    match object_store::azure::AzureConfigKey::from_str(s) {
        Ok(k) => Some(k.as_ref().to_string()),
        Err(_) => None,
    }
}

/// Relies on `object_store::gcp::GoogleConfigKey`: `from_str` accepts
/// exactly the crate's documented Google Cloud Storage option key
/// spellings, and `as_ref` reports one canonical spelling per key; both
/// depend on the string alone.
#[verifier::external_body]
pub fn gcs_canon_key(s: &str) -> (r: Option<String>)
    ensures
        r matches Some(c) ==> gcs_canon(s@) == Some(c@),
        r is None ==> gcs_canon(s@) is None,
{
    match object_store::gcp::GoogleConfigKey::from_str(s) {
        Ok(k) => Some(k.as_ref().to_string()),
        Err(_) => None,
    }
}

} // verus!
