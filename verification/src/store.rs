//! The backend factory and the path-prefix scoping of constructed
//! clients.
//!
//! Construction goes through the `object_store` crate: each provider's
//! builder is driven from verified code through small trusted wrappers,
//! and the finished client is held behind an opaque shared handle. The
//! factory's own routing — capability checks, option filtering, the
//! prefix decision — is verified.

use crate::errors::StorageError;
use crate::kind::ObjectStoreKind;
use crate::options::StorageOptions;
use crate::urlinfo::StorageUrl;
use object_store::DynObjectStore;
use std::str::FromStr;
use std::sync::Arc;
use vstd::prelude::*;

verus! {

/// An opaque shared handle to a constructed `object_store` client. The
/// client's own operations (get, put, list, ...) belong to the
/// `object_store` crate; unverified callers reach them through `inner`.
#[verifier::external_body]
pub struct StoreHandle {
    /// The underlying client.
    pub inner: Arc<DynObjectStore>,
}

/// The handle returned to callers: the constructed store, together with
/// the URL path prefix it was scoped to when the URL designated a
/// sub-path, and `None` when the URL path was the root.
pub struct ClientHandle {
    pub store: StoreHandle,
    pub prefix: Option<String>,
}

/// Which optional provider capability modules are enabled. Absence of a
/// capability fails construction with `MissingFeature` rather than being
/// a compile-time-only concept, so the observable contract is the same
/// across build configurations. The HDFS module is not available in this
/// build at all, so it has no flag here.
#[derive(Debug, Clone, Copy)]
pub struct Capabilities {
    pub s3: bool,
    pub azure: bool,
    pub gcs: bool,
}

/// A URL path designates the backend root exactly when it has no
/// nonempty segment, i.e. consists only of `/` characters. The path
/// normalization of `object_store::path::Path` drops empty segments, so
/// these are precisely the paths that normalize to the root path.
pub open spec fn spec_is_root_path(s: Seq<char>) -> bool {
    forall|i: int| 0 <= i < s.len() ==> s[i] == '/'
}

/// Decide whether a URL path designates the backend root.
pub fn is_root_path(path: &str) -> (r: bool)
    ensures
        r == spec_is_root_path(path@),
{
    let n: usize = path.unicode_len();
    let mut i: usize = 0;
    while i < n
        invariant
            n == path@.len(),
            0 <= i <= n,
            forall|k: int| 0 <= k < i ==> path@[k] == '/',
        decreases n - i,
    {
        if path.get_char(i) != '/' {
            return false;
        }
        i = i + 1;
    }
    true
}

/// The handle is correctly scoped to the given URL path: unwrapped at the
/// root, wrapped with exactly that path otherwise.
pub open spec fn scoped_to(c: ClientHandle, path: Seq<char>) -> bool {
    &&& (spec_is_root_path(path) ==> c.prefix is None)
    &&& (!spec_is_root_path(path) ==> (c.prefix matches Some(p) && p@ == path))
}

/// The result is a `MissingFeature` error carrying exactly this feature
/// name and URL text.
pub open spec fn missing_feature(
    r: Result<ClientHandle, StorageError>,
    feature: Seq<char>,
    url: Seq<char>,
) -> bool {
    r matches Err(e) && (e matches StorageError::MissingFeature { feature: f, url: u } && f@
        == feature && u@ == url)
}

/// Scope a constructed store to a URL path: at the root the store is
/// returned unwrapped; otherwise it is wrapped so that every operation is
/// relative to that path, and the handle records the path.
pub fn url_prefix_handler(store: StoreHandle, path: &str) -> (r: ClientHandle)
    ensures
        scoped_to(r, path@),
{
    if is_root_path(path) {
        ClientHandle { store, prefix: None }
    } else {
        let wrapped = wrap_prefix(store, path);
        ClientHandle { store: wrapped, prefix: Some(path.to_owned()) }
    }
}

impl ObjectStoreKind {
    /// Construct the storage client for this backend kind: check the
    /// capability, drive the provider's builder from the filtered option
    /// view and the URL, and scope the result to the URL's path.
    ///
    /// Local and in-memory construction always succeeds. A disabled
    /// capability fails with `MissingFeature` carrying the feature name
    /// and the URL. An enabled provider's build failure is surfaced as
    /// `ProviderBuild`, unchanged.
    pub fn into_impl(
        self,
        storage_url: &StorageUrl,
        options: &StorageOptions,
        caps: &Capabilities,
    ) -> (r: Result<ClientHandle, StorageError>)
        ensures
            self == ObjectStoreKind::Local || self == ObjectStoreKind::InMemory ==> r is Ok,
            r matches Ok(c) ==> scoped_to(c, storage_url.path@),
            self == ObjectStoreKind::S3 && !caps.s3 ==> missing_feature(
                r,
                "s3"@,
                storage_url.raw@,
            ),
            self == ObjectStoreKind::Azure && !caps.azure ==> missing_feature(
                r,
                "azure"@,
                storage_url.raw@,
            ),
            self == ObjectStoreKind::Google && !caps.gcs ==> missing_feature(
                r,
                "gcs"@,
                storage_url.raw@,
            ),
            self == ObjectStoreKind::Hdfs ==> missing_feature(r, "hdfs"@, storage_url.raw@),
            self == ObjectStoreKind::S3 && caps.s3 ==> r is Ok || (r matches Err(e) && e
                matches StorageError::ProviderBuild(_)),
            self == ObjectStoreKind::Azure && caps.azure ==> r is Ok || (r matches Err(e) && e
                matches StorageError::ProviderBuild(_)),
            self == ObjectStoreKind::Google && caps.gcs ==> r is Ok || (r matches Err(e) && e
                matches StorageError::ProviderBuild(_)),
    {
        match self {
            ObjectStoreKind::Local => {
                let store = local_store();
                Ok(url_prefix_handler(store, storage_url.path.as_str()))
            },
            ObjectStoreKind::InMemory => {
                let store = memory_store();
                Ok(url_prefix_handler(store, storage_url.path.as_str()))
            },
            ObjectStoreKind::S3 => {
                if !caps.s3 {
                    return Err(StorageError::MissingFeature {
                        feature: "s3".to_owned(),
                        url: storage_url.raw.clone(),
                    });
                }
                let mut b = s3_builder_from_env();
                b = s3_builder_with_url(b, storage_url.raw.as_str());
                let opts = options.as_s3_options();
                let mut i: usize = 0;
                while i < opts.len()
                    invariant
                        0 <= i <= opts@.len(),
                    decreases opts@.len() - i,
                {
                    let e = &opts[i];
                    b = s3_builder_with_option(b, e.0.as_str(), e.1.as_str());
                    i = i + 1;
                }
                b = s3_builder_allow_http(b, options.allow_http());
                match s3_build(b) {
                    Ok(store) => Ok(url_prefix_handler(store, storage_url.path.as_str())),
                    Err(msg) => Err(StorageError::ProviderBuild(msg)),
                }
            },
            ObjectStoreKind::Azure => {
                if !caps.azure {
                    return Err(StorageError::MissingFeature {
                        feature: "azure".to_owned(),
                        url: storage_url.raw.clone(),
                    });
                }
                let mut b = azure_builder_from_env();
                b = azure_builder_with_url(b, storage_url.raw.as_str());
                let opts = options.as_azure_options();
                let mut i: usize = 0;
                while i < opts.len()
                    invariant
                        0 <= i <= opts@.len(),
                    decreases opts@.len() - i,
                {
                    let e = &opts[i];
                    b = azure_builder_with_option(b, e.0.as_str(), e.1.as_str());
                    i = i + 1;
                }
                b = azure_builder_allow_http(b, options.allow_http());
                match azure_build(b) {
                    Ok(store) => Ok(url_prefix_handler(store, storage_url.path.as_str())),
                    Err(msg) => Err(StorageError::ProviderBuild(msg)),
                }
            },
            ObjectStoreKind::Google => {
                if !caps.gcs {
                    return Err(StorageError::MissingFeature {
                        feature: "gcs".to_owned(),
                        url: storage_url.raw.clone(),
                    });
                }
                let mut b = gcs_builder_from_env();
                b = gcs_builder_with_url(b, storage_url.raw.as_str());
                let opts = options.as_gcs_options();
                let mut i: usize = 0;
                while i < opts.len()
                    invariant
                        0 <= i <= opts@.len(),
                    decreases opts@.len() - i,
                {
                    let e = &opts[i];
                    b = gcs_builder_with_option(b, e.0.as_str(), e.1.as_str());
                    i = i + 1;
                }
                match gcs_build(b) {
                    Ok(store) => Ok(url_prefix_handler(store, storage_url.path.as_str())),
                    Err(msg) => Err(StorageError::ProviderBuild(msg)),
                }
            },
            ObjectStoreKind::Hdfs => Err(StorageError::MissingFeature {
                feature: "hdfs".to_owned(),
                url: storage_url.raw.clone(),
            }),
        }
    }
}

#[verifier::external_type_specification]
#[verifier::external_body]
pub struct ExAmazonS3Builder(object_store::aws::AmazonS3Builder);

#[verifier::external_type_specification]
#[verifier::external_body]
pub struct ExMicrosoftAzureBuilder(object_store::azure::MicrosoftAzureBuilder);

#[verifier::external_type_specification]
#[verifier::external_body]
pub struct ExGoogleCloudStorageBuilder(object_store::gcp::GoogleCloudStorageBuilder);

/// Relies on `object_store::local::LocalFileSystem::new`: a client over
/// the process's view of the filesystem.
#[verifier::external_body]
fn local_store() -> StoreHandle {
    StoreHandle { inner: Arc::new(object_store::local::LocalFileSystem::new()) }
}

/// Relies on `object_store::memory::InMemory::new`: a fresh, empty,
/// process-local volatile store, independent per call.
#[verifier::external_body]
fn memory_store() -> StoreHandle {
    StoreHandle { inner: Arc::new(object_store::memory::InMemory::new()) }
}

/// Relies on `object_store::prefix::PrefixStore`: every operation on the
/// returned store is translated to the inner store under the normalized
/// prefix, and paths in results have the prefix stripped.
#[verifier::external_body]
fn wrap_prefix(store: StoreHandle, path: &str) -> StoreHandle {
    StoreHandle {
        inner: Arc::new(
            object_store::prefix::PrefixStore::new(
                store.inner,
                object_store::path::Path::from(path),
            ),
        ),
    }
}

/// Relies on `AmazonS3Builder::from_env`: builder defaults drawn from the
/// process environment; nothing is promised of the result.
#[verifier::external_body]
fn s3_builder_from_env() -> object_store::aws::AmazonS3Builder {
    object_store::aws::AmazonS3Builder::from_env()
}

/// Relies on `AmazonS3Builder::with_url`: records the URL on the builder.
#[verifier::external_body]
fn s3_builder_with_url(
    b: object_store::aws::AmazonS3Builder,
    url: &str,
) -> object_store::aws::AmazonS3Builder {
    b.with_url(url)
}

/// Relies on `AmazonS3Builder::with_config`: sets one typed option on the
/// builder; the key string is converted back to the typed key it
/// canonically names, and an unrecognized key leaves the builder
/// unchanged.
#[verifier::external_body]
fn s3_builder_with_option(
    b: object_store::aws::AmazonS3Builder,
    key: &str,
    value: &str,
) -> object_store::aws::AmazonS3Builder {
    match object_store::aws::AmazonS3ConfigKey::from_str(key) {
        Ok(k) => b.with_config(k, value),
        Err(_) => b,
    }
}

/// Relies on `AmazonS3Builder::with_allow_http`: records whether plain
/// http connections are allowed.
#[verifier::external_body]
fn s3_builder_allow_http(
    b: object_store::aws::AmazonS3Builder,
    allow: bool,
) -> object_store::aws::AmazonS3Builder {
    b.with_allow_http(allow)
}

/// Relies on `AmazonS3Builder::build`: constructs the client, or fails
/// with the provider's own error, surfaced here as its message.
#[verifier::external_body]
fn s3_build(b: object_store::aws::AmazonS3Builder) -> Result<StoreHandle, String> {
    match b.build() {
        Ok(s) => Ok(StoreHandle { inner: Arc::new(s) }),
        Err(e) => Err(e.to_string()),
    }
}

/// Relies on `MicrosoftAzureBuilder::from_env`: builder defaults drawn
/// from the process environment; nothing is promised of the result.
#[verifier::external_body]
fn azure_builder_from_env() -> object_store::azure::MicrosoftAzureBuilder {
    object_store::azure::MicrosoftAzureBuilder::from_env()
}

/// Relies on `MicrosoftAzureBuilder::with_url`: records the URL on the
/// builder.
#[verifier::external_body]
fn azure_builder_with_url(
    b: object_store::azure::MicrosoftAzureBuilder,
    url: &str,
) -> object_store::azure::MicrosoftAzureBuilder {
    b.with_url(url)
}

/// Relies on `MicrosoftAzureBuilder::with_config`: sets one typed option
/// on the builder; an unrecognized key leaves the builder unchanged.
#[verifier::external_body]
fn azure_builder_with_option(
    b: object_store::azure::MicrosoftAzureBuilder,
    key: &str,
    value: &str,
) -> object_store::azure::MicrosoftAzureBuilder {
    match object_store::azure::AzureConfigKey::from_str(key) {
        Ok(k) => b.with_config(k, value),
        Err(_) => b,
    }
}

/// Relies on `MicrosoftAzureBuilder::with_allow_http`: records whether
/// plain http connections are allowed.
#[verifier::external_body]
fn azure_builder_allow_http(
    b: object_store::azure::MicrosoftAzureBuilder,
    allow: bool,
) -> object_store::azure::MicrosoftAzureBuilder {
    b.with_allow_http(allow)
}

/// Relies on `MicrosoftAzureBuilder::build`: constructs the client, or
/// fails with the provider's own error, surfaced here as its message.
#[verifier::external_body]
fn azure_build(b: object_store::azure::MicrosoftAzureBuilder) -> Result<StoreHandle, String> {
    match b.build() {
        Ok(s) => Ok(StoreHandle { inner: Arc::new(s) }),
        Err(e) => Err(e.to_string()),
    }
}

/// Relies on `GoogleCloudStorageBuilder::from_env`: builder defaults
/// drawn from the process environment; nothing is promised of the
/// result.
#[verifier::external_body]
fn gcs_builder_from_env() -> object_store::gcp::GoogleCloudStorageBuilder {
    object_store::gcp::GoogleCloudStorageBuilder::from_env()
}

/// Relies on `GoogleCloudStorageBuilder::with_url`: records the URL on
/// the builder.
#[verifier::external_body]
fn gcs_builder_with_url(
    b: object_store::gcp::GoogleCloudStorageBuilder,
    url: &str,
) -> object_store::gcp::GoogleCloudStorageBuilder {
    b.with_url(url)
}

/// Relies on `GoogleCloudStorageBuilder::with_config`: sets one typed
/// option on the builder; an unrecognized key leaves the builder
/// unchanged.
#[verifier::external_body]
fn gcs_builder_with_option(
    b: object_store::gcp::GoogleCloudStorageBuilder,
    key: &str,
    value: &str,
) -> object_store::gcp::GoogleCloudStorageBuilder {
    match object_store::gcp::GoogleConfigKey::from_str(key) {
        Ok(k) => b.with_config(k, value),
        Err(_) => b,
    }
}

/// Relies on `GoogleCloudStorageBuilder::build`: constructs the client,
/// or fails with the provider's own error, surfaced here as its message.
#[verifier::external_body]
fn gcs_build(b: object_store::gcp::GoogleCloudStorageBuilder) -> Result<StoreHandle, String> {
    match b.build() {
        Ok(s) => Ok(StoreHandle { inner: Arc::new(s) }),
        Err(e) => Err(e.to_string()),
    }
}

} // verus!
