//! Resolution of storage location URLs and loosely-typed configuration bags
//! into ready-to-use object-store client handles.
//!
//! The crate classifies a URL into a backend kind, filters a flat
//! string-keyed option bag into each provider's canonical option vocabulary,
//! constructs the matching client through the `object_store` crate, and
//! scopes the client to the URL's path when one is present.

pub mod errors;
pub mod kind;
pub mod options;
pub mod providers;
pub mod store;
pub mod strutil;
pub mod urlinfo;
