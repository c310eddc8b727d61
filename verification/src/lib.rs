//! Discovery manifest for a self-describing HTTP service: a validated
//! manifest, the routes derived from the URLs it embeds, and the responses
//! served on them; beside it, the decisions of the to-do service.

pub mod builder;
pub mod discovery;
pub mod http;
pub mod limits;
pub mod manifest;
pub mod text;
pub mod todo;

pub use builder::{ManifestBuilder, ManifestError, ManifestField};
pub use discovery::{
    api_docs_response, serve_api_docs, serve_icon, serve_manifest, serve_plugin_info,
    DiscoveryError, DiscoverySurface, MANIFEST_ROUTE,
};
pub use http::{Body, ContentType, Response, Status};
pub use limits::{test_len, LengthError};
pub use manifest::{Manifest, ManifestApi, ManifestAuth};
