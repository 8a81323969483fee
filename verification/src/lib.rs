//! Configuration of AWS SDK clients from an optional region, profile and
//! endpoint URL.
//!
//! The crate decides which overrides a configuration loader receives and
//! proves that the decision follows the selection policy; loading the
//! configuration and talking to services is left to the SDK.

pub mod laws;
pub mod loader;
pub mod selection;

pub use loader::{apply_credentials, apply_endpoint, apply_region, build_client_config};
pub use selection::{CredentialsSource, EndpointSource, RegionSource, Selection};
