//! Browser impersonation profiles: the TLS, HTTP/2 and header parameters
//! that make a client look like a chosen browser build.

pub mod catalog;
pub mod client;
pub mod headers;
pub mod http2;
pub mod identity;
pub mod text;
pub mod tls;

pub use catalog::{get_config_from_ver, ImpersonateSettings};
pub use client::{configure_impersonate, ClientBuilder, ClientConfig};
pub use identity::{ClientProfile, Error, Impersonate};
