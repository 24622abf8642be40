//! Policy engine and request rewriting for a reverse proxy that stands in front
//! of an Ethereum-style JSON-RPC node.
//!
//! The crate decides which contract calls an anonymous or an identified caller
//! may make, extracts a caller's credential from the parts of an HTTP request,
//! and rewrites public JSON-RPC calls into their credential-aware counterparts.

pub mod address;
pub mod calldata;
pub mod config;
pub mod credentials;
pub mod envelope;
pub mod middleware;
pub mod proxy;
pub mod whitelist;

pub use address::Address;
pub use calldata::CallRequest;
pub use config::{ConfigError, Methods, WhitelistEntry};
pub use credentials::{get_credentials_from_request, RequestHead};
pub use middleware::{AuthMiddleware, AuthMiddlewareLayer, RemapTable};
pub use proxy::{PrivateProxy, Proxy};
pub use whitelist::ContractWhitelist;
