//! Decision core of a caching proxy for package mirrors: request and
//! response heads, object paths, reply headers, on-disk cache state, mirror
//! rotation, download decisions, the job registry that coalesces downloads,
//! the plans that stream complete and growing files, and end-to-end checks.
pub mod decimal;
pub mod path;
pub mod request;
pub mod header;
pub mod cache;
pub mod stream;
pub mod worker;
pub mod pool;
pub mod registry;
pub mod context;
pub mod laws;
pub mod scenario;

pub use pool::ProviderSelectionError;
