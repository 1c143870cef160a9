//! Host-name resolution for an HTTP client's connector, backed by hickory's
//! asynchronous resolver.

pub mod address;
pub mod error;
pub mod hickory;
pub mod resolver;

pub use address::{IpAddress, SocketAddress, SocketAddrs};
pub use error::Error;
pub use resolver::HickoryDnsResolver;
