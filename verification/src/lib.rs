//! Where the Ethereum JSON-RPC endpoint comes from: the value of one
//! environment variable, read as a URL.

pub mod config;
pub mod endpoint;
pub mod error;

pub use config::{rpc_url, EnvValue, ETH_RPC_URL};
pub use endpoint::RpcUrl;
pub use error::RpcUrlError;
