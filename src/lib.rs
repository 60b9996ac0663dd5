//! Detection and execution core of a sandwich bot for constant-product pools.
pub mod address;
pub mod amm;
pub mod config;
pub mod executor;
pub mod mempool;
pub mod metrics;
pub mod opportunity;
pub mod swap;
pub mod types;
pub mod utils;

pub use config::Config;
