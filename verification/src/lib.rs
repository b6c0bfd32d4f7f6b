pub mod config;
pub mod content;
pub mod hashing;
pub mod stats;
pub mod transfer;
