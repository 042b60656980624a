//! Node selection, key rotation and local transaction simulation for a
//! multi-wallet token buyer.

pub mod actions;
pub mod config;
pub mod models;
pub mod types;
pub mod utils;
pub mod worker;
