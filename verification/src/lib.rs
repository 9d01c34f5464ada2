//! Verified core of a blockchain node's store: genesis bootstrapping and the database layer.
//!
//! The library decides and computes; reading files, talking to the database and serving requests
//! is left to the program around it.

pub mod account;
pub mod analysis;
pub mod bootstrap;
pub mod command;
pub mod db;
pub mod genesis;
pub mod genesis_laws;
pub mod lifecycle;
pub mod message;
pub mod miden;
pub mod random;
pub mod record;
pub mod storage_map;
pub mod storage_map_laws;
pub mod text;
pub mod word;
pub mod word_set;
