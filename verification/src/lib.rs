//! A time-locked token vault: the rules of the vault as verified functions
//! over a model of its persistent storage.
pub mod storage;
pub mod types;
pub mod vault;
pub mod laws;
