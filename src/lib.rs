//! Genesis bootstrap of a proof-of-stake chain: turns a genesis
//! specification into the node's initial, uncommitted state and its
//! initial validator set.

pub mod dec;
pub mod store;
pub mod genesis;
pub mod code;
pub mod state;
pub mod model;
pub mod init_chain;
pub mod laws;
