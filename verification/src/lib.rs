//! A marketplace for CW721 tokens and a pay-per-view video catalogue, written
//! as a verified state machine: every handler takes the contract state and the
//! caller's message and answers with a new state and a response, each stated
//! exactly in its contract.
pub mod order;
pub mod store;
pub mod keys;
pub mod state;
pub mod error;
pub mod response;
pub mod external;
pub mod market;
pub mod msg;
pub mod rules;
pub mod contract;
pub mod query;
pub mod version;
pub mod laws;
