//! Core of a validator node's runtime: a weighted round-robin event scheduler, the peer-to-peer
//! handshake rules, the lifecycle of the three-stage reactor and the event routing of the
//! validator reactor.

pub mod round_robin;
pub mod types;
pub mod chain_info;
pub mod connection;
pub mod initializer;
pub mod three_stage;
pub mod validator;
pub mod field_stripper;
pub mod consensus_config;
pub mod execute_request;
pub mod framing;
