//! Verified core of the remote signer: configuration, the wire messages
//! exchanged between the validator and the signing service, the mapping of
//! safety-rules errors onto those messages, the client's retry policy and the
//! service's signing statistics.

pub mod text;

pub mod proto;
pub mod error;
pub mod backend;
pub mod config;
pub mod server_config;
pub mod storage;
pub mod operation;
pub mod retry;
pub mod client;
pub mod service;
pub mod proto_json;
