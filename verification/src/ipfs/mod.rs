//! Queues of requests for a local IPFS node: signed calls fill them, and the
//! off-chain worker turns them into requests and acts on the responses.
pub mod commands;
pub mod pallet;
pub mod worker;
pub mod data_run;
pub mod laws;
