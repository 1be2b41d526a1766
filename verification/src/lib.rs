//! A registry of unique assets and a queue of IPFS requests, with the state
//! transitions of both stated and proved.
pub mod bytes;
pub mod frame;
pub mod hashing;
pub mod table;
pub mod nft;
pub mod ipfs;
