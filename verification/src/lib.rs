//! Core of a pipeline that uploads a local file to a content-addressable
//! storage network (IPFS) and records an ownership claim for the returned
//! content identifier (CID) on an Ethereum ledger through the `CIDsOwners`
//! smart contract.
//!
//! This crate holds the decision logic of the pipeline: the shared error
//! taxonomy, the endpoint grammar, the argument validation, and the
//! orchestration that sequences the storage upload and the ledger
//! registration.  All network and file I/O happens outside this crate;
//! callers perform each requested action and feed its outcome back in.

pub mod cmd;
pub mod endpoint;
pub mod error;
pub mod ethereum;
pub mod ipfs;
