//! Ledger-side decisions: configuring the `CIDsOwners` contract client
//! and classifying the outcome of each contract call.
//!
//! Signing, submitting and awaiting a transaction are I/O that the
//! caller performs against the configured endpoint; this module decides
//! how the client is configured and what each outcome means.

use crate::endpoint::{Endpoint, is_endpoint_text, parses_as};
use crate::error::{Cause, Error, ExternalSystem, is_external, is_invalid_arguments};
use vstd::prelude::*;

verus! {

/// The confirmation record of an included ledger transaction.  A
/// successful registration always yields one, and its hash is never
/// empty.
#[derive(Debug)]
pub struct TransactionReceipt {
    pub transaction_hash: String,
}

impl TransactionReceipt {
    /// The receipt's own invariant: it names its transaction.
    pub open spec fn wf(&self) -> bool {
        self.transaction_hash@.len() > 0
    }
}

/// Client of the `CIDsOwners` contract: a fixed contract address, a
/// fixed RPC endpoint and a fixed chain id.  The client holds no other
/// state; every operation may run concurrently with any other.
#[derive(Debug)]
pub struct CIDsOwners {
    pub contract_address: String,
    pub endpoint: Endpoint,
    pub chain_id: u64,
}

/// The chain id a client is configured with: the given one, or 1 (the
/// public main ledger) when none is given.
pub open spec fn spec_chain_id(chain_id: Option<u64>) -> u64 {
    match chain_id {
        Some(id) => id,
        None => 1,
    }
}

/// What came back from submitting a registration transaction and
/// awaiting its inclusion: the caller performs the I/O and reports one
/// of these.  The two phases — submitting and awaiting — are classified
/// identically, so one outcome covers both.
#[derive(Debug)]
pub enum RegisterOutcome {
    /// The ledger confirmed the transaction under this hash.
    Confirmed { transaction_hash: String },
    /// Signing, submission or confirmation failed.
    Failed { cause: Cause },
}

/// What came back from querying the CIDs an address owns.
#[derive(Debug)]
pub enum QueryOutcome {
    /// The contract answered with these CIDs, in ledger storage order.
    Retrieved { cids: Vec<String> },
    /// The node was unreachable or the reply malformed.
    Failed { cause: Cause },
}

impl CIDsOwners {
    /// The client's own invariant: its endpoint is well formed.
    pub open spec fn wf(&self) -> bool {
        self.endpoint.wf()
    }

    /// Configures a client of the contract at `contract_address` behind
    /// the RPC endpoint written in `endpoint`; a missing `chain_id`
    /// defaults to 1 (the public main ledger).  The endpoint text is
    /// validated here; reachability is not, so connectivity problems
    /// surface only when an operation is invoked.
    pub fn new(contract_address: String, endpoint: &str, chain_id: Option<u64>) -> (r: Result<
        CIDsOwners,
        Error,
    >)
        ensures
            match r {
                Ok(c) => {
                    &&& c.wf()
                    &&& exists|digits: Seq<char>|
                        parses_as(endpoint@, c.endpoint.scheme, c.endpoint.host@, digits,
                        c.endpoint.port)
                    &&& c.contract_address == contract_address
                    &&& c.chain_id == spec_chain_id(chain_id)
                },
                Err(e) => {
                    &&& !is_endpoint_text(endpoint@)
                    &&& is_invalid_arguments(e, "endpoint"@, "malformed HTTP address"@)
                },
            },
    {
        let chain = match chain_id {
            Some(id) => id,
            None => 1,
        };
        match Endpoint::parse(endpoint) {
            Ok(ep) => Ok(CIDsOwners { contract_address, endpoint: ep, chain_id: chain }),
            Err(_) => Err(Error::invalid_arguments("endpoint", "malformed HTTP address")),
        }
    }

    /// Turns the outcome of a `register(cid)` call into its receipt or
    /// the error owed for it.  A confirmed registration always carries a
    /// transaction hash; the caller must treat its absence as a fatal
    /// internal bug, not as an error to hand in here.
    pub fn conclude_register(&self, outcome: RegisterOutcome) -> (r: Result<
        TransactionReceipt,
        Error,
    >)
        requires
            outcome matches RegisterOutcome::Confirmed { transaction_hash }
                ==> transaction_hash@.len() > 0,
        ensures
            match outcome {
                RegisterOutcome::Confirmed { transaction_hash } => {
                    &&& r matches Ok(t)
                    &&& t.transaction_hash == transaction_hash
                    &&& t.wf()
                },
                RegisterOutcome::Failed { cause } => r matches Err(e) && is_external(
                    e,
                    ExternalSystem::Ethereum,
                    cause,
                ),
            },
    {
        match outcome {
            RegisterOutcome::Confirmed { transaction_hash } => Ok(
                TransactionReceipt { transaction_hash },
            ),
            RegisterOutcome::Failed { cause } => Err(
                Error::external(cause, ExternalSystem::Ethereum),
            ),
        }
    }

    /// Turns the outcome of a `getOwnedCIDs(address)` query into the
    /// owned CIDs or the error owed for it.  The CIDs come back exactly
    /// as the contract returned them: ledger storage order is kept and
    /// duplicates are preserved.
    pub fn conclude_owned_cids(&self, outcome: QueryOutcome) -> (r: Result<Vec<String>, Error>)
        ensures
            match outcome {
                QueryOutcome::Retrieved { cids } => r matches Ok(v) && v == cids,
                QueryOutcome::Failed { cause } => r matches Err(e) && is_external(
                    e,
                    ExternalSystem::Ethereum,
                    cause,
                ),
            },
    {
        match outcome {
            QueryOutcome::Retrieved { cids } => Ok(cids),
            QueryOutcome::Failed { cause } => Err(Error::external(cause, ExternalSystem::Ethereum)),
        }
    }
}

} // verus!
