//! The orchestrator: the single user-facing operation that uploads a
//! file and registers its CID, one step after the other.
//!
//! All external work — constructing transport clients, opening the file,
//! streaming it to the storage network, signing and awaiting the ledger
//! transaction — is I/O that the surrounding program performs.  The
//! [`Pipeline`] here decides every step: it validates the request before
//! any I/O, classifies each outcome, and guarantees that a registration
//! is only ever requested for the CID that the just-completed, successful
//! upload returned.

use crate::error::{Cause, Error, ExternalSystem, is_external, is_internal, is_invalid_arguments};
use crate::ethereum::RegisterOutcome;
use crate::ipfs::{
    UploadOutcome, check_remote_path, conclude_upload, remote_path_admissible, upload_failure,
    upload_succeeds,
};
use vstd::pervasive::unreached;
use vstd::prelude::*;
use vstd::string::StringExecFns;

verus! {

/// A validated upload-and-register request: the local file to upload
/// and the optional remote path to pin it under.  When present, the
/// remote path must start with `/`.
#[derive(Debug)]
pub struct UploadRequest {
    pub filepath: String,
    pub remote_path: Option<String>,
}

/// The terminal artifact of the pipeline: the CID the storage network
/// assigned and the hash of the ledger transaction that registered it.
#[derive(Debug)]
pub struct UploadRegisterSummary {
    pub cid: String,
    pub ether_tx_hash: String,
}

impl UploadRegisterSummary {
    /// The summary's own invariant: both identifiers are non-empty.
    pub open spec fn wf(&self) -> bool {
        self.cid@.len() > 0 && self.ether_tx_hash@.len() > 0
    }

    /// The line the command-line front end prints for a successful run.
    pub fn display(&self) -> (r: String)
        ensures
            r@ == "CID: '"@ + self.cid@ + "', Ethereum transaction hash: '"@
                + self.ether_tx_hash@ + "'"@,
    {
        let mut r = String::from_str("CID: '");
        r.append(self.cid.as_str());
        r.append("', Ethereum transaction hash: '");
        r.append(self.ether_tx_hash.as_str());
        r.append("'");
        r
    }
}

/// What the surrounding program reports about preparing the two clients
/// before the pipeline runs: the storage client construction and the
/// parsing of the two credential values it received already validated.
#[derive(Debug)]
pub enum SetupEvent {
    /// Both clients are ready.
    Ready,
    /// The storage endpoint was not accepted by the storage client.
    IpfsEndpointRejected,
    /// The contract address did not parse; the front door validated it,
    /// so this is a bug, not a user error.
    ContractAddressRejected { cause: Cause },
    /// The signer's private key did not parse; the front door validated
    /// it, so this is a bug, not a user error.
    OwnerKeyRejected { cause: Cause },
}

/// The error owed for each failing setup event.
pub open spec fn setup_failure(ev: SetupEvent, e: Error) -> bool {
    match ev {
        SetupEvent::Ready => false,
        SetupEvent::IpfsEndpointRejected => is_invalid_arguments(
            e,
            "ipfs-endpoint"@,
            "endpoint doesn't correspond to an IPFS service"@,
        ),
        SetupEvent::ContractAddressRejected { cause } => is_internal(
            e,
            "BUG cli module should validate that the passed Ethereum address is of a valid format"@,
            cause,
        ),
        SetupEvent::OwnerKeyRejected { cause } => is_internal(
            e,
            "BUG cli module should validate that the passed Ethereum private key is of a valid format"@,
            cause,
        ),
    }
}

/// Decides whether the pipeline may run at all: succeeds exactly when
/// both clients came up, and otherwise reports the error owed for what
/// failed.
pub fn conclude_setup(ev: SetupEvent) -> (r: Result<(), Error>)
    ensures
        ev is Ready <==> r is Ok,
        !(ev is Ready) ==> (r matches Err(e) && setup_failure(ev, e)),
{
    match ev {
        SetupEvent::Ready => Ok(()),
        SetupEvent::IpfsEndpointRejected => Err(
            Error::invalid_arguments(
                "ipfs-endpoint",
                "endpoint doesn't correspond to an IPFS service",
            ),
        ),
        SetupEvent::ContractAddressRejected { cause } => Err(
            Error::internal(
                "BUG cli module should validate that the passed Ethereum address is of a valid format",
                cause,
            ),
        ),
        SetupEvent::OwnerKeyRejected { cause } => Err(
            Error::internal(
                "BUG cli module should validate that the passed Ethereum private key is of a valid format",
                cause,
            ),
        ),
    }
}

/// Where one run of the pipeline stands.
#[derive(Debug)]
pub enum Phase {
    /// The upload was requested; its outcome is awaited.
    Uploading,
    /// The upload returned this CID; its registration is awaited.
    Registering { cid: String },
    /// The summary was handed out.
    Finished,
    /// An error was handed out.
    Failed,
}

/// What the surrounding program must do next.
#[derive(Debug)]
pub enum Action {
    /// Open the file and stream its bytes to the storage network,
    /// pinning them under the remote path when one is given; then report
    /// the outcome through [`Pipeline::upload_finished`].
    Upload { filepath: String, remote_path: Option<String> },
    /// Sign and submit a registration of `cid` and await its inclusion;
    /// then report the outcome through [`Pipeline::register_finished`].
    Register { cid: String },
    /// Hand the summary to the caller.
    Finish { summary: UploadRegisterSummary },
    /// Hand the error to the caller.
    Abort { error: Error },
}

/// One run of upload-and-register.  The two external calls are strictly
/// sequential: the pipeline requests the registration only out of a
/// just-reported, successful upload outcome, and with exactly the CID
/// that outcome carried.  The pipeline is not transactional: when the
/// registration fails, the uploaded content stays in the storage network
/// with no on-ledger record.
#[derive(Debug)]
pub struct Pipeline {
    pub request: UploadRequest,
    pub phase: Phase,
}

/// Clones an optional string.
fn clone_opt_string(o: &Option<String>) -> (r: Option<String>)
    ensures
        r == *o,
{
    match o {
        Some(s) => Some(s.clone()),
        None => None,
    }
}

impl Pipeline {
    /// Opens a run for `request`.  A request whose remote path does not
    /// start with `/` is rejected here, before any network or filesystem
    /// effect: the run fails and the only action is to hand out the
    /// invalid-arguments error.  Every other request moves to the upload.
    pub fn start(request: UploadRequest) -> (r: (Pipeline, Action))
        ensures
            r.0.request == request,
            remote_path_admissible(request.remote_path) ==> {
                &&& r.0.phase is Uploading
                &&& r.1 matches Action::Upload { filepath, remote_path }
                &&& filepath == request.filepath
                &&& remote_path == request.remote_path
            },
            !remote_path_admissible(request.remote_path) ==> {
                &&& r.0.phase is Failed
                &&& r.1 matches Action::Abort { error } && is_invalid_arguments(
                    error,
                    "remote_path"@,
                    "must begin with slash ('/')"@,
                )
            },
    {
        match check_remote_path(&request.remote_path) {
            Ok(_) => {
                let filepath = request.filepath.clone();
                let remote_path = clone_opt_string(&request.remote_path);
                (
                    Pipeline { request, phase: Phase::Uploading },
                    Action::Upload { filepath, remote_path },
                )
            },
            Err(error) => (Pipeline { request, phase: Phase::Failed }, Action::Abort { error }),
        }
    }

    /// Takes the outcome of the upload.  A successful upload — one that
    /// returned a non-empty CID — moves the run to the registration of
    /// exactly that CID; everything else fails the run with the error
    /// owed for the outcome.
    pub fn upload_finished(&mut self, outcome: UploadOutcome) -> (a: Action)
        requires
            old(self).phase is Uploading,
        ensures
            final(self).request == old(self).request,
            upload_succeeds(outcome) ==> (outcome matches UploadOutcome::Uploaded { cid } ==> {
                &&& final(self).phase matches Phase::Registering { cid: c } && c == cid
                &&& a matches Action::Register { cid: c2 } && c2 == cid
            }),
            !upload_succeeds(outcome) ==> {
                &&& final(self).phase is Failed
                &&& a matches Action::Abort { error } && upload_failure(outcome, error)
            },
    {
        match conclude_upload(outcome) {
            Ok(cid) => {
                let c2 = cid.clone();
                self.phase = Phase::Registering { cid };
                Action::Register { cid: c2 }
            },
            Err(error) => {
                self.phase = Phase::Failed;
                Action::Abort { error }
            },
        }
    }

    /// Takes the outcome of the registration.  A confirmed registration
    /// finishes the run with a summary pairing the registered CID with
    /// the transaction hash; a failure is external to the ledger.  A
    /// confirmed registration always carries a non-empty hash: the
    /// caller must treat a receipt without one as a fatal internal bug,
    /// not report it here.
    pub fn register_finished(&mut self, outcome: RegisterOutcome) -> (a: Action)
        requires
            old(self).phase matches Phase::Registering { cid } && cid@.len() > 0,
            outcome matches RegisterOutcome::Confirmed { transaction_hash }
                ==> transaction_hash@.len() > 0,
        ensures
            final(self).request == old(self).request,
            match outcome {
                RegisterOutcome::Confirmed { transaction_hash } => {
                    &&& final(self).phase is Finished
                    &&& a matches Action::Finish { summary }
                    &&& (old(self).phase matches Phase::Registering { cid } ==> summary.cid
                        == cid)
                    &&& summary.ether_tx_hash == transaction_hash
                    &&& summary.wf()
                },
                RegisterOutcome::Failed { cause } => {
                    &&& final(self).phase is Failed
                    &&& a matches Action::Abort { error } && is_external(
                        error,
                        ExternalSystem::Ethereum,
                        cause,
                    )
                },
            },
    {
        match outcome {
            RegisterOutcome::Confirmed { transaction_hash } => {
                let cid = match &self.phase {
                    Phase::Registering { cid } => cid.clone(),
                    _ => unreached(),
                };
                self.phase = Phase::Finished;
                Action::Finish {
                    summary: UploadRegisterSummary { cid, ether_tx_hash: transaction_hash },
                }
            },
            RegisterOutcome::Failed { cause } => {
                self.phase = Phase::Failed;
                Action::Abort { error: Error::external(cause, ExternalSystem::Ethereum) }
            },
        }
    }
}

} // verus!
