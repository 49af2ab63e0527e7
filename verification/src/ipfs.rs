//! Storage-side decisions: validating the upload request and classifying
//! the outcome of an upload.
//!
//! The upload itself — opening the file and streaming its bytes to the
//! storage network — is I/O that the caller performs; this module decides
//! what may be attempted and what each outcome means.  Validation happens
//! before any I/O: a bad remote path is rejected without a single
//! network or filesystem effect.

use crate::error::{Cause, Error, ExternalSystem, is_external, is_internal, is_invalid_arguments};
use vstd::prelude::*;
use vstd::string::StrSliceExecFns;

verus! {

/// A remote path is valid when it begins with `/`.
pub open spec fn valid_remote_path(p: Seq<char>) -> bool {
    p.len() > 0 && p[0] == '/'
}

/// An optional remote path is admissible when it is absent or valid.
pub open spec fn remote_path_admissible(o: Option<String>) -> bool {
    match o {
        Some(p) => valid_remote_path(p@),
        None => true,
    }
}

/// Validates a remote path handed in on the command line: accepted
/// exactly when it begins with `/`.
pub fn validate_remote_path(p: &str) -> (r: Result<String, String>)
    ensures
        valid_remote_path(p@) ==> (r matches Ok(s) && s@ == p@),
        !valid_remote_path(p@) ==> (r matches Err(m) && m@
            == "invalid remote path, it MUST start with '/'"@),
{
    if p.unicode_len() > 0 && p.get_char(0) == '/' {
        Ok(p.to_owned())
    } else {
        Err("invalid remote path, it MUST start with '/'".to_owned())
    }
}

/// How opening the local file failed.
#[derive(Debug, PartialEq, Eq, Structural, Clone, Copy)]
pub enum FileFault {
    /// No file exists at the path.
    NotFound,
    /// The file exists but cannot be read.
    PermissionDenied,
    /// Any other local I/O failure.
    Other,
}

/// What came back from attempting an upload: the caller performs the
/// I/O and reports one of these.
#[derive(Debug)]
pub enum UploadOutcome {
    /// The storage network accepted the content and returned its CID.
    Uploaded { cid: String },
    /// The local file could not be opened.
    OpenFailed { fault: FileFault, cause: Cause },
    /// The storage network was unreachable or rejected the request.
    StorageFailed { cause: Cause },
}

/// The message reported when the storage network answers with an empty
/// CID, which a content-addressing service never does for accepted
/// content.
pub open spec fn empty_cid_message() -> Seq<char> {
    "storage service returned an empty CID"@
}

/// An upload outcome succeeds exactly when it carries a non-empty CID.
pub open spec fn upload_succeeds(outcome: UploadOutcome) -> bool {
    outcome matches UploadOutcome::Uploaded { cid } && cid@.len() > 0
}

/// The error owed for each upload outcome that does not succeed: a
/// missing file and an unreadable file are invalid arguments naming
/// `filepath` (with distinct messages), any other local failure is
/// internal, and a storage-side failure — including a malformed, empty
/// CID — is external to the storage system, keeping its cause.
pub open spec fn upload_failure(outcome: UploadOutcome, e: Error) -> bool {
    match outcome {
        UploadOutcome::Uploaded { cid } => {
            &&& cid@.len() == 0
            &&& e matches Error::External(x)
            &&& x.system is IPFS
            &&& x.inner.msg@ == empty_cid_message()
            &&& x.inner.source is None
        },
        UploadOutcome::OpenFailed { fault, cause } => match fault {
            FileFault::NotFound => is_invalid_arguments(e, "filepath"@, "file not found"@),
            FileFault::PermissionDenied => is_invalid_arguments(
                e,
                "filepath"@,
                "not read permissions to the file"@,
            ),
            FileFault::Other => is_internal(e, "system error when reading the file"@, cause),
        },
        UploadOutcome::StorageFailed { cause } => is_external(e, ExternalSystem::IPFS, cause),
    }
}

/// Decides whether an upload may be attempted at all: a present remote
/// path must begin with `/`, and a violation is reported before any I/O.
pub fn check_remote_path(remote_path: &Option<String>) -> (r: Result<(), Error>)
    ensures
        remote_path_admissible(*remote_path) ==> r is Ok,
        !remote_path_admissible(*remote_path) ==> (r matches Err(e) && is_invalid_arguments(
            e,
            "remote_path"@,
            "must begin with slash ('/')"@,
        )),
{
    match remote_path {
        Some(p) => {
            if p.as_str().unicode_len() > 0 && p.as_str().get_char(0) == '/' {
                Ok(())
            } else {
                Err(Error::invalid_arguments("remote_path", "must begin with slash ('/')"))
            }
        },
        None => Ok(()),
    }
}

/// Turns the outcome of an upload into the CID it produced or the error
/// owed for it.  The CID is handed back exactly as the storage network
/// returned it: it depends on the uploaded bytes alone, never on the
/// remote path.
pub fn conclude_upload(outcome: UploadOutcome) -> (r: Result<String, Error>)
    ensures
        upload_succeeds(outcome) ==> (r matches Ok(c) && (outcome
            matches UploadOutcome::Uploaded { cid } ==> c == cid)),
        !upload_succeeds(outcome) ==> (r matches Err(e) && upload_failure(outcome, e)),
{
    match outcome {
        UploadOutcome::Uploaded { cid } => {
            if cid.as_str().unicode_len() > 0 {
                Ok(cid)
            } else {
                Err(
                    Error::external(
                        Cause::new("storage service returned an empty CID"),
                        ExternalSystem::IPFS,
                    ),
                )
            }
        },
        UploadOutcome::OpenFailed { fault, cause } => match fault {
            FileFault::NotFound => Err(Error::invalid_arguments("filepath", "file not found")),
            FileFault::PermissionDenied => Err(
                Error::invalid_arguments("filepath", "not read permissions to the file"),
            ),
            FileFault::Other => Err(Error::internal("system error when reading the file", cause)),
        },
        UploadOutcome::StorageFailed { cause } => Err(
            Error::external(cause, ExternalSystem::IPFS),
        ),
    }
}

} // verus!
