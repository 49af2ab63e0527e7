use ipfs_cids_owners::cmd::{
    Action, Phase, Pipeline, SetupEvent, UploadRegisterSummary, UploadRequest, conclude_setup,
};
use ipfs_cids_owners::error::{Cause, Error, ExternalSystem};
use ipfs_cids_owners::ethereum::RegisterOutcome;
use ipfs_cids_owners::ipfs::{FileFault, UploadOutcome};

fn request(remote_path: Option<&str>) -> UploadRequest {
    UploadRequest {
        filepath: String::from("hello.txt"),
        remote_path: remote_path.map(String::from),
    }
}

#[test]
fn bad_remote_path_aborts_before_any_upload() {
    let (p, action) = Pipeline::start(request(Some("no-slash")));
    assert!(matches!(p.phase, Phase::Failed));
    match action {
        Action::Abort { error } => match error {
            Error::InvalidArguments(a) => {
                assert_eq!(a.names, "remote_path");
                assert_eq!(a.msg, "must begin with slash ('/')");
            },
            _ => panic!("expected an invalid-arguments error"),
        },
        Action::Upload { .. } => panic!("no upload may be requested for a bad remote path"),
        _ => panic!("expected the run to abort"),
    }
}

#[test]
fn missing_remote_path_is_accepted() {
    let (p, action) = Pipeline::start(request(None));
    assert!(matches!(p.phase, Phase::Uploading));
    match action {
        Action::Upload { filepath, remote_path } => {
            assert_eq!(filepath, "hello.txt");
            assert!(remote_path.is_none());
        },
        _ => panic!("expected an upload to be requested"),
    }
}

#[test]
fn valid_remote_path_is_passed_through() {
    let (_, action) = Pipeline::start(request(Some("/hello-ipfs.txt")));
    match action {
        Action::Upload { remote_path, .. } => {
            assert_eq!(remote_path.as_deref(), Some("/hello-ipfs.txt"));
        },
        _ => panic!("expected an upload to be requested"),
    }
}

#[test]
fn missing_file_is_an_invalid_filepath() {
    let (mut p, _) = Pipeline::start(request(None));
    let action = p.upload_finished(UploadOutcome::OpenFailed {
        fault: FileFault::NotFound,
        cause: Cause::new("No such file or directory"),
    });
    match action {
        Action::Abort { error: Error::InvalidArguments(a) } => {
            assert_eq!(a.names, "filepath");
            assert_eq!(a.msg, "file not found");
        },
        _ => panic!("expected an invalid-arguments error naming filepath"),
    }
}

#[test]
fn unreadable_file_gets_a_distinct_message() {
    let (mut p, _) = Pipeline::start(request(None));
    let action = p.upload_finished(UploadOutcome::OpenFailed {
        fault: FileFault::PermissionDenied,
        cause: Cause::new("Permission denied"),
    });
    match action {
        Action::Abort { error: Error::InvalidArguments(a) } => {
            assert_eq!(a.names, "filepath");
            assert_eq!(a.msg, "not read permissions to the file");
        },
        _ => panic!("expected an invalid-arguments error naming filepath"),
    }
}

#[test]
fn other_open_failures_are_internal() {
    let (mut p, _) = Pipeline::start(request(None));
    let action = p.upload_finished(UploadOutcome::OpenFailed {
        fault: FileFault::Other,
        cause: Cause::new("Interrupted system call"),
    });
    match action {
        Action::Abort { error } => {
            assert_eq!(error.message(), "system error when reading the file");
            assert_eq!(error.cause().expect("the OS error is kept").msg, "Interrupted system call");
        },
        _ => panic!("expected the run to abort"),
    }
}

#[test]
fn unreachable_storage_is_external_to_it() {
    let (mut p, _) = Pipeline::start(request(None));
    let action = p.upload_finished(UploadOutcome::StorageFailed {
        cause: Cause::new("connection refused"),
    });
    match action {
        Action::Abort { error: Error::External(x) } => {
            assert_eq!(x.system, ExternalSystem::IPFS);
        },
        _ => panic!("expected an external storage error"),
    }
    assert!(matches!(p.phase, Phase::Failed));
}

#[test]
fn an_empty_cid_is_a_malformed_storage_reply() {
    let (mut p, _) = Pipeline::start(request(None));
    let action = p.upload_finished(UploadOutcome::Uploaded { cid: String::new() });
    match action {
        Action::Abort { error } => {
            match &error {
                Error::External(x) => assert_eq!(x.system, ExternalSystem::IPFS),
                _ => panic!("expected an external storage error"),
            }
            assert_eq!(error.cause().unwrap().msg, "storage service returned an empty CID");
        },
        _ => panic!("expected the run to abort"),
    }
}

#[test]
fn unreachable_ledger_is_external_to_it() {
    let (mut p, _) = Pipeline::start(request(None));
    let action = p.upload_finished(UploadOutcome::Uploaded {
        cid: String::from("QmWATWQ7fVPP2EFGu71UkfnqhYXDYH566qy47CnJDgvs8u"),
    });
    assert!(matches!(action, Action::Register { .. }));
    let action = p.register_finished(RegisterOutcome::Failed {
        cause: Cause::new("connection refused"),
    });
    match action {
        Action::Abort { error: Error::External(x) } => {
            assert_eq!(x.system, ExternalSystem::Ethereum);
        },
        _ => panic!("expected an external ledger error"),
    }
}

fn run_to_summary(remote_path: Option<&str>, cid: &str, tx_hash: &str) -> UploadRegisterSummary {
    let (mut p, action) = Pipeline::start(request(remote_path));
    assert!(matches!(action, Action::Upload { .. }));
    let action = p.upload_finished(UploadOutcome::Uploaded { cid: String::from(cid) });
    match &action {
        Action::Register { cid: registered } => assert_eq!(registered, cid),
        _ => panic!("a successful upload must move to registration"),
    }
    let action = p.register_finished(RegisterOutcome::Confirmed {
        transaction_hash: String::from(tx_hash),
    });
    assert!(matches!(p.phase, Phase::Finished));
    match action {
        Action::Finish { summary } => summary,
        _ => panic!("a confirmed registration must finish the run"),
    }
}

#[test]
fn a_full_run_pairs_the_cid_with_the_transaction_hash() {
    let summary = run_to_summary(
        None,
        "QmWATWQ7fVPP2EFGu71UkfnqhYXDYH566qy47CnJDgvs8u",
        "0x3b1d6a10b2f9470153a5173aff388d1bdbd297f7e65a7eba5a85b6c2b23f1a90",
    );
    assert!(!summary.cid.is_empty());
    assert!(!summary.ether_tx_hash.is_empty());
    assert_eq!(summary.cid, "QmWATWQ7fVPP2EFGu71UkfnqhYXDYH566qy47CnJDgvs8u");
    assert_eq!(
        summary.ether_tx_hash,
        "0x3b1d6a10b2f9470153a5173aff388d1bdbd297f7e65a7eba5a85b6c2b23f1a90"
    );
    assert_eq!(
        summary.display(),
        "CID: 'QmWATWQ7fVPP2EFGu71UkfnqhYXDYH566qy47CnJDgvs8u', Ethereum transaction hash: \
         '0x3b1d6a10b2f9470153a5173aff388d1bdbd297f7e65a7eba5a85b6c2b23f1a90'"
    );
}

#[test]
fn rerunning_the_same_content_keeps_the_cid_and_changes_the_hash() {
    // Content addressing: byte-identical content gets one CID from the
    // storage network, whatever the remote path; each registration is a
    // fresh transaction with its own hash.
    let cid = "QmWATWQ7fVPP2EFGu71UkfnqhYXDYH566qy47CnJDgvs8u";
    let first = run_to_summary(None, cid, "0xaa11");
    let second = run_to_summary(Some("/hello-ipfs.txt"), cid, "0xbb22");
    assert_eq!(first.cid, second.cid);
    assert_ne!(first.ether_tx_hash, second.ether_tx_hash);
}

#[test]
fn setup_ready_lets_the_run_proceed() {
    assert!(conclude_setup(SetupEvent::Ready).is_ok());
}

#[test]
fn setup_rejected_storage_endpoint_names_the_flag() {
    let err = conclude_setup(SetupEvent::IpfsEndpointRejected).expect_err("a rejected endpoint");
    match err {
        Error::InvalidArguments(a) => {
            assert_eq!(a.names, "ipfs-endpoint");
            assert_eq!(a.msg, "endpoint doesn't correspond to an IPFS service");
        },
        _ => panic!("expected an invalid-arguments error"),
    }
}

#[test]
fn setup_unparsable_credentials_are_bugs() {
    let err = conclude_setup(SetupEvent::ContractAddressRejected {
        cause: Cause::new("invalid hex"),
    })
    .expect_err("an unparsable address");
    assert_eq!(
        err.message(),
        "BUG cli module should validate that the passed Ethereum address is of a valid format"
    );
    let err = conclude_setup(SetupEvent::OwnerKeyRejected { cause: Cause::new("invalid hex") })
        .expect_err("an unparsable key");
    assert_eq!(
        err.message(),
        "BUG cli module should validate that the passed Ethereum private key is of a valid format"
    );
}
