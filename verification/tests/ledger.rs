use ipfs_cids_owners::endpoint::Scheme;
use ipfs_cids_owners::error::{Cause, Error, ExternalSystem};
use ipfs_cids_owners::ethereum::{CIDsOwners, QueryOutcome, RegisterOutcome};
use ipfs_cids_owners::ipfs::validate_remote_path;

const CONTRACT: &str = "0x5FbDB2315678afecb367f032d93F642f64180aa3";

#[test]
fn new_parses_the_endpoint_and_defaults_the_chain() {
    let c = CIDsOwners::new(String::from(CONTRACT), "http://localhost:8545", None)
        .expect("a well-formed endpoint");
    assert_eq!(c.contract_address, CONTRACT);
    assert_eq!(c.endpoint.scheme, Scheme::Http);
    assert_eq!(c.endpoint.host, "localhost");
    assert_eq!(c.endpoint.port, 8545);
    assert_eq!(c.chain_id, 1);
}

#[test]
fn new_keeps_a_given_chain_id() {
    let c = CIDsOwners::new(String::from(CONTRACT), "http://localhost:8545", Some(1337))
        .expect("a well-formed endpoint");
    assert_eq!(c.chain_id, 1337);
}

#[test]
fn new_rejects_a_malformed_endpoint() {
    let err = CIDsOwners::new(String::from(CONTRACT), "localhost:8545", None)
        .expect_err("an endpoint without a scheme");
    match err {
        Error::InvalidArguments(a) => {
            assert_eq!(a.names, "endpoint");
            assert_eq!(a.msg, "malformed HTTP address");
        },
        _ => panic!("expected an invalid-arguments error"),
    }
}

fn client() -> CIDsOwners {
    CIDsOwners::new(String::from(CONTRACT), "http://localhost:8545", Some(1337))
        .expect("a well-formed endpoint")
}

#[test]
fn a_confirmed_registration_yields_its_receipt() {
    let c = client();
    let receipt = c
        .conclude_register(RegisterOutcome::Confirmed {
            transaction_hash: String::from("0x3b1d6a10b2f947"),
        })
        .expect("a confirmed registration always yields a receipt");
    assert_eq!(receipt.transaction_hash, "0x3b1d6a10b2f947");
    assert!(!receipt.transaction_hash.is_empty());
}

#[test]
fn a_failed_registration_is_external_to_the_ledger() {
    let c = client();
    let err = c
        .conclude_register(RegisterOutcome::Failed { cause: Cause::new("connection refused") })
        .expect_err("a failed registration");
    match &err {
        Error::External(x) => assert_eq!(x.system, ExternalSystem::Ethereum),
        _ => panic!("expected an external ledger error"),
    }
    assert_eq!(err.cause().unwrap().msg, "connection refused");
}

#[test]
fn owned_cids_keep_order_and_duplicates() {
    let c = client();
    let cids = c
        .conclude_owned_cids(QueryOutcome::Retrieved {
            cids: vec![
                String::from("QmA"),
                String::from("QmB"),
                String::from("QmA"),
            ],
        })
        .expect("a retrieved query");
    assert_eq!(cids, vec!["QmA", "QmB", "QmA"]);
}

#[test]
fn a_registered_cid_shows_up_among_the_owned_ones() {
    let c = client();
    let cid = "QmWATWQ7fVPP2EFGu71UkfnqhYXDYH566qy47CnJDgvs8u";
    let receipt = c
        .conclude_register(RegisterOutcome::Confirmed {
            transaction_hash: String::from("0x3b1d6a10b2f947"),
        })
        .expect("a confirmed registration");
    assert!(!receipt.transaction_hash.is_empty());
    let owned = c
        .conclude_owned_cids(QueryOutcome::Retrieved { cids: vec![String::from(cid)] })
        .expect("a retrieved query");
    assert!(owned.iter().any(|owned_cid| owned_cid == cid), "has the registered CID");
}

#[test]
fn a_failed_query_is_external_to_the_ledger() {
    let c = client();
    let err = c
        .conclude_owned_cids(QueryOutcome::Failed { cause: Cause::new("connection refused") })
        .expect_err("a failed query");
    assert!(matches!(&err, Error::External(x) if x.system == ExternalSystem::Ethereum));
}

#[test]
fn remote_paths_validate_against_the_leading_slash() {
    assert_eq!(validate_remote_path("/hello-ipfs.txt").unwrap(), "/hello-ipfs.txt");
    assert_eq!(
        validate_remote_path("hello-ipfs.txt").unwrap_err(),
        "invalid remote path, it MUST start with '/'"
    );
    assert!(validate_remote_path("").is_err());
    assert_eq!(validate_remote_path("/").unwrap(), "/");
}
