use ipfs_cids_owners::endpoint::{Endpoint, Scheme};

#[test]
fn parses_scheme_host_and_port() {
    let e = Endpoint::parse("http://localhost:8545").expect("a well-formed endpoint");
    assert_eq!(e.scheme, Scheme::Http);
    assert_eq!(e.host, "localhost");
    assert_eq!(e.port, 8545);
}

#[test]
fn parses_https() {
    let e = Endpoint::parse("https://node.example.org:443").expect("a well-formed endpoint");
    assert_eq!(e.scheme, Scheme::Https);
    assert_eq!(e.host, "node.example.org");
    assert_eq!(e.port, 443);
}

#[test]
fn rejects_missing_scheme() {
    let m = Endpoint::parse("localhost:8545").expect_err("no scheme must fail");
    assert_eq!(m, "Invalid endpoint, only HTTP and HTTPS schemes are accepted");
}

#[test]
fn rejects_other_schemes() {
    let m = Endpoint::parse("ftp://localhost:21").expect_err("only HTTP(S) is accepted");
    assert_eq!(m, "Invalid endpoint, only HTTP and HTTPS schemes are accepted");
}

#[test]
fn rejects_missing_port() {
    let m = Endpoint::parse("http://localhost").expect_err("no port must fail");
    assert_eq!(
        m,
        "Invalid endpoint, no port provided or isn't a valid unsigned 16 bits number"
    );
}

#[test]
fn rejects_empty_port() {
    let m = Endpoint::parse("http://localhost:").expect_err("an empty port must fail");
    assert_eq!(
        m,
        "Invalid endpoint, no port provided or isn't a valid unsigned 16 bits number"
    );
}

#[test]
fn rejects_non_numeric_port() {
    assert!(Endpoint::parse("http://localhost:port").is_err());
}

#[test]
fn rejects_port_out_of_range() {
    assert!(Endpoint::parse("http://localhost:65536").is_err());
    let e = Endpoint::parse("http://localhost:65535").expect("the largest port is accepted");
    assert_eq!(e.port, 65535);
}

#[test]
fn accepts_port_with_leading_zeros() {
    let e = Endpoint::parse("http://localhost:08545").expect("leading zeros read as decimal");
    assert_eq!(e.port, 8545);
}

#[test]
fn rejects_empty_host() {
    let m = Endpoint::parse("http://:8545").expect_err("an empty host must fail");
    assert_eq!(m, "Invalid endpoint, no host provided");
}

#[test]
fn rejects_host_with_a_path() {
    let m = Endpoint::parse("http://node/rpc:8545").expect_err("a path inside the host must fail");
    assert_eq!(m, "Invalid endpoint, no host provided");
}

#[test]
fn rejects_empty_text() {
    assert!(Endpoint::parse("").is_err());
}

#[test]
fn displays_as_scheme_host_port() {
    let e = Endpoint { scheme: Scheme::Http, host: String::from("localhost"), port: 8545 };
    assert_eq!(e.display(), "http://localhost:8545");
    let e = Endpoint { scheme: Scheme::Https, host: String::from("node.example.org"), port: 443 };
    assert_eq!(e.display(), "https://node.example.org:443");
}

#[test]
fn display_then_parse_round_trips() {
    let e = Endpoint { scheme: Scheme::Https, host: String::from("ledger.example"), port: 61000 };
    let back = Endpoint::parse(e.display().as_str()).expect("a displayed endpoint parses");
    assert_eq!(back.scheme, e.scheme);
    assert_eq!(back.host, e.host);
    assert_eq!(back.port, e.port);
}
