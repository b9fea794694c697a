use keywright_core::Error;

#[test]
fn each_variant_renders_its_label() {
    assert_eq!(Error::Config("bad key".to_string()).to_string(), "config: bad key");
    assert_eq!(Error::Policy("not in store".to_string()).to_string(), "policy: not in store");
    assert_eq!(
        Error::Resolve { id: "email", reason: "missing".to_string() }.to_string(),
        "decision email: missing"
    );
    assert_eq!(Error::KeyIdentity("dup".to_string()).to_string(), "identity: dup");
    assert_eq!(Error::Parse("eof".to_string()).to_string(), "parse: eof");
    assert_eq!(Error::Runner("exit 2".to_string()).to_string(), "runner: exit 2");
    assert_eq!(
        Error::Compliance("fips: cv25519 forbidden".to_string()).to_string(),
        "compliance: fips: cv25519 forbidden"
    );
}

#[test]
fn io_error_renders_the_io_message() {
    let e = Error::Io(std::io::Error::new(std::io::ErrorKind::Other, "disk gone"));
    assert_eq!(e.to_string(), "io: disk gone");
}

#[test]
fn empty_reason_still_names_the_decision() {
    let e = Error::Resolve { id: "pin-min-length", reason: String::new() };
    assert_eq!(e.to_string(), "decision pin-min-length: ");
}
