use keyring::credential::Credential;
use keyring::mock::MockCredential;
use keyring::Entry;
use keyring::Error;
use keyring::Registry;

fn new_entry(service: &str, user: &str) -> Entry {
    let mut registry = Registry::new();
    Entry::new(&mut registry, service, user).expect("entry creation failed")
}

fn round_trip(case: &str, entry: &mut Entry, in_pass: &str) {
    entry
        .set_password(in_pass)
        .unwrap_or_else(|err| panic!("can't set password for {case}: {err:?}"));
    let out_pass = entry
        .get_password()
        .unwrap_or_else(|err| panic!("can't get password for {case}: {err:?}"));
    assert_eq!(in_pass, out_pass, "passwords don't match for {case}");
    entry
        .delete_credential()
        .unwrap_or_else(|err| panic!("can't delete password for {case}: {err:?}"));
    let password = entry.get_password();
    assert!(
        matches!(password, Err(Error::NoEntry)),
        "read deleted password for {case}"
    );
}

fn round_trip_secret(case: &str, entry: &mut Entry, in_secret: &[u8]) {
    entry
        .set_secret(in_secret)
        .unwrap_or_else(|err| panic!("can't set secret for {case}: {err:?}"));
    let out_secret = entry
        .get_secret()
        .unwrap_or_else(|err| panic!("can't get secret for {case}: {err:?}"));
    assert_eq!(in_secret, &out_secret[..], "secrets don't match for {case}");
    entry
        .delete_credential()
        .unwrap_or_else(|err| panic!("can't delete secret for {case}: {err:?}"));
    let secret = entry.get_secret();
    assert!(
        matches!(secret, Err(Error::NoEntry)),
        "read deleted secret for {case}"
    );
}

#[test]
fn round_trip_ascii_password() {
    let mut entry = new_entry("service", "user");
    round_trip("ascii password", &mut entry, "test ascii password");
}

#[test]
fn round_trip_non_ascii_password() {
    let mut entry = new_entry("service", "user");
    round_trip("non-ascii password", &mut entry, "このきれいな花は桜です");
}

#[test]
fn round_trip_empty_password() {
    let mut entry = new_entry("service", "user");
    round_trip("empty password", &mut entry, "");
}

#[test]
fn round_trip_empty_service_and_user() {
    let in_pass = "doesn't matter";
    round_trip("empty user", &mut new_entry("service", ""), in_pass);
    round_trip("empty service", &mut new_entry("", "user"), in_pass);
    round_trip("empty service & user", &mut new_entry("", ""), in_pass);
}

#[test]
fn round_trip_bytes() {
    let mut entry = new_entry("service", "user");
    round_trip_secret(
        "fixed bytes",
        &mut entry,
        &[1, 2, 3, 4, 5, 255, 254, 0, 127, 128, 42, 7, 9, 200, 201, 202],
    );
    round_trip_secret("empty bytes", &mut entry, &[]);
}

#[test]
fn round_trip_with_target() {
    let mut registry = Registry::new();
    let mut entry = Entry::new_with_target(&mut registry, "target", "service", "user")
        .expect("entry creation failed");
    round_trip("targeted entry", &mut entry, "targeted password");
}

#[test]
fn missing_entry_has_no_password() {
    let mut entry = new_entry("service", "user");
    assert!(matches!(entry.get_password(), Err(Error::NoEntry)));
    assert!(matches!(entry.get_secret(), Err(Error::NoEntry)));
}

#[test]
fn delete_of_missing_entry_fails() {
    let mut entry = new_entry("service", "user");
    assert!(matches!(entry.delete_credential(), Err(Error::NoEntry)));
}

#[test]
fn update_keeps_only_latest_value() {
    let mut entry = new_entry("service", "user");
    round_trip("initial ascii password", &mut entry, "test ascii password");
    round_trip(
        "updated non-ascii password",
        &mut entry,
        "このきれいな花は桜です",
    );
    entry.set_password("first").expect("set failed");
    entry.set_password("second").expect("set failed");
    assert_eq!(entry.get_password().expect("get failed"), "second");
    entry.set_secret(&[1, 2, 3]).expect("set failed");
    entry.set_secret(&[4, 5]).expect("set failed");
    assert_eq!(entry.get_secret().expect("get failed"), vec![4, 5]);
}

#[test]
fn example_scenario_password_lifecycle() {
    let mut registry = Registry::new();
    let mut entry = Entry::new(&mut registry, "svc", "alice").expect("entry creation failed");
    entry.set_password("hunter2").expect("set should succeed");
    assert_eq!(entry.get_password().expect("get should succeed"), "hunter2");
    entry.delete_credential().expect("delete should succeed");
    assert!(matches!(entry.get_password(), Err(Error::NoEntry)));
}

#[test]
fn example_scenario_non_utf8_secret() {
    let mut entry = new_entry("svc", "alice");
    entry.set_secret(&[0xFF, 0xFE]).expect("set should succeed");
    match entry.get_password() {
        Err(Error::BadEncoding(bytes)) => assert_eq!(bytes, vec![0xFF, 0xFE]),
        other => panic!("expected BadEncoding, got {other:?}"),
    }
    assert_eq!(
        entry.get_secret().expect("raw read should succeed"),
        vec![0xFF, 0xFE]
    );
}

#[test]
fn password_stored_as_utf8_bytes() {
    let mut entry = new_entry("svc", "alice");
    entry.set_password("aé").expect("set should succeed");
    assert_eq!(
        entry.get_secret().expect("raw read should succeed"),
        vec![0x61, 0xC3, 0xA9]
    );
}

#[test]
fn utf8_secret_readable_as_password() {
    let mut entry = new_entry("svc", "alice");
    entry
        .set_secret("pässword".as_bytes())
        .expect("set should succeed");
    assert_eq!(entry.get_password().expect("get should succeed"), "pässword");
}

#[test]
fn entry_with_supplied_credential() {
    let mut entry = Entry::new_with_credential(Credential::Mock(MockCredential::new()));
    assert!(matches!(entry.get_password(), Err(Error::NoEntry)));
    entry.set_password("direct").expect("set should succeed");
    assert_eq!(entry.get_password().expect("get should succeed"), "direct");
}

#[test]
fn planted_error_returned_once() {
    let mut credential = MockCredential::new();
    credential.set_error(Error::Ambiguous);
    let mut entry = Entry::new_with_credential(Credential::Mock(credential));
    assert!(matches!(entry.get_password(), Err(Error::Ambiguous)));
    assert!(matches!(entry.get_password(), Err(Error::NoEntry)));
}

#[test]
fn planted_error_blocks_one_write_only() {
    let mut credential = MockCredential::new();
    credential.set_error(Error::NoStorageAccess("service not reachable".to_string()));
    let mut entry = Entry::new_with_credential(Credential::Mock(credential));
    entry
        .set_password("lost")
        .expect_err("planted error should surface");
    assert!(matches!(entry.get_password(), Err(Error::NoEntry)));
    entry.set_password("kept").expect("set should succeed");
    assert_eq!(entry.get_password().expect("get should succeed"), "kept");
}

#[test]
fn each_error_variant_can_surface() {
    let variants = [
        Error::Ambiguous,
        Error::Invalid("user name may not be empty".to_string()),
        Error::NoStorageAccess("service not running".to_string()),
        Error::PlatformFailure("unclassified backend failure".to_string()),
    ];
    for variant in variants {
        let mut credential = MockCredential::new();
        credential.set_error(variant.clone());
        let mut entry = Entry::new_with_credential(Credential::Mock(credential));
        let got = entry.set_secret(&[1]).expect_err("planted error should surface");
        assert_eq!(got, variant);
    }
}

#[test]
fn capability_query_reaches_concrete_store() {
    let entry = new_entry("svc", "alice");
    let credential = entry.get_credential();
    assert!(credential.as_mock().is_some());
}
