use keyring::mock::default_credential_builder;
use keyring::set_default_credential_builder;
use keyring::Entry;
use keyring::Registry;

#[test]
fn fallback_is_built_lazily_and_once() {
    let mut registry = Registry::new();
    assert!(!registry.default_built());
    let first = registry.resolve();
    assert!(registry.default_built());
    let second = registry.resolve();
    assert_eq!(first, second);
    assert!(registry.default_built());
}

#[test]
fn entries_resolve_through_the_fallback() {
    let mut registry = Registry::new();
    assert!(!registry.default_built());
    let mut entry = Entry::new(&mut registry, "svc", "alice").expect("entry creation failed");
    assert!(registry.default_built());
    entry.set_password("pw").expect("set should succeed");
    assert_eq!(entry.get_password().expect("get should succeed"), "pw");
}

#[test]
fn override_wins_over_fallback() {
    let mut registry = Registry::new();
    set_default_credential_builder(&mut registry, default_credential_builder());
    assert!(registry.has_override());
    let entry = Entry::new(&mut registry, "svc", "alice");
    assert!(entry.is_ok());
    assert!(
        !registry.default_built(),
        "an installed override must keep the platform fallback from being built"
    );
    let resolved = registry.resolve();
    assert_eq!(resolved, default_credential_builder());
}

#[test]
fn override_replaces_prior_override() {
    let mut registry = Registry::new();
    set_default_credential_builder(&mut registry, default_credential_builder());
    set_default_credential_builder(&mut registry, default_credential_builder());
    assert!(registry.has_override());
    assert!(!registry.default_built());
}

#[test]
fn overridden_builder_builds_working_entries() {
    let mut registry = Registry::new();
    set_default_credential_builder(&mut registry, default_credential_builder());
    let mut entry =
        Entry::new_with_target(&mut registry, "tgt", "svc", "bob").expect("entry creation failed");
    entry.set_secret(&[9, 8, 7]).expect("set should succeed");
    assert_eq!(entry.get_secret().expect("get should succeed"), vec![9, 8, 7]);
}
