//! Platform-independent storage and retrieval of secrets.
//!
//! An [`Entry`] names a logical secret by a `service`/`user` pair of UTF-8
//! strings, optionally disambiguated by a `target` string, and stores either
//! a password (UTF-8 text) or a raw byte secret in a credential store.  The
//! concrete store is chosen by a [`CredentialBuilder`]; a [`Registry`] holds
//! the process's default builder: an explicitly installed override, or a
//! lazily built platform fallback constructed at most once.  The crate ships
//! one store, the in-memory reference store of [`mock`], which also serves
//! as the platform fallback.

use vstd::prelude::*;

pub mod credential;
pub mod error;
pub mod mock;
pub mod registry;

pub use credential::Credential;
pub use credential::CredentialBuilder;
pub use error::Error;
pub use error::ErrorModel;
pub use registry::Registry;
pub use registry::RegistryView;

use crate::mock::mock_delete;
use crate::mock::mock_get_password;
use crate::mock::mock_get_secret;
use crate::mock::mock_set_password;
use crate::mock::mock_set_secret;
use crate::mock::password_result_model;
use crate::mock::secret_result_model;
use crate::mock::unit_result_model;
use crate::mock::MockState;
use crate::registry::after_resolve;
use crate::registry::after_set_default;

verus! {

/// Install `new` as the override builder of `registry`: every later entry
/// created through `registry` without an explicit credential uses it
/// instead of the platform fallback.
///
/// This is meant for callers who bring their own credential store and want
/// it used everywhere.  For precise control over which credential lives in
/// which store, use [`Entry::new_with_credential`] instead.
pub fn set_default_credential_builder(registry: &mut Registry, new: CredentialBuilder)
    ensures
        final(registry)@ == after_set_default(old(registry)@, new),
{
    registry.set_default(new);
}

/// Resolve the current default builder of `registry` and ask it to build a
/// credential for the identity, wrapping the result in an [`Entry`].
fn build_default_credential(
    registry: &mut Registry,
    target: Option<&str>,
    service: &str,
    user: &str,
) -> (r: Result<Entry, Error>)
    ensures
        final(registry)@ == after_resolve(old(registry)@),
        r matches Ok(e) && e@ == MockState::empty(),
{
    let builder = registry.resolve();
    match builder.build(target, service, user) {
        Ok(credential) => Ok(Entry { inner: credential }),
        Err(err) => Err(err),
    }
}

/// A handle on one logical secret: an identity bound, for the life of the
/// handle, to exactly one credential that stores the secret.  Every
/// operation forwards to that credential.
#[derive(Debug)]
pub struct Entry {
    inner: Credential,
}

impl View for Entry {
    type V = MockState;

    closed spec fn view(&self) -> MockState {
        self.inner@
    }
}

impl Entry {
    /// Create an entry for the given service and user, with no target.
    ///
    /// The default builder of `registry` is used to build the entry's
    /// credential.
    pub fn new(registry: &mut Registry, service: &str, user: &str) -> (r: Result<Entry, Error>)
        ensures
            final(registry)@ == after_resolve(old(registry)@),
            r matches Ok(e) && e@ == MockState::empty(),
    {
        build_default_credential(registry, None, service, user)
    }

    /// Create an entry for the given target, service, and user.
    ///
    /// The default builder of `registry` is used to build the entry's
    /// credential.
    pub fn new_with_target(
        registry: &mut Registry,
        target: &str,
        service: &str,
        user: &str,
    ) -> (r: Result<Entry, Error>)
        ensures
            final(registry)@ == after_resolve(old(registry)@),
            r matches Ok(e) && e@ == MockState::empty(),
    {
        build_default_credential(registry, Some(target), service, user)
    }

    /// Create an entry that uses the given credential for storage,
    /// bypassing the registry entirely.  Cannot fail.
    pub fn new_with_credential(credential: Credential) -> (e: Entry)
        ensures
            e@ == credential@,
    {
        Entry { inner: credential }
    }

    /// Store the password for this entry, overwriting any prior value.
    pub fn set_password(&mut self, password: &str) -> (r: Result<(), Error>)
        ensures
            final(self)@ == mock_set_password(old(self)@, password@).0,
            unit_result_model(r) == mock_set_password(old(self)@, password@).1,
    {
        self.inner.set_password(password)
    }

    /// Store the byte secret for this entry exactly, overwriting any prior
    /// value.
    pub fn set_secret(&mut self, secret: &[u8]) -> (r: Result<(), Error>)
        ensures
            final(self)@ == mock_set_secret(old(self)@, secret@).0,
            unit_result_model(r) == mock_set_secret(old(self)@, secret@).1,
    {
        self.inner.set_secret(secret)
    }

    /// Retrieve the password saved for this entry.
    ///
    /// Returns [`Error::NoEntry`] if nothing is stored, and
    /// [`Error::BadEncoding`], carrying the stored bytes, if they are not
    /// valid UTF-8.
    pub fn get_password(&mut self) -> (r: Result<String, Error>)
        ensures
            final(self)@ == mock_get_password(old(self)@).0,
            password_result_model(r) == mock_get_password(old(self)@).1,
    {
        self.inner.get_password()
    }

    /// Retrieve the byte secret saved for this entry, exactly as written.
    ///
    /// Returns [`Error::NoEntry`] if nothing is stored.
    pub fn get_secret(&mut self) -> (r: Result<Vec<u8>, Error>)
        ensures
            final(self)@ == mock_get_secret(old(self)@).0,
            secret_result_model(r) == mock_get_secret(old(self)@).1,
    {
        self.inner.get_secret()
    }

    /// Delete the stored value of this entry's credential.
    ///
    /// Returns [`Error::NoEntry`] if nothing is stored.  The entry itself
    /// outlives the deletion; only the stored value is removed.
    pub fn delete_credential(&mut self) -> (r: Result<(), Error>)
        ensures
            final(self)@ == mock_delete(old(self)@).0,
            unit_result_model(r) == mock_delete(old(self)@).1,
    {
        self.inner.delete_credential()
    }

    /// A reference to this entry's wrapped credential, for callers who
    /// know which concrete store is in use and want at its richer model.
    pub fn get_credential(&self) -> (r: &Credential)
        ensures
            r@ == self@,
    {
        &self.inner
    }
}

} // verus!
