//! The credential and credential-builder dispatch types.
//!
//! Backend selection is a closed, build-time choice, so a credential and a
//! builder are each a tagged variant rather than a runtime-extensible
//! object: [`Credential`] holds the storage object an
//! [`Entry`](crate::Entry) is bound to, [`CredentialBuilder`] turns an
//! identity into one.  Each operation dispatches on the variant and
//! forwards to the store behind it; the capability-query method
//! [`Credential::as_mock`] is the typed escape hatch to the concrete store
//! for callers that know which backend is in use.

use vstd::prelude::*;

use crate::error::Error;
use crate::mock::mock_delete;
use crate::mock::mock_get_password;
use crate::mock::mock_get_secret;
use crate::mock::mock_set_password;
use crate::mock::mock_set_secret;
use crate::mock::password_result_model;
use crate::mock::secret_result_model;
use crate::mock::unit_result_model;
use crate::mock::MockCredential;
use crate::mock::MockCredentialBuilder;
use crate::mock::MockState;

verus! {

/// A storage object bound to one identity.  The reference store is the one
/// store compiled into this crate, so it is the one variant.
#[derive(Debug)]
pub enum Credential {
    Mock(MockCredential),
}

impl View for Credential {
    type V = MockState;

    open spec fn view(&self) -> MockState {
        match self {
            Credential::Mock(m) => m@,
        }
    }
}

impl Credential {
    /// Store the UTF-8 encoding of `password`, overwriting any prior value.
    pub fn set_password(&mut self, password: &str) -> (r: Result<(), Error>)
        ensures
            final(self)@ == mock_set_password(old(self)@, password@).0,
            unit_result_model(r) == mock_set_password(old(self)@, password@).1,
    {
        match self {
            Credential::Mock(m) => m.set_password(password),
        }
    }

    /// Store `secret` byte for byte, overwriting any prior value.
    pub fn set_secret(&mut self, secret: &[u8]) -> (r: Result<(), Error>)
        ensures
            final(self)@ == mock_set_secret(old(self)@, secret@).0,
            unit_result_model(r) == mock_set_secret(old(self)@, secret@).1,
    {
        match self {
            Credential::Mock(m) => m.set_secret(secret),
        }
    }

    /// Read the stored value as a password.
    pub fn get_password(&mut self) -> (r: Result<String, Error>)
        ensures
            final(self)@ == mock_get_password(old(self)@).0,
            password_result_model(r) == mock_get_password(old(self)@).1,
    {
        match self {
            Credential::Mock(m) => m.get_password(),
        }
    }

    /// Read the stored value as raw bytes.
    pub fn get_secret(&mut self) -> (r: Result<Vec<u8>, Error>)
        ensures
            final(self)@ == mock_get_secret(old(self)@).0,
            secret_result_model(r) == mock_get_secret(old(self)@).1,
    {
        match self {
            Credential::Mock(m) => m.get_secret(),
        }
    }

    /// Remove the stored value.
    pub fn delete_credential(&mut self) -> (r: Result<(), Error>)
        ensures
            final(self)@ == mock_delete(old(self)@).0,
            unit_result_model(r) == mock_delete(old(self)@).1,
    {
        match self {
            Credential::Mock(m) => m.delete_credential(),
        }
    }

    /// The concrete reference-store credential behind this variant, if that
    /// is the store in use.
    pub fn as_mock(&self) -> (r: Option<&MockCredential>)
        ensures
            r matches Some(m) && m@ == self@,
    {
        match self {
            Credential::Mock(m) => Some(m),
        }
    }

}

/// A builder that turns an identity into a fresh credential of its store.
#[derive(Debug, Clone, Copy, PartialEq, Eq)]
pub enum CredentialBuilder {
    Mock(MockCredentialBuilder),
}

impl CredentialBuilder {
    /// Build a credential of this builder's store for the identity named by
    /// `target`, `service` and `user`.  Every store compiled into this
    /// crate builds a fresh, empty credential and never fails.
    pub fn build(&self, target: Option<&str>, service: &str, user: &str) -> (r: Result<
        Credential,
        Error,
    >)
        ensures
            r matches Ok(c) && c@ == MockState::empty(),
    {
        match self {
            CredentialBuilder::Mock(b) => b.build(target, service, user),
        }
    }
}

} // verus!
