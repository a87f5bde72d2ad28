//! The in-memory reference credential store.
//!
//! [`MockCredential`] keeps one optional byte value and obeys the same
//! contract as a well-behaved platform store: a read or delete of a value
//! that was never written (or was deleted) fails with
//! [`Error::NoEntry`](crate::Error::NoEntry), a password read of bytes that
//! are not valid UTF-8 fails with
//! [`Error::BadEncoding`](crate::Error::BadEncoding), and byte values are
//! preserved exactly.  A test harness may additionally plant an error with
//! [`MockCredential::set_error`]; the next operation returns that error
//! instead of touching storage and clears it.
//!
//! The store's behaviour is captured by the spec functions over
//! [`MockState`] below; the executable methods are proved equal to them,
//! and the lemmas at the end of this module state the store's laws.

use vstd::prelude::*;
use vstd::slice::slice_to_vec;
use vstd::utf8::decode_utf8;
use vstd::utf8::encode_utf8;
use vstd::utf8::encode_utf8_decode_utf8;
use vstd::utf8::encode_utf8_valid_utf8;
use vstd::utf8::valid_utf8;

use crate::credential::Credential;
use crate::credential::CredentialBuilder;
use crate::error::Error;
use crate::error::ErrorModel;

verus! {

/// The abstract state of one reference-store credential: the stored bytes,
/// if any, and the planted error, if any.
pub struct MockState {
    pub secret: Option<Seq<u8>>,
    pub error: Option<ErrorModel>,
}

impl MockState {
    /// The state of a freshly built credential: nothing stored, no planted
    /// error.
    pub open spec fn empty() -> MockState {
        MockState { secret: None, error: None }
    }
}

/// The view of a `Result` whose success carries no value.
pub open spec fn unit_result_model(r: Result<(), Error>) -> Result<(), ErrorModel> {
    match r {
        Ok(u) => Ok(u),
        Err(e) => Err(e@),
    }
}

/// The view of a `Result` carrying a byte secret.
pub open spec fn secret_result_model(r: Result<Vec<u8>, Error>) -> Result<Seq<u8>, ErrorModel> {
    match r {
        Ok(v) => Ok(v@),
        Err(e) => Err(e@),
    }
}

/// The view of a `Result` carrying a password.
pub open spec fn password_result_model(r: Result<String, Error>) -> Result<
    Seq<char>,
    ErrorModel,
> {
    match r {
        Ok(s) => Ok(s@),
        Err(e) => Err(e@),
    }
}

/// What storing a password does to a reference-store credential: a planted
/// error is returned and cleared, leaving storage untouched; otherwise the
/// UTF-8 encoding of the password replaces any stored value.
pub open spec fn mock_set_password(m: MockState, password: Seq<char>) -> (MockState, Result<
    (),
    ErrorModel,
>) {
    match m.error {
        Some(e) => (MockState { secret: m.secret, error: None }, Err(e)),
        None => (MockState { secret: Some(encode_utf8(password)), error: None }, Ok(())),
    }
}

/// What storing a byte secret does: a planted error is returned and
/// cleared, leaving storage untouched; otherwise the bytes replace any
/// stored value exactly.
pub open spec fn mock_set_secret(m: MockState, secret: Seq<u8>) -> (MockState, Result<
    (),
    ErrorModel,
>) {
    match m.error {
        Some(e) => (MockState { secret: m.secret, error: None }, Err(e)),
        None => (MockState { secret: Some(secret), error: None }, Ok(())),
    }
}

/// What reading a password returns: a planted error (returned and
/// cleared), `NoEntry` when nothing is stored, `BadEncoding` carrying the
/// stored bytes when they are not valid UTF-8, and otherwise their UTF-8
/// decoding.  Absent a planted error the state is unchanged.
pub open spec fn mock_get_password(m: MockState) -> (MockState, Result<Seq<char>, ErrorModel>) {
    match m.error {
        Some(e) => (MockState { secret: m.secret, error: None }, Err(e)),
        None => match m.secret {
            None => (m, Err(ErrorModel::NoEntry)),
            Some(bytes) => if valid_utf8(bytes) {
                (m, Ok(decode_utf8(bytes)))
            } else {
                (m, Err(ErrorModel::BadEncoding(bytes)))
            },
        },
    }
}

/// What reading a byte secret returns: a planted error (returned and
/// cleared), `NoEntry` when nothing is stored, and otherwise the stored
/// bytes exactly.  Absent a planted error the state is unchanged.
pub open spec fn mock_get_secret(m: MockState) -> (MockState, Result<Seq<u8>, ErrorModel>) {
    match m.error {
        Some(e) => (MockState { secret: m.secret, error: None }, Err(e)),
        None => match m.secret {
            None => (m, Err(ErrorModel::NoEntry)),
            Some(bytes) => (m, Ok(bytes)),
        },
    }
}

/// What deleting does: a planted error (returned and cleared, storage
/// untouched), `NoEntry` when nothing is stored, and otherwise the stored
/// value is removed.
pub open spec fn mock_delete(m: MockState) -> (MockState, Result<(), ErrorModel>) {
    match m.error {
        Some(e) => (MockState { secret: m.secret, error: None }, Err(e)),
        None => match m.secret {
            None => (m, Err(ErrorModel::NoEntry)),
            Some(_) => (MockState { secret: None, error: None }, Ok(())),
        },
    }
}

/// Relies on `String::from_utf8`: it succeeds exactly on valid UTF-8, the
/// produced string decodes those bytes, and on failure the input bytes come
/// back unchanged through `FromUtf8Error::into_bytes`.
#[verifier::external_body]
fn bytes_to_password(bytes: Vec<u8>) -> (r: Result<String, Vec<u8>>)
    ensures
        match r {
            Ok(s) => valid_utf8(bytes@) && s@ == decode_utf8(bytes@),
            Err(b) => !valid_utf8(bytes@) && b@ == bytes@,
        },
{
    match String::from_utf8(bytes) {
        Ok(s) => Ok(s),
        Err(e) => Err(e.into_bytes()),
    }
}

/// An in-memory credential.  One optional stored value plus one optional
/// planted error, both starting absent.
#[derive(Debug)]
pub struct MockCredential {
    secret: Option<Vec<u8>>,
    error: Option<Error>,
}

impl View for MockCredential {
    type V = MockState;

    closed spec fn view(&self) -> MockState {
        MockState {
            secret: match self.secret {
                Some(v) => Some(v@),
                None => None,
            },
            error: match self.error {
                Some(e) => Some(e@),
                None => None,
            },
        }
    }
}

impl Default for MockCredential {
    /// A fresh credential with nothing stored and no planted error.
    fn default() -> (r: MockCredential)
        ensures
            r@ == MockState::empty(),
    {
        MockCredential { secret: None, error: None }
    }
}

impl MockCredential {
    /// Create a fresh credential with nothing stored and no planted error.
    pub fn new() -> (r: MockCredential)
        ensures
            r@ == MockState::empty(),
    {
        MockCredential { secret: None, error: None }
    }

    /// Plant `err`: the next operation on this credential returns it
    /// instead of touching storage, and clears it.
    pub fn set_error(&mut self, err: Error)
        ensures
            final(self)@ == (MockState { secret: old(self)@.secret, error: Some(err@) }),
    {
        self.error = Some(err);
    }

    /// Take the planted error, if any, leaving none.
    fn take_error(&mut self) -> (r: Option<Error>)
        ensures
            final(self)@ == (MockState { secret: old(self)@.secret, error: None }),
            match r {
                Some(e) => old(self)@.error == Some(e@),
                None => old(self)@.error is None,
            },
    {
        self.error.take()
    }

    /// Store the UTF-8 encoding of `password`, overwriting any prior value.
    pub fn set_password(&mut self, password: &str) -> (r: Result<(), Error>)
        ensures
            final(self)@ == mock_set_password(old(self)@, password@).0,
            unit_result_model(r) == mock_set_password(old(self)@, password@).1,
    {
        match self.take_error() {
            Some(e) => Err(e),
            None => {
                self.secret = Some(slice_to_vec(password.as_bytes()));
                Ok(())
            },
        }
    }

    /// Store `secret` byte for byte, overwriting any prior value.
    pub fn set_secret(&mut self, secret: &[u8]) -> (r: Result<(), Error>)
        ensures
            final(self)@ == mock_set_secret(old(self)@, secret@).0,
            unit_result_model(r) == mock_set_secret(old(self)@, secret@).1,
    {
        match self.take_error() {
            Some(e) => Err(e),
            None => {
                self.secret = Some(slice_to_vec(secret));
                Ok(())
            },
        }
    }

    /// Read the stored value as a password.
    pub fn get_password(&mut self) -> (r: Result<String, Error>)
        ensures
            final(self)@ == mock_get_password(old(self)@).0,
            password_result_model(r) == mock_get_password(old(self)@).1,
    {
        match self.take_error() {
            Some(e) => Err(e),
            None => match &self.secret {
                None => Err(Error::NoEntry),
                Some(v) => {
                    let bytes = slice_to_vec(v.as_slice());
                    match bytes_to_password(bytes) {
                        Ok(s) => Ok(s),
                        Err(raw) => Err(Error::BadEncoding(raw)),
                    }
                },
            },
        }
    }

    /// Read the stored value as raw bytes.
    pub fn get_secret(&mut self) -> (r: Result<Vec<u8>, Error>)
        ensures
            final(self)@ == mock_get_secret(old(self)@).0,
            secret_result_model(r) == mock_get_secret(old(self)@).1,
    {
        match self.take_error() {
            Some(e) => Err(e),
            None => match &self.secret {
                None => Err(Error::NoEntry),
                Some(v) => Ok(slice_to_vec(v.as_slice())),
            },
        }
    }

    /// Remove the stored value.
    pub fn delete_credential(&mut self) -> (r: Result<(), Error>)
        ensures
            final(self)@ == mock_delete(old(self)@).0,
            unit_result_model(r) == mock_delete(old(self)@).1,
    {
        match self.take_error() {
            Some(e) => Err(e),
            None => {
                if self.secret.is_some() {
                    self.secret = None;
                    Ok(())
                } else {
                    Err(Error::NoEntry)
                }
            },
        }
    }
}

/// The builder of reference-store credentials.  It is stateless: every
/// build yields a fresh, empty credential, whatever the identity.
#[derive(Debug, Clone, Copy, PartialEq, Eq)]
pub struct MockCredentialBuilder;

impl MockCredentialBuilder {
    /// Build a fresh, empty credential for the given identity.  The
    /// reference store keys nothing by the identity, so the arguments only
    /// name the logical secret; the build always succeeds.
    pub fn build(&self, _target: Option<&str>, _service: &str, _user: &str) -> (r: Result<
        Credential,
        Error,
    >)
        ensures
            r matches Ok(c) && c@ == MockState::empty(),
    {
        Ok(Credential::Mock(MockCredential::new()))
    }
}

/// Round trip for passwords: on a credential with no planted error,
/// storing any password — empty or multi-byte Unicode alike — succeeds,
/// and reading it back returns exactly that password, leaving the state as
/// the write left it.
pub proof fn lemma_password_round_trip(m: MockState, password: Seq<char>)
    requires
        m.error is None,
    ensures
        mock_set_password(m, password).1 == Ok::<(), ErrorModel>(()),
        mock_get_password(mock_set_password(m, password).0).1 == Ok::<Seq<char>, ErrorModel>(
            password,
        ),
        mock_get_password(mock_set_password(m, password).0).0 == mock_set_password(m, password).0,
{
    encode_utf8_valid_utf8(password);
    encode_utf8_decode_utf8(password);
}

/// Round trip for byte secrets: on a credential with no planted error,
/// storing any byte sequence — empty included — succeeds, and reading it
/// back returns exactly those bytes, leaving the state as the write left
/// it.
pub proof fn lemma_secret_round_trip(m: MockState, secret: Seq<u8>)
    requires
        m.error is None,
    ensures
        mock_set_secret(m, secret).1 == Ok::<(), ErrorModel>(()),
        mock_get_secret(mock_set_secret(m, secret).0).1 == Ok::<Seq<u8>, ErrorModel>(secret),
        mock_get_secret(mock_set_secret(m, secret).0).0 == mock_set_secret(m, secret).0,
{
}

/// Delete-then-read: on a credential with a stored value and no planted
/// error, deletion succeeds, and any read of the deleted credential —
/// password or byte path — returns `NoEntry`, never a stale value.
pub proof fn lemma_delete_then_read(m: MockState)
    requires
        m.error is None,
        m.secret is Some,
    ensures
        mock_delete(m).1 == Ok::<(), ErrorModel>(()),
        mock_get_password(mock_delete(m).0).1 == Err::<Seq<char>, ErrorModel>(ErrorModel::NoEntry),
        mock_get_secret(mock_delete(m).0).1 == Err::<Seq<u8>, ErrorModel>(ErrorModel::NoEntry),
{
}

/// Missing-read: on a credential that holds no value and has no planted
/// error — a freshly built one, or one whose value was deleted — every
/// read returns `NoEntry`, and so does a delete.
pub proof fn lemma_missing_read(m: MockState)
    requires
        m.error is None,
        m.secret is None,
    ensures
        mock_get_password(m).1 == Err::<Seq<char>, ErrorModel>(ErrorModel::NoEntry),
        mock_get_secret(m).1 == Err::<Seq<u8>, ErrorModel>(ErrorModel::NoEntry),
        mock_delete(m).1 == Err::<(), ErrorModel>(ErrorModel::NoEntry),
{
}

/// Encoding: after writing bytes that are not valid UTF-8 through the raw
/// path, the password path fails with `BadEncoding` carrying exactly those
/// bytes, while the raw path returns them unchanged.
pub proof fn lemma_bad_encoding(m: MockState, bytes: Seq<u8>)
    requires
        m.error is None,
        !valid_utf8(bytes),
    ensures
        mock_set_secret(m, bytes).1 == Ok::<(), ErrorModel>(()),
        mock_get_password(mock_set_secret(m, bytes).0).1 == Err::<Seq<char>, ErrorModel>(
            ErrorModel::BadEncoding(bytes),
        ),
        mock_get_secret(mock_set_secret(m, bytes).0).1 == Ok::<Seq<u8>, ErrorModel>(bytes),
{
}

/// Update: writing one value and then another to the same credential
/// leaves only the second retrievable; the first is gone.
pub proof fn lemma_update(m: MockState, first: Seq<u8>, second: Seq<u8>)
    requires
        m.error is None,
    ensures
        mock_set_secret(mock_set_secret(m, first).0, second).0.secret == Some(second),
        mock_get_secret(mock_set_secret(mock_set_secret(m, first).0, second).0).1 == Ok::<
            Seq<u8>,
            ErrorModel,
        >(second),
{
}

/// The builder the platform fallback resolves to when no override is
/// installed: the reference store's.
pub open spec fn platform_default_builder() -> CredentialBuilder {
    CredentialBuilder::Mock(MockCredentialBuilder)
}

/// Construct the platform-default credential builder.
pub fn default_credential_builder() -> (b: CredentialBuilder)
    ensures
        b == platform_default_builder(),
{
    CredentialBuilder::Mock(MockCredentialBuilder)
}

} // verus!
