//! The portable error taxonomy.
//!
//! Every fallible operation of this crate reports its failure as one of the
//! variants below, whatever storage backend produced it.  Backend-specific
//! detail travels as an opaque message inside `NoStorageAccess` or
//! `PlatformFailure`; it is never a distinct type per backend.

use vstd::prelude::*;

verus! {

/// An error returned by a credential-store operation.
#[derive(Debug, Clone, PartialEq, Eq)]
pub enum Error {
    /// The identity has no stored value.
    NoEntry,
    /// The backend's storage model matched more than one record for the
    /// identity.
    Ambiguous,
    /// Stored bytes exist but are not valid UTF-8 when read as a password.
    /// The raw bytes are attached so the caller can recover them.
    BadEncoding(Vec<u8>),
    /// The caller supplied an argument the backend cannot accept; the
    /// message describes which one and why.
    Invalid(String),
    /// The backend's storage mechanism could not be reached; the message
    /// carries the underlying cause.
    NoStorageAccess(String),
    /// An otherwise unclassified backend-specific failure, carried as an
    /// opaque message.
    PlatformFailure(String),
}

/// The mathematical shape of an [`Error`]: the same six variants over
/// sequences instead of heap-allocated buffers.  Contracts and lemmas speak
/// of this type.
pub enum ErrorModel {
    NoEntry,
    Ambiguous,
    BadEncoding(Seq<u8>),
    Invalid(Seq<char>),
    NoStorageAccess(Seq<char>),
    PlatformFailure(Seq<char>),
}

impl View for Error {
    type V = ErrorModel;

    open spec fn view(&self) -> ErrorModel {
        match self {
            Error::NoEntry => ErrorModel::NoEntry,
            Error::Ambiguous => ErrorModel::Ambiguous,
            Error::BadEncoding(bytes) => ErrorModel::BadEncoding(bytes@),
            Error::Invalid(msg) => ErrorModel::Invalid(msg@),
            Error::NoStorageAccess(msg) => ErrorModel::NoStorageAccess(msg@),
            Error::PlatformFailure(msg) => ErrorModel::PlatformFailure(msg@),
        }
    }
}

} // verus!
