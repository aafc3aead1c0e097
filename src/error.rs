use vstd::prelude::*;

use crate::kind::{kind_of, AuthErrorKind};

verus! {

/// The error object that the platform raises, held as plain values: its
/// `auth/<reason>` code and its human-readable message.
#[derive(Clone, Debug, PartialEq, Eq)]
pub struct FirebaseError {
    pub code: String,
    pub message: String,
}

impl FirebaseError {
    pub fn new(code: String, message: String) -> (r: FirebaseError)
        ensures
            r.code == code,
            r.message == message,
    {
        FirebaseError { code, message }
    }
}

/// A classified platform error. The platform's error stays available as
/// `source`.
#[derive(Clone, Debug)]
pub struct AuthError {
    pub kind: AuthErrorKind,
    pub source: FirebaseError,
}

/// The classification of `err`: its kind, with `err` itself as the source.
pub open spec fn auth_error_of(err: FirebaseError) -> AuthError {
    AuthError { kind: kind_of(err.code), source: err }
}

impl From<FirebaseError> for AuthError {
    fn from(err: FirebaseError) -> (r: AuthError) {
        let kind = AuthErrorKind::classify(err.code.clone());
        AuthError { kind, source: err }
    }
}

impl vstd::std_specs::convert::FromSpecImpl<FirebaseError> for AuthError {
    open spec fn obeys_from_spec() -> bool {
        true
    }

    open spec fn from_spec(err: FirebaseError) -> AuthError {
        auth_error_of(err)
    }
}

impl AuthError {
    /// The message of the underlying platform error.
    pub fn message(&self) -> (r: &String)
        ensures
            r == self.source.message,
    {
        &self.source.message
    }

    /// The code of the underlying platform error.
    pub fn code(&self) -> (r: &String)
        ensures
            r == self.source.code,
    {
        &self.source.code
    }
}

/// Turns the outcome of a bridged platform call into this library's result:
/// a success value passes through untouched, a platform error is classified.
pub fn settle<T>(outcome: Result<T, FirebaseError>) -> (r: Result<T, AuthError>)
    ensures
        match outcome {
            Ok(v) => r == Ok::<T, AuthError>(v),
            Err(e) => r == Err::<T, AuthError>(auth_error_of(e)),
        },
{
    match outcome {
        Ok(v) => Ok(v),
        Err(e) => Err(AuthError::from(e)),
    }
}

} // verus!
