//! The one error type a caller of the whole library has to handle.

use vstd::prelude::*;
use crate::auth::AuthError;
use crate::db::DBError;

verus! {

/// What went wrong, by the part that reported it.
#[derive(Debug, Clone)]
pub enum Error {
    Auth(AuthError),
    DataBase(DBError),
}

pub type Result<T> = core::result::Result<T, Error>;

impl From<AuthError> for Error {
    fn from(e: AuthError) -> (r: Error) {
        Error::Auth(e)
    }
}

impl vstd::std_specs::convert::FromSpecImpl<AuthError> for Error {
    open spec fn obeys_from_spec() -> bool {
        true
    }

    open spec fn from_spec(e: AuthError) -> Error {
        Error::Auth(e)
    }
}

impl From<DBError> for Error {
    fn from(e: DBError) -> (r: Error) {
        Error::DataBase(e)
    }
}

impl vstd::std_specs::convert::FromSpecImpl<DBError> for Error {
    open spec fn obeys_from_spec() -> bool {
        true
    }

    open spec fn from_spec(e: DBError) -> Error {
        Error::DataBase(e)
    }
}

impl From<DBError> for AuthError {
    fn from(e: DBError) -> (r: AuthError) {
        AuthError::DatabaseError(e)
    }
}

impl vstd::std_specs::convert::FromSpecImpl<DBError> for AuthError {
    open spec fn obeys_from_spec() -> bool {
        true
    }

    open spec fn from_spec(e: DBError) -> AuthError {
        AuthError::DatabaseError(e)
    }
}

} // verus!
