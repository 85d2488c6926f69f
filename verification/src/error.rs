use vstd::prelude::*;

verus! {

/// Errors answered to a client.
#[derive(Debug, Clone, Copy, PartialEq, Eq, Structural)]
pub enum MyError {
    NoToken,
    NoContent,
    UnAuthorized,
    InternalError,
}

/// What the service needs to know of a failed database statement: whether
/// the statement found no row, or failed in another way.
#[derive(Debug, Clone, Copy, PartialEq, Eq, Structural)]
pub enum DbError {
    RowNotFound,
    Other,
}

/// The error answered for a failed database statement.
pub open spec fn spec_from_db(e: DbError) -> MyError {
    match e {
        DbError::RowNotFound => MyError::NoContent,
        DbError::Other => MyError::InternalError,
    }
}

/// The HTTP status code that answers an error.
pub open spec fn spec_status_code(e: MyError) -> u16 {
    match e {
        MyError::NoToken => 400,
        MyError::NoContent => 400,
        MyError::UnAuthorized => 401,
        MyError::InternalError => 500,
    }
}

impl MyError {
    /// A statement that found no row answers `NoContent`; any other database
    /// failure answers `InternalError`.
    pub fn from_db(e: DbError) -> (res: MyError)
        ensures
            res == spec_from_db(e),
    {
        match e {
            DbError::RowNotFound => MyError::NoContent,
            DbError::Other => MyError::InternalError,
        }
    }

    /// The HTTP status code of the response that carries this error.
    pub fn status_code(&self) -> (code: u16)
        ensures
            code == spec_status_code(*self),
    {
        match self {
            MyError::NoToken => 400,
            MyError::NoContent => 400,
            MyError::UnAuthorized => 401,
            MyError::InternalError => 500,
        }
    }

    /// The text of the response body that carries this error.
    pub fn message(&self) -> (text: &'static str)
        ensures
            *self == MyError::NoToken ==> text@ == "no token set in header"@,
            *self == MyError::NoContent ==> text@ == "no content for requested item"@,
            *self == MyError::UnAuthorized ==> text@ == "unauthorized request"@,
            *self == MyError::InternalError ==> text@ == "internal error"@,
    {
        match self {
            MyError::NoToken => "no token set in header",
            MyError::NoContent => "no content for requested item",
            MyError::UnAuthorized => "unauthorized request",
            MyError::InternalError => "internal error",
        }
    }
}

} // verus!
