use vstd::prelude::*;

verus! {

/// HTTP status codes that the API answers with.
pub const OK: u16 = 200;
pub const CREATED: u16 = 201;
pub const BAD_REQUEST: u16 = 400;
pub const UNAUTHORIZED: u16 = 401;
pub const NOT_FOUND: u16 = 404;
pub const CONFLICT: u16 = 409;
pub const INTERNAL_SERVER_ERROR: u16 = 500;

/// A refused request: the status code and the plain-text body sent back.
pub struct ApiError {
    pub status: u16,
    pub message: String,
}

impl View for ApiError {
    type V = (u16, Seq<char>);

    open spec fn view(&self) -> (u16, Seq<char>) {
        (self.status, self.message@)
    }
}

impl ApiError {
    pub fn new(status: u16, message: &str) -> (e: ApiError)
        ensures
            e@ == (status, message@),
    {
        ApiError { status, message: message.to_owned() }
    }
}

/// Text of the database driver's "no rows" error.
pub open spec fn row_not_found_text() -> Seq<char> {
    "no rows returned by a query that expected to return at least one row"@
}

/// A failed database call: either a query that expected a row and found none,
/// or any other failure, carried by its message.
pub enum DbError {
    RowNotFound,
    Other(String),
}

impl DbError {
    /// The message that the driver's error displays.
    pub open spec fn text(self) -> Seq<char> {
        match self {
            DbError::RowNotFound => row_not_found_text(),
            DbError::Other(m) => m@,
        }
    }

    /// The message that the driver's error displays.
    pub fn message(&self) -> (m: String)
        ensures
            m@ == self.text(),
    {
        match self {
            DbError::RowNotFound => {
                let m = "no rows returned by a query that expected to return at least one row";
                proof {
                    reveal_strlit("no rows returned by a query that expected to return at least one row");
                }
                m.to_owned()
            },
            DbError::Other(m) => m.clone(),
        }
    }

    /// The request fails with a server error that carries the driver's message.
    pub fn into_server_error(&self) -> (e: ApiError)
        ensures
            e@ == (INTERNAL_SERVER_ERROR, self.text()),
    {
        ApiError { status: INTERNAL_SERVER_ERROR, message: self.message() }
    }
}

} // verus!
