use vstd::prelude::*;

use crate::response::HttpResponse;

verus! {

/// Failure raised by the connection pool when no connection can be handed out.
pub struct PoolError {
    pub message: String,
}

/// Failure raised by the query layer (for example, a violated constraint).
pub struct StorageError {
    pub message: String,
}

/// The unified error taxonomy: every server-side failure is one of these two
/// kinds, each carrying a human-readable cause.
#[derive(Debug)]
pub enum CustomError {
    /// A configuration or precondition problem detected at a boundary.
    FaultySetup(String),
    /// Any failure originating from pool acquisition or query execution.
    Database(String),
}

impl CustomError {
    /// The cause string the error was constructed with.
    pub open spec fn reason(&self) -> Seq<char> {
        match self {
            CustomError::FaultySetup(cause) => cause@,
            CustomError::Database(cause) => cause@,
        }
    }

    /// Human-readable rendering of the error, kind first.
    pub fn message(&self) -> (r: String)
        ensures
            self matches CustomError::FaultySetup(cause) ==> r@ == "Setup Error: "@ + cause@,
            self matches CustomError::Database(cause) ==> r@ == "Database Error: "@ + cause@,
    {
        match self {
            CustomError::FaultySetup(cause) => {
                let mut s = String::from_str("Setup Error: ");
                s.append(cause.as_str());
                s
            },
            CustomError::Database(cause) => {
                let mut s = String::from_str("Database Error: ");
                s.append(cause.as_str());
                s
            },
        }
    }

    /// The responder: both kinds are server-side failures and map to status
    /// 422 with a body of the form `status=422, message=<reason>`.
    pub fn into_response(self) -> (r: HttpResponse)
        ensures
            r.status == 422,
            r.body@ == "status=422, message="@ + self.reason(),
            r.location is None,
    {
        let reason = match self {
            CustomError::FaultySetup(message) => message,
            CustomError::Database(message) => message,
        };
        let mut body = String::from_str("status=422, message=");
        body.append(reason.as_str());
        HttpResponse { status: 422, body, location: None }
    }
}

impl From<PoolError> for CustomError {
    /// A pool failure is a database failure, keeping its cause.
    fn from(err: PoolError) -> (r: Self) {
        CustomError::Database(err.message)
    }
}

impl vstd::std_specs::convert::FromSpecImpl<PoolError> for CustomError {
    open spec fn obeys_from_spec() -> bool {
        true
    }

    open spec fn from_spec(err: PoolError) -> CustomError {
        CustomError::Database(err.message)
    }
}

impl From<StorageError> for CustomError {
    /// A query failure is a database failure, keeping its cause.
    fn from(err: StorageError) -> (r: Self) {
        CustomError::Database(err.message)
    }
}

impl vstd::std_specs::convert::FromSpecImpl<StorageError> for CustomError {
    open spec fn obeys_from_spec() -> bool {
        true
    }

    open spec fn from_spec(err: StorageError) -> CustomError {
        CustomError::Database(err.message)
    }
}

} // verus!
