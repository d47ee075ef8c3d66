//! The domain error taxonomy, its mapping to wire-level status codes and
//! messages, and the response envelope shapes.

use vstd::prelude::*;

verus! {

/// A required field of a creation request.
#[derive(Clone, Copy, Debug, PartialEq, Eq, Structural)]
pub enum Field {
    Title,
    Body,
    StartTime,
}

/// Everything that can go wrong while serving a request: client input
/// errors, a missing row, and store-level failures.
#[derive(Clone, Debug, PartialEq, Eq)]
pub enum TodoError {
    /// A required field of a creation request was absent or empty.
    MissingField(Field),
    /// A supplied `start_time` did not follow the wire format; carries the
    /// parser's message.
    InvalidTimestamp(String),
    /// No row matches the given id.
    NotFound,
    /// A connection could not be acquired from the pool; carries the
    /// pool's message.
    ConnectionFailure(String),
    /// The transaction aborted; carries the store's message.
    TransactionFailure(String),
}

impl TodoError {
    /// The wire status this error maps to: client input errors are
    /// 400, a missing row is 404, store failures are 500.
    pub open spec fn spec_status(&self) -> u16 {
        match self {
            TodoError::MissingField(_) => 400,
            TodoError::InvalidTimestamp(_) => 400,
            TodoError::NotFound => 404,
            TodoError::ConnectionFailure(_) => 500,
            TodoError::TransactionFailure(_) => 500,
        }
    }

    /// The message shown to the caller for this error.
    pub open spec fn spec_message(&self) -> Seq<char> {
        match self {
            TodoError::MissingField(Field::Title) => "title is required"@,
            TodoError::MissingField(Field::Body) => "body is required"@,
            TodoError::MissingField(Field::StartTime) => "start_time is required"@,
            TodoError::InvalidTimestamp(d) => d@,
            TodoError::NotFound => "Record not found"@,
            TodoError::ConnectionFailure(d) => d@,
            TodoError::TransactionFailure(d) => d@,
        }
    }

    /// The wire status for this error.
    pub fn status(&self) -> (r: u16)
        ensures
            r == self.spec_status(),
    {
        match self {
            TodoError::MissingField(_) => 400,
            TodoError::InvalidTimestamp(_) => 400,
            TodoError::NotFound => 404,
            TodoError::ConnectionFailure(_) => 500,
            TodoError::TransactionFailure(_) => 500,
        }
    }

    /// The message shown to the caller.
    pub fn message(&self) -> (r: String)
        ensures
            r@ == self.spec_message(),
    {
        match self {
            TodoError::MissingField(Field::Title) => String::from_str("title is required"),
            TodoError::MissingField(Field::Body) => String::from_str("body is required"),
            TodoError::MissingField(Field::StartTime) => String::from_str(
                "start_time is required",
            ),
            TodoError::InvalidTimestamp(d) => d.clone(),
            TodoError::NotFound => String::from_str("Record not found"),
            TodoError::ConnectionFailure(d) => d.clone(),
            TodoError::TransactionFailure(d) => d.clone(),
        }
    }

    /// The wire envelope for this error on a given request path.
    pub fn to_envelope(&self, path: &str) -> (r: HttpError)
        ensures
            r.msg@ == self.spec_message(),
            r.path@ == path@,
            r.status == self.spec_status(),
    {
        HttpError {
            msg: self.message(),
            path: String::from_str(path),
            status: self.status(),
        }
    }
}

/// Wire-level error envelope: a message, the request path it answers, and
/// the status code it is sent with.
#[derive(Clone, Debug)]
pub struct HttpError {
    pub msg: String,
    pub path: String,
    pub status: u16,
}

impl HttpError {
    /// An envelope with the given message and status and an empty path.
    pub fn new(msg: &str, status: u16) -> (r: HttpError)
        ensures
            r.msg@ == msg@,
            r.path@.len() == 0,
            r.status == status,
    {
        HttpError {
            msg: String::from_str(msg),
            path: String::new(),
            status,
        }
    }
}

/// Success envelope carrying only a message.
pub struct MessageRes {
    pub msg: String,
}

/// Success envelope carrying one entity.
pub struct BaseRes<T> {
    pub msg: String,
    pub data: T,
}

impl<T> BaseRes<T> {
    /// Wrap a value under the success message.
    pub fn success(data: T) -> (r: BaseRes<T>)
        ensures
            r.msg@ == "Success"@,
            r.data == data,
    {
        BaseRes { msg: String::from_str("Success"), data }
    }
}

/// Success envelope carrying a sequence of entities.
pub struct ArrayRes<T> {
    pub msg: String,
    pub datas: Vec<T>,
}

} // verus!
