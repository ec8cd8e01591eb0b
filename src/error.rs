use vstd::prelude::*;

verus! {

/// Why an event could not be handled.
#[derive(Debug, Clone, Copy, PartialEq, Eq)]
pub enum EventError {
    /// The payload is not of the shape that the event's kind declares.
    UnexpectedObject,
    /// A subscription event that is due to be applied carries a billing period
    /// outside the representable date range.
    InvalidPeriod,
    /// A new record would take an internal id that is already in use.
    Conflict,
}

/// An error as the transport reports it: a status code and a body of named
/// messages.
#[derive(Debug, Clone)]
pub struct HttpError {
    pub status_code: u16,
    pub body: Vec<(String, String)>,
}

pub const BAD_REQUEST: u16 = 400;

pub const CONFLICT: u16 = 409;

pub const INTERNAL_SERVER_ERROR: u16 = 500;

impl HttpError {
    pub fn new(status_code: u16, body: Vec<(String, String)>) -> (r: Self)
        ensures
            r.status_code == status_code,
            r.body == body,
    {
        HttpError { status_code, body }
    }

    /// An error whose body holds `message` under the key `message`.
    pub fn from_message(status_code: u16, message: String) -> (r: Self)
        ensures
            r.status_code == status_code,
            r.body@.len() == 1,
            r.body@[0].0@ == "message"@,
            r.body@[0].1 == message,
    {
        let mut body: Vec<(String, String)> = Vec::new();
        body.push(("message".to_owned(), message));
        Self::new(status_code, body)
    }

    pub fn bad_request(message: String) -> (r: Self)
        ensures
            r.status_code == BAD_REQUEST,
            r.body@.len() == 1,
            r.body@[0].0@ == "message"@,
            r.body@[0].1 == message,
    {
        Self::from_message(BAD_REQUEST, message)
    }

    pub fn internal() -> (r: Self)
        ensures
            r.status_code == INTERNAL_SERVER_ERROR,
            r.body@.len() == 1,
            r.body@[0].0@ == "message"@,
            r.body@[0].1@ == "unknown error"@,
    {
        Self::from_message(INTERNAL_SERVER_ERROR, "unknown error".to_owned())
    }
}

impl EventError {
    /// The status code under which the transport reports this error.
    pub open spec fn status_code(self) -> u16 {
        match self {
            EventError::UnexpectedObject => BAD_REQUEST,
            EventError::InvalidPeriod => BAD_REQUEST,
            EventError::Conflict => CONFLICT,
        }
    }

    /// The message under which the transport reports this error.
    pub open spec fn message(self) -> Seq<char> {
        match self {
            EventError::UnexpectedObject => "event with unexpected object"@,
            EventError::InvalidPeriod => "billing period out of range"@,
            EventError::Conflict => "subscription id already in use"@,
        }
    }

    /// This error as the transport reports it.
    pub fn to_http_error(&self) -> (r: HttpError)
        ensures
            r.status_code == self.status_code(),
            r.body@.len() == 1,
            r.body@[0].0@ == "message"@,
            r.body@[0].1@ == self.message(),
    {
        match self {
            EventError::UnexpectedObject => HttpError::bad_request("event with unexpected object".to_owned()),
            EventError::InvalidPeriod => HttpError::bad_request("billing period out of range".to_owned()),
            EventError::Conflict => HttpError::from_message(CONFLICT, "subscription id already in use".to_owned()),
        }
    }
}

} // verus!
