//! The closed set of error kinds shared by every component.

use vstd::prelude::*;

use crate::orders::OrderState;

verus! {

/// Kind of a failure, shared by every component of the client.
#[derive(Debug, Clone, Copy, PartialEq, Eq, Structural)]
pub enum ErrorType {
    AuthenticationError,
    ParseError,
    ThirdPartyError,
    InternalError,
    TimeoutError,
    IoError,
    ArithmeticError,
    HttpError,
    SerializationError,
    NotFound,
}

impl ErrorType {
    /// The name of the kind.
    pub open spec fn name(self) -> Seq<char> {
        match self {
            ErrorType::AuthenticationError => "AuthenticationError"@,
            ErrorType::ParseError => "ParseError"@,
            ErrorType::ThirdPartyError => "ThirdPartyError"@,
            ErrorType::InternalError => "InternalError"@,
            ErrorType::TimeoutError => "TimeoutError"@,
            ErrorType::IoError => "IoError"@,
            ErrorType::ArithmeticError => "ArithmeticError"@,
            ErrorType::HttpError => "HttpError"@,
            ErrorType::SerializationError => "SerializationError"@,
            ErrorType::NotFound => "NotFound"@,
        }
    }

    /// The name of the kind.
    pub fn as_name(&self) -> (r: &'static str)
        ensures
            r@ == self.name(),
    {
        match self {
            ErrorType::AuthenticationError => "AuthenticationError",
            ErrorType::ParseError => "ParseError",
            ErrorType::ThirdPartyError => "ThirdPartyError",
            ErrorType::InternalError => "InternalError",
            ErrorType::TimeoutError => "TimeoutError",
            ErrorType::IoError => "IoError",
            ErrorType::ArithmeticError => "ArithmeticError",
            ErrorType::HttpError => "HttpError",
            ErrorType::SerializationError => "SerializationError",
            ErrorType::NotFound => "NotFound",
        }
    }
}

/// A typed failure: its kind and a human-readable message.
#[derive(Debug, Clone)]
pub struct Error {
    pub error_type: ErrorType,
    pub message: String,
}

impl Error {
    /// Builds an error of the given kind with a copy of `message`.
    pub fn new(error_type: ErrorType, message: &str) -> (r: Self)
        ensures
            r.error_type == error_type,
            r.message@ == message@,
    {
        Error { error_type, message: message.to_owned() }
    }

    /// An `InternalError` with the given message, as the failure of a
    /// conversion into an [`OrderState`].
    pub(crate) fn internal(message: &str) -> (r: Result<OrderState, Error>)
        ensures
            r is Err,
            r->Err_0.error_type == ErrorType::InternalError,
            r->Err_0.message@ == message@,
    {
        Err(Error::new(ErrorType::InternalError, message))
    }

    /// The printed form of the error: `<kind>: <message>`.
    pub fn to_display_string(&self) -> (r: String)
        ensures
            r@ == self.error_type.name() + ": "@ + self.message@,
    {
        let mut s = self.error_type.as_name().to_owned();
        s.append(": ");
        s.append(self.message.as_str());
        s
    }

    /// The message, as the error's description.
    pub fn description(&self) -> (r: &str)
        ensures
            r@ == self.message@,
    {
        self.message.as_str()
    }
}

} // verus!
