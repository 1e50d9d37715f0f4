//! Errors that a request to the bridge is answered with.

use vstd::prelude::*;

verus! {

/// The kind of an error answer.
#[derive(Clone, Copy, Debug, PartialEq, Eq, Structural)]
pub enum Status {
    BadRequest,
    Forbidden,
    NotFound,
    Internal,
    BadGateway,
}

/// An error answer.
#[derive(Debug)]
pub struct ApiError {
    pub status: Status,
    pub message: String,
}

/// What an error answer holds.
#[verifier::ext_equal]
pub struct ApiErrorView {
    pub status: Status,
    pub message: Seq<char>,
}

impl View for ApiError {
    type V = ApiErrorView;

    open spec fn view(&self) -> ApiErrorView {
        ApiErrorView { status: self.status, message: self.message@ }
    }
}

/// The answer to a request that makes no sense.
pub open spec fn bad_request(message: Seq<char>) -> ApiErrorView {
    ApiErrorView { status: Status::BadRequest, message }
}

/// The answer to a request for something that is not there.
pub open spec fn not_found(message: Seq<char>) -> ApiErrorView {
    ApiErrorView { status: Status::NotFound, message }
}

/// The answer to a request that is not allowed.
pub open spec fn forbidden(message: Seq<char>) -> ApiErrorView {
    ApiErrorView { status: Status::Forbidden, message }
}

/// The answer where a service behind the bridge failed.
pub open spec fn bad_gateway(message: Seq<char>) -> ApiErrorView {
    ApiErrorView { status: Status::BadGateway, message }
}

/// The answer where the bridge itself failed.
pub open spec fn internal_error(message: Seq<char>) -> ApiErrorView {
    ApiErrorView { status: Status::Internal, message }
}

/// The number of a status in the HTTP protocol.
pub open spec fn http_code(status: Status) -> u16 {
    match status {
        Status::BadRequest => 400,
        Status::Forbidden => 403,
        Status::NotFound => 404,
        Status::Internal => 500,
        Status::BadGateway => 502,
    }
}

impl ApiError {
    /// The request makes no sense.
    pub fn bad_request(message: &str) -> (result: ApiError)
        ensures
            result@ == bad_request(message@),
    {
        ApiError { status: Status::BadRequest, message: message.to_owned() }
    }

    /// What the request asks for is not there.
    pub fn not_found(message: &str) -> (result: ApiError)
        ensures
            result@ == not_found(message@),
    {
        ApiError { status: Status::NotFound, message: message.to_owned() }
    }

    /// The request is not allowed.
    pub fn forbidden(message: &str) -> (result: ApiError)
        ensures
            result@ == forbidden(message@),
    {
        ApiError { status: Status::Forbidden, message: message.to_owned() }
    }

    /// A service behind the bridge failed.
    pub fn bad_gateway(message: &str) -> (result: ApiError)
        ensures
            result@ == bad_gateway(message@),
    {
        ApiError { status: Status::BadGateway, message: message.to_owned() }
    }

    /// The bridge itself failed.
    pub fn internal(message: &str) -> (result: ApiError)
        ensures
            result@ == internal_error(message@),
    {
        ApiError { status: Status::Internal, message: message.to_owned() }
    }

    /// The number of the status in the HTTP protocol.
    pub fn code(&self) -> (result: u16)
        ensures
            result == http_code(self.status),
    {
        match self.status {
            Status::BadRequest => 400,
            Status::Forbidden => 403,
            Status::NotFound => 404,
            Status::Internal => 500,
            Status::BadGateway => 502,
        }
    }
}

/// What a checked request comes to.
pub open spec fn answer<T: View>(result: Result<T, ApiError>) -> Result<T::V, ApiErrorView> {
    match result {
        Ok(value) => Ok(value@),
        Err(error) => Err(error@),
    }
}

/// What a check comes to.
pub open spec fn verdict(result: Result<(), ApiError>) -> Result<(), ApiErrorView> {
    match result {
        Ok(_) => Ok(()),
        Err(error) => Err(error@),
    }
}

} // verus!
