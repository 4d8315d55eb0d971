//! The one error type of the client, and the single point where the outcome of a
//! request is turned into it.

use vstd::prelude::*;

verus! {

/// The transport's own error: a value of `reqwest::Error`, carried through unread.
#[verifier::external_type_specification]
#[verifier::external_body]
pub struct ExTransportError(reqwest::Error);

/// The decoder's own error: a value of `serde_json::Error`, carried through unread.
#[verifier::external_type_specification]
#[verifier::external_body]
pub struct ExDecodeError(serde_json::Error);

/// What the client reads of an HTTP response: the status code and the whole body as text.
#[derive(Debug)]
pub struct Response {
    pub status: u16,
    pub body: String,
}

/// Why a query did not end in a value.
#[derive(Debug)]
pub enum ApiError {
    /// The request never produced a response.
    TransportFailure(reqwest::Error),
    /// The server answered with a status outside the success class.
    ApplicationFailure { status: u16, body: String },
    /// The body of a successful response did not have the expected shape.
    DeserializationFailure(serde_json::Error),
}

/// Whether an HTTP status code lies in the success class, 200 to 299.
pub open spec fn is_success_status(status: u16) -> bool {
    200 <= status < 300
}

impl Response {
    /// A response with the given status and body.
    pub fn new(status: u16, body: String) -> (response: Response)
        ensures
            response.status == status,
            response.body == body,
    {
        Response { status, body }
    }

    /// Whether the status of this response lies in the success class.
    pub fn is_success(&self) -> (ok: bool)
        ensures
            ok == is_success_status(self.status),
    {
        200 <= self.status && self.status < 300
    }
}

impl ApiError {
    /// What `from_response` returns: the response itself on a success status, an
    /// application failure with its status and body on any other.
    pub open spec fn of_response(response: Response) -> Result<Response, ApiError> {
        if is_success_status(response.status) {
            Ok(response)
        } else {
            Err(ApiError::ApplicationFailure { status: response.status, body: response.body })
        }
    }

    /// What `from_reply` returns: a transport failure where there was no response, else
    /// what `from_response` makes of the response.
    pub open spec fn of_reply(reply: Result<Response, reqwest::Error>) -> Result<Response, ApiError> {
        match reply {
            Ok(response) => ApiError::of_response(response),
            Err(cause) => Err(ApiError::TransportFailure(cause)),
        }
    }

    /// What `from_decoded` returns: the decoded value, or a deserialization failure.
    pub open spec fn of_decoded<T>(decoded: Result<T, serde_json::Error>) -> Result<T, ApiError> {
        match decoded {
            Ok(value) => Ok(value),
            Err(cause) => Err(ApiError::DeserializationFailure(cause)),
        }
    }

    /// Wraps the cause of a request that never produced a response.
    pub fn from_error(cause: reqwest::Error) -> (error: ApiError)
        ensures
            error == ApiError::TransportFailure(cause),
    {
        ApiError::TransportFailure(cause)
    }

    /// Passes a response with a success status through unchanged, and turns any other
    /// into an application failure that carries its status and its body.
    pub fn from_response(response: Response) -> (result: Result<Response, ApiError>)
        ensures
            result == ApiError::of_response(response),
    {
        if response.is_success() {
            Ok(response)
        } else {
            Err(ApiError::ApplicationFailure { status: response.status, body: response.body })
        }
    }

    /// The mapping that every request goes through: from what the transport reports to
    /// either a response that is worth decoding or the error that says why not.
    pub fn from_reply(reply: Result<Response, reqwest::Error>) -> (result: Result<Response, ApiError>)
        ensures
            result == ApiError::of_reply(reply),
    {
        match reply {
            Ok(response) => ApiError::from_response(response),
            Err(cause) => Err(ApiError::from_error(cause)),
        }
    }

    /// Settles a query on what the decoder made of the body: its value, or a
    /// deserialization failure that wraps the decoder's error. Nothing is put in the
    /// place of a value that could not be decoded.
    pub fn from_decoded<T>(decoded: Result<T, serde_json::Error>) -> (result: Result<T, ApiError>)
        ensures
            result == ApiError::of_decoded(decoded),
    {
        match decoded {
            Ok(value) => Ok(value),
            Err(cause) => Err(ApiError::DeserializationFailure(cause)),
        }
    }
}

} // verus!
