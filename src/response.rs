use vstd::prelude::*;

verus! {

/// How a response status is treated: 1xx, 2xx, 3xx (and any other code
/// outside the two error ranges) count as success.
#[derive(PartialEq, Eq, Structural, Clone, Copy, Debug)]
pub enum StatusClass {
    Success,
    ClientError,
    ServerError,
}

/// The `error` object of the envelope `{"error": {"error_code", "error_message"}}`
/// that the API sends with a client-error status.
#[derive(Clone, Debug)]
pub struct ErrorEnvelope {
    pub error_code: String,
    pub error_message: String,
}

/// Every way a request can fail.
#[derive(Clone, Debug)]
pub enum UpcloudApiError {
    /// A client-error status whose body was a well-formed error envelope.
    Api { code: String, message: String },
    /// A server-error status (500 to 599).
    Status { status: u16 },
    /// A body that did not have the expected JSON shape, with the decoder's text.
    Decode { detail: String },
    /// The request could not be sent or its response not received.
    Transport { detail: String },
}

/// What the caller does next with a response, decided from its status alone.
#[derive(Clone, Debug)]
pub enum ResponseAction {
    /// Hand the response on to the caller.
    Accept,
    /// Decode the body as an error envelope and fail with `client_error`.
    DecodeErrorBody,
    /// Fail with the given error; the body is not read.
    Fail(UpcloudApiError),
}

pub open spec fn is_client_error_status(status: u16) -> bool {
    400 <= status < 500
}

pub open spec fn is_server_error_status(status: u16) -> bool {
    500 <= status < 600
}

pub open spec fn status_class(status: u16) -> StatusClass {
    if is_client_error_status(status) {
        StatusClass::ClientError
    } else if is_server_error_status(status) {
        StatusClass::ServerError
    } else {
        StatusClass::Success
    }
}

/// Classifies a status code by the client-error and server-error ranges.
pub fn classify_status(status: u16) -> (r: StatusClass)
    ensures
        r == status_class(status),
{
    if 400 <= status && status < 500 {
        StatusClass::ClientError
    } else if 500 <= status && status < 600 {
        StatusClass::ServerError
    } else {
        StatusClass::Success
    }
}

/// A client error is reported with the envelope's code and message verbatim;
/// a body that did not decode as an envelope is reported as a decode failure.
pub open spec fn client_error_of(decoded: Result<ErrorEnvelope, String>) -> UpcloudApiError {
    match decoded {
        Ok(e) => UpcloudApiError::Api { code: e.error_code, message: e.error_message },
        Err(detail) => UpcloudApiError::Decode { detail },
    }
}

/// The error for a client-error response, from the result of decoding its body.
pub fn client_error(decoded: Result<ErrorEnvelope, String>) -> (r: UpcloudApiError)
    ensures
        r == client_error_of(decoded),
{
    match decoded {
        Ok(e) => UpcloudApiError::Api { code: e.error_code, message: e.error_message },
        Err(detail) => UpcloudApiError::Decode { detail },
    }
}

pub open spec fn action_of(status: u16) -> ResponseAction {
    match status_class(status) {
        StatusClass::ClientError => ResponseAction::DecodeErrorBody,
        StatusClass::ServerError => ResponseAction::Fail(UpcloudApiError::Status { status }),
        StatusClass::Success => ResponseAction::Accept,
    }
}

/// Decides what to do with a response of the given status.
pub fn next_action(status: u16) -> (r: ResponseAction)
    ensures
        r == action_of(status),
{
    match classify_status(status) {
        StatusClass::ClientError => ResponseAction::DecodeErrorBody,
        StatusClass::ServerError => ResponseAction::Fail(UpcloudApiError::Status { status }),
        StatusClass::Success => ResponseAction::Accept,
    }
}

} // verus!

verus! {

/// The body of an accepted response, or a decode failure in its place.
pub open spec fn accepted_body_of<T>(decoded: Result<T, String>) -> Result<T, UpcloudApiError> {
    match decoded {
        Ok(v) => Ok(v),
        Err(detail) => Err(UpcloudApiError::Decode { detail }),
    }
}

/// Turns the result of decoding an accepted response's body into the
/// operation's result: a body of the wrong shape is a decode failure.
pub fn accepted_body<T>(decoded: Result<T, String>) -> (r: Result<T, UpcloudApiError>)
    ensures
        r == accepted_body_of(decoded),
{
    match decoded {
        Ok(v) => Ok(v),
        Err(detail) => Err(UpcloudApiError::Decode { detail }),
    }
}

/// A client-error response whose body is an error envelope fails with the
/// envelope's code and message, verbatim.
pub proof fn lemma_client_error_keeps_envelope(status: u16, envelope: ErrorEnvelope)
    requires
        400 <= status < 500,
    ensures
        action_of(status) == ResponseAction::DecodeErrorBody,
        client_error_of(Ok(envelope)) == (UpcloudApiError::Api {
            code: envelope.error_code,
            message: envelope.error_message,
        }),
{
}

/// A client-error response whose body is not an error envelope fails with a
/// decode failure, which carries no code or message of the API.
pub proof fn lemma_client_error_without_envelope(status: u16, detail: String)
    requires
        400 <= status < 500,
    ensures
        action_of(status) == ResponseAction::DecodeErrorBody,
        client_error_of(Err(detail)) == (UpcloudApiError::Decode { detail }),
        !(client_error_of(Err(detail)) is Api),
{
}

/// A server-error response fails with the status alone, never with an error
/// of the API's own, whatever its body holds.
pub proof fn lemma_server_error_is_opaque(status: u16)
    requires
        500 <= status < 600,
    ensures
        action_of(status) == ResponseAction::Fail(UpcloudApiError::Status { status }),
{
}

/// Only a client-error status leads to an error of the API's own: every other
/// status either is accepted or fails without code or message.
pub proof fn lemma_api_error_only_on_client_error(status: u16)
    requires
        !is_client_error_status(status),
    ensures
        action_of(status) == ResponseAction::Accept || (action_of(status) is Fail && !(
        action_of(status)->Fail_0 is Api)),
{
}

} // verus!
