//! The two classes of failure, and the JSON replies of the HTTP boundary.

use crate::json::{json_string_literal, quote};
use vstd::prelude::*;
use vstd::string::StringExecFns;
use vstd::utf8::encode_utf8;

verus! {

/// Message of a failure to read the environment.
pub const ENVIRONMENT_FAILURE: &'static str = "Error while getting environment variable";

/// Message of a failure to send a request.
pub const REQUEST_FAILURE: &'static str = "Error while sending request";

/// A failure, classified by who can mend it.
#[derive(Debug, PartialEq, Eq)]
pub enum UserError {
    /// The caller or the operator can mend it, for example a missing setting.
    BadRequest { message: String, error: String },
    /// An unexpected failure, for example of the transport or of the provider.
    InternalServerError { message: String, error: String },
}

/// The class of a failure.
pub enum ErrorKind {
    BadRequest,
    InternalServerError,
}

/// What a `UserError` holds: its class, its message and the detail below it.
pub struct ErrorModel {
    pub kind: ErrorKind,
    pub message: Seq<char>,
    pub error: Seq<char>,
}

impl ErrorModel {
    /// The HTTP status that the class maps to.
    pub open spec fn status_code(self) -> u16 {
        match self.kind {
            ErrorKind::BadRequest => 400,
            ErrorKind::InternalServerError => 500,
        }
    }

    /// The JSON body: the same two members for both classes.
    pub open spec fn body(self) -> Seq<char> {
        "{\"message\":"@ + json_string_literal(self.message) + ",\"error\":"@
            + json_string_literal(self.error) + "}"@
    }
}

impl View for UserError {
    type V = ErrorModel;

    open spec fn view(&self) -> ErrorModel {
        match self {
            UserError::BadRequest { message, error } => ErrorModel {
                kind: ErrorKind::BadRequest,
                message: message@,
                error: error@,
            },
            UserError::InternalServerError { message, error } => ErrorModel {
                kind: ErrorKind::InternalServerError,
                message: message@,
                error: error@,
            },
        }
    }
}

/// What an outcome holds: the text of a success, or the content of a failure.
pub open spec fn outcome_view(outcome: Result<String, UserError>) -> Result<Seq<char>, ErrorModel> {
    match outcome {
        Ok(text) => Ok(text@),
        Err(failure) => Err(failure@),
    }
}

/// An HTTP reply with a JSON body.
#[derive(Debug, PartialEq, Eq)]
pub struct JsonResponse {
    pub status: u16,
    pub body: String,
}

impl View for JsonResponse {
    type V = (u16, Seq<char>);

    open spec fn view(&self) -> (u16, Seq<char>) {
        (self.status, self.body@)
    }
}

impl UserError {
    /// A failure to read a variable of the environment, with `detail` below
    /// it. The environment is the operator's to mend, so this is a
    /// `BadRequest`, as every missing setting is.
    pub fn environment_failure(detail: String) -> (failure: UserError)
        ensures
            failure@ == (ErrorModel {
                kind: ErrorKind::BadRequest,
                message: ENVIRONMENT_FAILURE@,
                error: detail@,
            }),
    {
        UserError::BadRequest { message: String::from_str(ENVIRONMENT_FAILURE), error: detail }
    }

    /// An internal failure to send a request, with `detail` below it.
    pub fn request_failure(detail: String) -> (failure: UserError)
        ensures
            failure@ == (ErrorModel {
                kind: ErrorKind::InternalServerError,
                message: REQUEST_FAILURE@,
                error: detail@,
            }),
    {
        UserError::InternalServerError { message: String::from_str(REQUEST_FAILURE), error: detail }
    }

    /// 400 for a `BadRequest`, 500 for an `InternalServerError`.
    pub fn status_code(&self) -> (code: u16)
        ensures
            code == self@.status_code(),
    {
        match self {
            UserError::BadRequest { .. } => 400,
            UserError::InternalServerError { .. } => 500,
        }
    }

    /// The failure as compact JSON with the members `message` and `error`.
    pub fn to_string(&self) -> (text: String)
        ensures
            text@ == self@.body(),
    {
        let (message, error) = match self {
            UserError::BadRequest { message, error } => (message, error),
            UserError::InternalServerError { message, error } => (message, error),
        };
        let mut text = String::from_str("{\"message\":");
        text.append(quote(message.as_str()).as_str());
        text.append(",\"error\":");
        text.append(quote(error.as_str()).as_str());
        text.append("}");
        text
    }

    /// The reply for this failure: its status, and itself as the body.
    pub fn error_response(&self) -> (response: JsonResponse)
        ensures
            response@ == (self@.status_code(), self@.body()),
    {
        JsonResponse { status: self.status_code(), body: self.to_string() }
    }
}

/// The body of the reply to a notification that was delivered.
#[derive(Debug, PartialEq, Eq)]
pub struct EmailSentResponse {
    message: String,
}

impl View for EmailSentResponse {
    type V = Seq<char>;

    closed spec fn view(&self) -> Seq<char> {
        self.message@
    }
}

/// The JSON body of a confirmation.
pub open spec fn confirmation_body(message: Seq<char>) -> Seq<char> {
    "{\"message\":"@ + json_string_literal(message) + "}"@
}

impl EmailSentResponse {
    /// The confirmation that says `message`.
    pub fn new(message: String) -> (confirmation: EmailSentResponse)
        ensures
            confirmation@ == message@,
    {
        EmailSentResponse { message }
    }

    /// What the confirmation says.
    pub fn message(&self) -> (message: &String)
        ensures
            message@ == self@,
    {
        &self.message
    }

    /// The confirmation as compact JSON with the one member `message`.
    pub fn to_string(&self) -> (text: String)
        ensures
            text@ == confirmation_body(self@),
    {
        let mut text = String::from_str("{\"message\":");
        text.append(quote(self.message.as_str()).as_str());
        text.append("}");
        text
    }

    /// The reply that confirms a delivery: status 200, and `message` as the
    /// only member of the body.
    pub fn ok(message: &str) -> (response: JsonResponse)
        ensures
            response@ == (200u16, confirmation_body(message@)),
    {
        let confirmation = EmailSentResponse::new(String::from_str(message));
        JsonResponse { status: 200, body: confirmation.to_string() }
    }
}

/// Two failures with the same content are rendered to the same status and
/// the same JSON text, character for character and so byte for byte.
pub proof fn rendering_is_deterministic(first: UserError, second: UserError)
    requires
        first@ == second@,
    ensures
        first@.status_code() == second@.status_code(),
        first@.body() == second@.body(),
        encode_utf8(first@.body()) == encode_utf8(second@.body()),
{
}

/// Both classes render the same body for the same message and detail: only
/// the status tells them apart.
pub proof fn classes_differ_in_status_only(message: Seq<char>, error: Seq<char>)
    ensures
        (ErrorModel { kind: ErrorKind::BadRequest, message, error }).body() == (ErrorModel {
            kind: ErrorKind::InternalServerError,
            message,
            error,
        }).body(),
        (ErrorModel { kind: ErrorKind::BadRequest, message, error }).status_code() == 400,
        (ErrorModel { kind: ErrorKind::InternalServerError, message, error }).status_code() == 500,
{
}

} // verus!
