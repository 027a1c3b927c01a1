//! Notifications through the chat provider: the request that carries one, and
//! the classification of what came back.

use crate::json::{json_string_literal, quote};
use crate::responses::{outcome_view, ErrorKind, ErrorModel, UserError};
use crate::status::{decimal_digits, status_text, success_status, HttpStatus};
use crate::utils::{resolve, EnvVars, REQUIRED_NOT_SET, TELEGRAM_BOT_TOKEN, TELEGRAM_CHAT_ID};
use vstd::prelude::*;
use vstd::string::StringExecFns;

verus! {

/// What stands before the bot's token in the address of the provider.
pub const URL_BEFORE_TOKEN: &'static str = "https://api.telegram.org/bot";

/// What stands after the bot's token in the address of the provider.
pub const URL_AFTER_TOKEN: &'static str = "/sendMessage";

/// What stands before the subject in the text of a notification.
pub const SUBJECT_LABEL: &'static str = "Subject: ";

/// What stands between the subject and the message.
pub const PARAGRAPH_BREAK: &'static str = "\n\n";

/// Message of a failure of the transport.
pub const SEND_FAILED: &'static str = "Error while sending Telegram notification";

/// Start of the message of a refusal by the provider; the status follows.
pub const STATUS_FAILED: &'static str = "Error sending Telegram notification, request status ";

/// Message of a failure to read the body of an accepted request.
pub const BODY_UNREADABLE: &'static str = "Could not convert response text";

/// The one HTTP call of a notification: a POST to `url` with the JSON text
/// `body`.
#[derive(Debug, PartialEq, Eq)]
pub struct TelegramRequest {
    pub url: String,
    pub body: String,
}

/// What a `TelegramRequest` holds.
pub struct RequestModel {
    pub url: Seq<char>,
    pub body: Seq<char>,
}

impl View for TelegramRequest {
    type V = RequestModel;

    open spec fn view(&self) -> RequestModel {
        RequestModel { url: self.url@, body: self.body@ }
    }
}

/// What came back from the one HTTP call.
#[derive(Debug, PartialEq, Eq)]
pub enum CallOutcome {
    /// The call did not complete; `detail` describes the transport's error.
    Failed { detail: String },
    /// The provider answered with `status`; `body` is the text of its
    /// answer, or the description of the error that reading it gave.
    Completed { status: HttpStatus, body: Result<String, String> },
}

/// What a `CallOutcome` holds.
pub enum OutcomeModel {
    Failed { detail: Seq<char> },
    Completed { status: u16, body: Result<Seq<char>, Seq<char>> },
}

impl View for CallOutcome {
    type V = OutcomeModel;

    open spec fn view(&self) -> OutcomeModel {
        match self {
            CallOutcome::Failed { detail } => OutcomeModel::Failed { detail: detail@ },
            CallOutcome::Completed { status, body } => OutcomeModel::Completed {
                status: status@,
                body: match body {
                    Ok(text) => Ok(text@),
                    Err(detail) => Err(detail@),
                },
            },
        }
    }
}

/// A notification on its way: the call is still to be made, or the outcome
/// is known.
#[derive(Debug, PartialEq, Eq)]
pub enum Dispatch {
    Pending { request: TelegramRequest },
    Resolved { outcome: Result<String, UserError> },
}

/// What a `Dispatch` holds.
pub enum DispatchModel {
    Pending { request: RequestModel },
    Resolved { outcome: Result<Seq<char>, ErrorModel> },
}

impl View for Dispatch {
    type V = DispatchModel;

    open spec fn view(&self) -> DispatchModel {
        match self {
            Dispatch::Pending { request } => DispatchModel::Pending { request: request@ },
            Dispatch::Resolved { outcome } => DispatchModel::Resolved {
                outcome: outcome_view(*outcome),
            },
        }
    }
}

/// The text of a notification: the subject under its label, an empty line,
/// the message.
pub open spec fn notification_text(subject: Seq<char>, message: Seq<char>) -> Seq<char> {
    SUBJECT_LABEL@ + subject + PARAGRAPH_BREAK@ + message
}

/// The request that sends `subject` and `message` to the chat `chat_id` in
/// the name of the bot with the token `token`.
pub open spec fn request_for(
    token: Seq<char>,
    chat_id: Seq<char>,
    subject: Seq<char>,
    message: Seq<char>,
) -> RequestModel {
    RequestModel {
        url: URL_BEFORE_TOKEN@ + token + URL_AFTER_TOKEN@,
        body: "{\"chat_id\":"@ + json_string_literal(chat_id) + ",\"text\":"@
            + json_string_literal(notification_text(subject, message)) + "}"@,
    }
}

/// An unexpected failure.
pub open spec fn internal(message: Seq<char>, error: Seq<char>) -> ErrorModel {
    ErrorModel { kind: ErrorKind::InternalServerError, message, error }
}

/// Where a notification starts: with the first required setting that is
/// missing it is resolved at once, to that failure, and no call is made;
/// else the call is pending.
pub open spec fn start(
    settings: Map<Seq<char>, Seq<char>>,
    subject: Seq<char>,
    message: Seq<char>,
) -> DispatchModel {
    match resolve(settings, TELEGRAM_BOT_TOKEN@, REQUIRED_NOT_SET@) {
        Err(failure) => DispatchModel::Resolved { outcome: Err(failure) },
        Ok(token) => match resolve(settings, TELEGRAM_CHAT_ID@, REQUIRED_NOT_SET@) {
            Err(failure) => DispatchModel::Resolved { outcome: Err(failure) },
            Ok(chat_id) => DispatchModel::Pending {
                request: request_for(token, chat_id, subject, message),
            },
        },
    }
}

/// The outcome of a notification, given what came back from its call.
///
/// A call that did not complete is an internal failure with the transport's
/// description below it. An answer in the 2xx class gives its body, or, if
/// the body could not be read, an internal failure with that error below it.
/// Any other answer is an internal failure whose message ends in the
/// status, with the body below it, or, if the body could not be read, that
/// error in the body's place.
pub open spec fn classify(outcome: OutcomeModel) -> Result<Seq<char>, ErrorModel> {
    match outcome {
        OutcomeModel::Failed { detail } => Err(internal(SEND_FAILED@, detail)),
        OutcomeModel::Completed { status, body } => if success_status(status) {
            match body {
                Ok(text) => Ok(text),
                Err(detail) => Err(internal(BODY_UNREADABLE@, detail)),
            }
        } else {
            Err(
                internal(
                    STATUS_FAILED@ + status_text(status),
                    match body {
                        Ok(text) => text,
                        Err(detail) => detail,
                    },
                ),
            )
        },
    }
}

/// One step of a notification: a pending one is resolved by the outcome of
/// its call; a resolved one stays as it is.
pub open spec fn step(state: DispatchModel, outcome: OutcomeModel) -> DispatchModel {
    match state {
        DispatchModel::Pending { .. } => DispatchModel::Resolved { outcome: classify(outcome) },
        DispatchModel::Resolved { .. } => state,
    }
}

/// The chat provider.
pub struct Telegram;

impl Telegram {
    /// Starts a notification with `subject` and `message`: resolves the
    /// bot's token and the chat, in this order, and builds the request.
    pub fn send_notification(env: &EnvVars, subject: &str, message: &str) -> (dispatch: Dispatch)
        ensures
            dispatch@ == start(env@, subject@, message@),
    {
        let bot_token = match env.get_telegram_bot_token() {
            Ok(value) => value,
            Err(failure) => {
                return Dispatch::Resolved { outcome: Err(failure) };
            },
        };
        let chat_id = match env.get_telegram_chat_id() {
            Ok(value) => value,
            Err(failure) => {
                return Dispatch::Resolved { outcome: Err(failure) };
            },
        };
        let mut url = String::from_str(URL_BEFORE_TOKEN);
        url.append(bot_token.as_str());
        url.append(URL_AFTER_TOKEN);
        let mut text = String::from_str(SUBJECT_LABEL);
        text.append(subject);
        text.append(PARAGRAPH_BREAK);
        text.append(message);
        let mut body = String::from_str("{\"chat_id\":");
        body.append(quote(chat_id.as_str()).as_str());
        body.append(",\"text\":");
        body.append(quote(text.as_str()).as_str());
        body.append("}");
        Dispatch::Pending { request: TelegramRequest { url, body } }
    }

    /// Classifies what came back from the call.
    pub fn classify(outcome: CallOutcome) -> (classified: Result<String, UserError>)
        ensures
            outcome_view(classified) == classify(outcome@),
    {
        match outcome {
            CallOutcome::Failed { detail } => Err(
                UserError::InternalServerError {
                    message: String::from_str(SEND_FAILED),
                    error: detail,
                },
            ),
            CallOutcome::Completed { status, body } => {
                if status.is_success() {
                    match body {
                        Ok(text) => Ok(text),
                        Err(detail) => Err(
                            UserError::InternalServerError {
                                message: String::from_str(BODY_UNREADABLE),
                                error: detail,
                            },
                        ),
                    }
                } else {
                    let mut message = String::from_str(STATUS_FAILED);
                    message.append(status.to_text().as_str());
                    let error = match body {
                        Ok(text) => text,
                        Err(detail) => detail,
                    };
                    Err(UserError::InternalServerError { message, error })
                }
            },
        }
    }
}

impl Dispatch {
    /// Takes the outcome of the call: a pending notification is resolved by
    /// it, a resolved one stays as it is.
    pub fn step(self, outcome: CallOutcome) -> (next: Dispatch)
        ensures
            next@ == step(self@, outcome@),
    {
        match self {
            Dispatch::Pending { .. } => Dispatch::Resolved { outcome: Telegram::classify(outcome) },
            Dispatch::Resolved { outcome } => Dispatch::Resolved { outcome },
        }
    }
}

/// Whether `part` occurs in `text` as a run of consecutive characters.
pub open spec fn occurs_in(part: Seq<char>, text: Seq<char>) -> bool {
    exists|at: int|
        0 <= at && at + part.len() <= text.len() && #[trigger] text.subrange(at, at + part.len())
            == part
}

/// Where both settings of the chat provider are present, an answer in the
/// 2xx class whose body could be read resolves the notification to that
/// body, unchanged.
pub proof fn accepted_answer_gives_its_body(
    settings: Map<Seq<char>, Seq<char>>,
    subject: Seq<char>,
    message: Seq<char>,
    status: u16,
    body: Seq<char>,
)
    requires
        settings.contains_key(TELEGRAM_BOT_TOKEN@),
        settings.contains_key(TELEGRAM_CHAT_ID@),
        success_status(status),
    ensures
        classify(OutcomeModel::Completed { status, body: Ok(body) }) == Ok::<_, ErrorModel>(body),
        step(start(settings, subject, message), OutcomeModel::Completed { status, body: Ok(body) })
            == (DispatchModel::Resolved { outcome: Ok(body) }),
{
}

/// Where both settings of the chat provider are present, an answer outside
/// the 2xx class resolves the notification to an internal failure whose
/// message holds the status code in decimal, whether or not the body could
/// be read.
pub proof fn refused_answer_reports_its_status(
    settings: Map<Seq<char>, Seq<char>>,
    subject: Seq<char>,
    message: Seq<char>,
    status: u16,
    body: Result<Seq<char>, Seq<char>>,
)
    requires
        settings.contains_key(TELEGRAM_BOT_TOKEN@),
        settings.contains_key(TELEGRAM_CHAT_ID@),
        !success_status(status),
    ensures
        classify(OutcomeModel::Completed { status, body }) is Err,
        classify(OutcomeModel::Completed { status, body })->Err_0.kind
            == ErrorKind::InternalServerError,
        occurs_in(
            decimal_digits(status as nat),
            classify(OutcomeModel::Completed { status, body })->Err_0.message,
        ),
        step(start(settings, subject, message), OutcomeModel::Completed { status, body })
            == (DispatchModel::Resolved {
            outcome: classify(OutcomeModel::Completed { status, body }),
        }),
{
    let digits = decimal_digits(status as nat);
    let text = classify(OutcomeModel::Completed { status, body })->Err_0.message;
    let at = STATUS_FAILED@.len() as int;
    assert(text.subrange(at, at + digits.len()) == digits);
}

} // verus!
