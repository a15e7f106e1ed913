//! What the service answers: the health probe, the success text and the one
//! generic error body that each kind of failure is reduced to.
//!
//! Nothing of a failure's detail reaches a reply. The texts are fixed, so a
//! client learns which stage failed and nothing about the machine.

use vstd::prelude::*;

verus! {

/// HTTP status of a successful reply.
pub const STATUS_OK: u16 = 200;

/// HTTP status of a request whose signature was not accepted.
pub const STATUS_UNAUTHORIZED: u16 = 401;

/// HTTP status of a request for a route that does not exist.
pub const STATUS_NOT_FOUND: u16 = 404;

/// HTTP status of a request that failed on the server's side.
pub const STATUS_INTERNAL_SERVER_ERROR: u16 = 500;

/// Why a request was turned down.
#[derive(Clone, Copy, Debug, PartialEq, Eq, Structural)]
pub enum Rejection {
    /// No route matches the request.
    NotFound,
    /// The signature does not authenticate the message.
    IncorrectSignature,
    /// The configuration could not be written.
    FailWritingConfig,
    /// The configuration was written and the daemon did not take it up.
    FailRestartingWireguard,
    /// Anything else.
    Unhandled,
}

/// The body of an error reply, which is sent as a JSON object with the
/// members `code` and `message`.
#[derive(Clone, Debug, PartialEq, Eq)]
pub struct ErrorMessage {
    pub code: u16,
    pub message: String,
}

/// An [`ErrorMessage`] with its text as a sequence of characters.
pub ghost struct ErrorMessageView {
    pub code: u16,
    pub message: Seq<char>,
}

impl View for ErrorMessage {
    type V = ErrorMessageView;

    open spec fn view(&self) -> ErrorMessageView {
        ErrorMessageView { code: self.code, message: self.message@ }
    }
}

/// The body of a reply.
#[derive(Clone, Debug, PartialEq, Eq)]
pub enum Body {
    /// No content.
    Empty,
    /// Plain text.
    Text(String),
    /// A JSON error object.
    Error(ErrorMessage),
}

/// A [`Body`] with its texts as sequences of characters.
pub ghost enum BodyView {
    Empty,
    Text(Seq<char>),
    Error(ErrorMessageView),
}

impl View for Body {
    type V = BodyView;

    open spec fn view(&self) -> BodyView {
        match self {
            Body::Empty => BodyView::Empty,
            Body::Text(text) => BodyView::Text(text@),
            Body::Error(error) => BodyView::Error(error@),
        }
    }
}

/// A status and a body.
#[derive(Clone, Debug, PartialEq, Eq)]
pub struct Reply {
    pub status: u16,
    pub body: Body,
}

/// A [`Reply`] with its texts as sequences of characters.
pub ghost struct ReplyView {
    pub status: u16,
    pub body: BodyView,
}

impl View for Reply {
    type V = ReplyView;

    open spec fn view(&self) -> ReplyView {
        ReplyView { status: self.status, body: self.body@ }
    }
}

/// The status that answers a rejection.
pub open spec fn rejection_status(err: Rejection) -> u16 {
    match err {
        Rejection::NotFound => STATUS_NOT_FOUND,
        Rejection::IncorrectSignature => STATUS_UNAUTHORIZED,
        Rejection::FailWritingConfig => STATUS_INTERNAL_SERVER_ERROR,
        Rejection::FailRestartingWireguard => STATUS_INTERNAL_SERVER_ERROR,
        Rejection::Unhandled => STATUS_INTERNAL_SERVER_ERROR,
    }
}

/// The fixed text that answers a rejection.
pub open spec fn rejection_message(err: Rejection) -> Seq<char> {
    match err {
        Rejection::NotFound => ""@,
        Rejection::IncorrectSignature => "Not authorized to update configuration"@,
        Rejection::FailWritingConfig => "Could not write config. Please check the server logs"@,
        Rejection::FailRestartingWireguard => {
            "Could not restart service. Please check the server logs"@
        },
        Rejection::Unhandled => "UNHANDLED_REJECTION"@,
    }
}

/// The reply that answers a rejection: its status, and a JSON error object
/// that repeats the status and adds the fixed text.
pub open spec fn rejection_reply(err: Rejection) -> ReplyView {
    ReplyView {
        status: rejection_status(err),
        body: BodyView::Error(
            ErrorMessageView { code: rejection_status(err), message: rejection_message(err) },
        ),
    }
}

/// The reply to the health probe.
pub open spec fn ok_reply() -> ReplyView {
    ReplyView { status: STATUS_OK, body: BodyView::Text("OK"@) }
}

/// The reply to an update that was applied.
pub open spec fn updated_reply() -> ReplyView {
    ReplyView { status: STATUS_OK, body: BodyView::Text("Config updated"@) }
}

/// The reply to a preflight request.
pub open spec fn preflight_reply() -> ReplyView {
    ReplyView { status: STATUS_OK, body: BodyView::Empty }
}

/// Turns a rejection into the reply that the client sees.
pub fn handle_rejection(err: Rejection) -> (reply: Reply)
    ensures
        reply@ == rejection_reply(err),
{
    let code: u16;
    let message: &str;
    match err {
        Rejection::NotFound => {
            code = STATUS_NOT_FOUND;
            message = "";
        },
        Rejection::IncorrectSignature => {
            code = STATUS_UNAUTHORIZED;
            message = "Not authorized to update configuration";
        },
        Rejection::FailWritingConfig => {
            code = STATUS_INTERNAL_SERVER_ERROR;
            message = "Could not write config. Please check the server logs";
        },
        Rejection::FailRestartingWireguard => {
            code = STATUS_INTERNAL_SERVER_ERROR;
            message = "Could not restart service. Please check the server logs";
        },
        Rejection::Unhandled => {
            code = STATUS_INTERNAL_SERVER_ERROR;
            message = "UNHANDLED_REJECTION";
        },
    }
    Reply { status: code, body: Body::Error(ErrorMessage { code, message: message.to_owned() }) }
}

/// Answers the health probe. The answer depends on nothing.
pub fn ok() -> (reply: Reply)
    ensures
        reply@ == ok_reply(),
{
    Reply { status: STATUS_OK, body: Body::Text("OK".to_owned()) }
}

/// Answers an update that was applied.
pub fn updated() -> (reply: Reply)
    ensures
        reply@ == updated_reply(),
{
    Reply { status: STATUS_OK, body: Body::Text("Config updated".to_owned()) }
}

/// Answers a preflight request.
pub fn preflight() -> (reply: Reply)
    ensures
        reply@ == preflight_reply(),
{
    Reply { status: STATUS_OK, body: Body::Empty }
}

} // verus!
