//! The responses that the request handlers return to their caller.

use vstd::prelude::*;
use vstd::string::*;
use crate::text::views;
use crate::error::{InvalidEnumValueError, ModeField};
use crate::validate::{missing_message, MissingFieldsError};

verus! {

/// A response to a request. Every rejection carries the status code 400.
#[derive(Debug)]
pub enum Response {
    /// The document is valid: status code 200 with the message `Success`.
    Accepted,
    /// Required fields are absent or null.
    MissingFields { message: String, missing_fields: Vec<String> },
    /// A field has a value of the wrong shape.
    BadRequest { message: String },
    /// The current mode is not a known mode name.
    InvalidCurrentMode { message: String },
    /// The requested mode is not a known mode name.
    InvalidTargetMode { message: String },
    /// The bike is already in the requested mode; nothing was published.
    AlreadyInMode { message: String },
    /// A mode change was handed to the publish channel.
    Processed { message: String },
}

/// Mathematical model of a [`Response`].
pub enum ResponseView {
    Accepted,
    MissingFields { message: Seq<char>, missing_fields: Seq<Seq<char>> },
    BadRequest { message: Seq<char> },
    InvalidCurrentMode { message: Seq<char> },
    InvalidTargetMode { message: Seq<char> },
    AlreadyInMode { message: Seq<char> },
    Processed { message: Seq<char> },
}

impl View for Response {
    type V = ResponseView;

    open spec fn view(&self) -> ResponseView {
        match self {
            Response::Accepted => ResponseView::Accepted,
            Response::MissingFields { message, missing_fields } => ResponseView::MissingFields {
                message: message@,
                missing_fields: views(missing_fields@),
            },
            Response::BadRequest { message } => ResponseView::BadRequest { message: message@ },
            Response::InvalidCurrentMode { message } => ResponseView::InvalidCurrentMode {
                message: message@,
            },
            Response::InvalidTargetMode { message } => ResponseView::InvalidTargetMode {
                message: message@,
            },
            Response::AlreadyInMode { message } => ResponseView::AlreadyInMode {
                message: message@,
            },
            Response::Processed { message } => ResponseView::Processed { message: message@ },
        }
    }
}

/// Message of the rejection of an unknown current mode.
pub open spec fn invalid_current_message(value: Seq<char>) -> Seq<char> {
    "Invalid current_mode: `"@ + value + "`"@
}

/// Message of the rejection of an unknown requested mode.
pub open spec fn invalid_target_message(value: Seq<char>) -> Seq<char> {
    "Invalid change_to_mode: `"@ + value + "`"@
}

/// Message of the success without a mode change.
pub open spec fn already_message(target: Seq<char>) -> Seq<char> {
    "Bike already in mode "@ + target
}

/// Message of the success with a mode change.
pub open spec fn processed_message(identifier: Seq<char>) -> Seq<char> {
    "Mode change request processed for bike: "@ + identifier
}

impl ResponseView {
    /// The response is a rejection.
    pub open spec fn is_rejection(self) -> bool {
        ||| self is MissingFields
        ||| self is BadRequest
        ||| self is InvalidCurrentMode
        ||| self is InvalidTargetMode
    }

    /// The message of the response.
    pub open spec fn message(self) -> Seq<char> {
        match self {
            ResponseView::Accepted => "Success"@,
            ResponseView::MissingFields { message, .. } => message,
            ResponseView::BadRequest { message } => message,
            ResponseView::InvalidCurrentMode { message } => message,
            ResponseView::InvalidTargetMode { message } => message,
            ResponseView::AlreadyInMode { message } => message,
            ResponseView::Processed { message } => message,
        }
    }

    /// The name of the field that the response declares invalid.
    pub open spec fn invalid_field(self) -> Option<Seq<char>> {
        match self {
            ResponseView::InvalidCurrentMode { .. } => Some("current_mode"@),
            ResponseView::InvalidTargetMode { .. } => Some("change_to_mode"@),
            _ => None,
        }
    }
}

impl Response {
    /// The rejection that lists missing fields.
    pub fn missing(error: MissingFieldsError) -> (response: Response)
        ensures
            response@ == (ResponseView::MissingFields {
                message: missing_message(views(error.missing_fields@)),
                missing_fields: views(error.missing_fields@),
            }),
    {
        let message = error.message();
        Response::MissingFields { message, missing_fields: error.missing_fields }
    }

    /// The rejection of a malformed document, with the conversion failure
    /// as its message.
    pub fn bad_request(message: String) -> (response: Response)
        ensures
            response@ == (ResponseView::BadRequest { message: message@ }),
    {
        Response::BadRequest { message }
    }

    /// The rejection of a current mode that is no known mode name.
    pub fn invalid_current(value: &str) -> (response: Response)
        ensures
            response@ == (ResponseView::InvalidCurrentMode {
                message: invalid_current_message(value@),
            }),
    {
        let mut message = "Invalid current_mode: `".to_owned();
        message.append(value);
        message.append("`");
        Response::InvalidCurrentMode { message }
    }

    /// The rejection of a requested mode that is no known mode name.
    pub fn invalid_target(value: &str) -> (response: Response)
        ensures
            response@ == (ResponseView::InvalidTargetMode {
                message: invalid_target_message(value@),
            }),
    {
        let mut message = "Invalid change_to_mode: `".to_owned();
        message.append(value);
        message.append("`");
        Response::InvalidTargetMode { message }
    }

    /// The rejection of a name that is no known mode, under the field that
    /// holds it.
    pub fn invalid_value(error: InvalidEnumValueError) -> (response: Response)
        ensures
            response@ == match error.field {
                ModeField::CurrentMode => ResponseView::InvalidCurrentMode {
                    message: invalid_current_message(error.value@),
                },
                ModeField::ChangeToMode => ResponseView::InvalidTargetMode {
                    message: invalid_target_message(error.value@),
                },
            },
    {
        match error.field {
            ModeField::CurrentMode => Response::invalid_current(error.value.as_str()),
            ModeField::ChangeToMode => Response::invalid_target(error.value.as_str()),
        }
    }

    /// The success for a bike that is already in the requested mode.
    pub fn already_in_mode(target: &str) -> (response: Response)
        ensures
            response@ == (ResponseView::AlreadyInMode { message: already_message(target@) }),
    {
        let mut message = "Bike already in mode ".to_owned();
        message.append(target);
        Response::AlreadyInMode { message }
    }

    /// The success for a mode change that was handed to the publish channel.
    pub fn processed(identifier: &str) -> (response: Response)
        ensures
            response@ == (ResponseView::Processed { message: processed_message(identifier@) }),
    {
        let mut message = "Mode change request processed for bike: ".to_owned();
        message.append(identifier);
        Response::Processed { message }
    }

    /// The message of the response; `Success` for `Accepted`.
    pub fn message(&self) -> (text: &str)
        ensures
            text@ == self@.message(),
    {
        match self {
            Response::Accepted => "Success",
            Response::MissingFields { message, .. } => message.as_str(),
            Response::BadRequest { message } => message.as_str(),
            Response::InvalidCurrentMode { message } => message.as_str(),
            Response::InvalidTargetMode { message } => message.as_str(),
            Response::AlreadyInMode { message } => message.as_str(),
            Response::Processed { message } => message.as_str(),
        }
    }

    /// The status code: 200 for `Accepted`, 400 for every rejection, none
    /// for the two successes of a mode change request.
    pub fn status_code(&self) -> (code: Option<u16>)
        ensures
            code == (if self@ is Accepted {
                Some(200u16)
            } else if self@.is_rejection() {
                Some(400u16)
            } else {
                None
            }),
    {
        match self {
            Response::Accepted => Some(200),
            Response::MissingFields { .. } => Some(400),
            Response::BadRequest { .. } => Some(400),
            Response::InvalidCurrentMode { .. } => Some(400),
            Response::InvalidTargetMode { .. } => Some(400),
            Response::AlreadyInMode { .. } => None,
            Response::Processed { .. } => None,
        }
    }

    /// The error label of a rejection.
    pub fn error(&self) -> (label: Option<&'static str>)
        ensures
            label is Some <==> self@.is_rejection(),
            self@ is MissingFields ==> label == Some("Validation Error"),
            self@ is BadRequest ==> label == Some("Bad Request"),
            self@ is InvalidCurrentMode ==> label == Some("Invalid Field"),
            self@ is InvalidTargetMode ==> label == Some("Validation Error"),
    {
        match self {
            Response::MissingFields { .. } => Some("Validation Error"),
            Response::BadRequest { .. } => Some("Bad Request"),
            Response::InvalidCurrentMode { .. } => Some("Invalid Field"),
            Response::InvalidTargetMode { .. } => Some("Validation Error"),
            _ => None,
        }
    }

    /// The status label `success` of the two successes of a mode change
    /// request.
    pub fn status(&self) -> (label: Option<&'static str>)
        ensures
            label == (if self@ is AlreadyInMode || self@ is Processed {
                Some("success")
            } else {
                None
            }),
    {
        match self {
            Response::AlreadyInMode { .. } => Some("success"),
            Response::Processed { .. } => Some("success"),
            _ => None,
        }
    }

    /// The name of the field that the response declares invalid:
    /// `current_mode` or `change_to_mode`.
    pub fn invalid_field(&self) -> (name: Option<&'static str>)
        ensures
            match name {
                Some(text) => self@.invalid_field() == Some(text@),
                None => self@.invalid_field() is None,
            },
    {
        match self {
            Response::InvalidCurrentMode { .. } => Some("current_mode"),
            Response::InvalidTargetMode { .. } => Some("change_to_mode"),
            _ => None,
        }
    }
}

} // verus!
