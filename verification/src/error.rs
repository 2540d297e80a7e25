//! The failures of the request pipeline, and the one place that turns a failure into the
//! response that the client sees.

use crate::decimal::{failure_text, ParseIntFailure};
use vstd::prelude::*;

verus! {

/// The kinds of record that the store keeps.
#[derive(Debug, Clone, Copy, PartialEq, Eq, Structural)]
pub enum EntityKind {
    Question,
    Account,
}

/// Why a storage operation failed, as a category that is safe to show.
#[derive(Debug, Clone, Copy, PartialEq, Eq, Structural)]
pub enum StoreFault {
    /// No record has the identifier.
    NotFound,
    /// A record with the identifier is already there.
    Conflict,
    /// The storage itself could not do the work.
    Unavailable,
}

/// Why a call to the moderation service gave no screened text.
#[derive(Debug, Clone, PartialEq, Eq)]
pub enum ModerationFault {
    /// The service could not be reached, or the connection broke.
    Transport { detail: String },
    /// The service answered with a status outside the success range.
    Status { code: u16 },
    /// The service answered with success, but its body could not be read.
    Malformed,
}

/// A failure of the request pipeline.
#[derive(Debug, Clone, PartialEq, Eq)]
#[allow(inconsistent_fields)]
pub enum Error {
    /// The query parameter `field`, whose text was `raw_value`, is not a number.
    ParameterParseError { field: String, raw_value: String, cause: ParseIntFailure },
    /// The query does not hold both `start` and `end`.
    MissingParameters,
    /// Reading from the store failed.
    StoreReadError { entity_kind: EntityKind, id: Option<String>, cause: StoreFault },
    /// Writing to the store failed.
    StoreWriteError { entity_kind: EntityKind, id: Option<String>, cause: StoreFault },
    /// The moderation service did not screen a text.
    ModerationServiceError { cause: ModerationFault },
    /// The cross-origin policy forbids the request.
    CorsRejected,
}

/// A failed request as the last stage receives it: a failure of this pipeline, or anything
/// else, such as a path that no route serves.
#[derive(Debug, Clone, PartialEq, Eq)]
pub enum Rejection {
    Domain(Error),
    Unmatched,
}

/// What is sent back to the client: a status code and a plain-text body.
#[derive(Debug, Clone, PartialEq, Eq)]
pub struct Response {
    pub status: u16,
    pub body: String,
}

pub const OK: u16 = 200;

pub const FORBIDDEN: u16 = 403;

pub const NOT_FOUND: u16 = 404;

pub const RANGE_NOT_SATISFIABLE: u16 = 416;

pub const INTERNAL_SERVER_ERROR: u16 = 500;

pub const BAD_GATEWAY: u16 = 502;

pub enum ModerationFaultView {
    Transport { detail: Seq<char> },
    Status { code: u16 },
    Malformed,
}

#[allow(inconsistent_fields)]
pub enum ErrorView {
    ParameterParseError { field: Seq<char>, raw_value: Seq<char>, cause: ParseIntFailure },
    MissingParameters,
    StoreReadError { entity_kind: EntityKind, id: Option<Seq<char>>, cause: StoreFault },
    StoreWriteError { entity_kind: EntityKind, id: Option<Seq<char>>, cause: StoreFault },
    ModerationServiceError { cause: ModerationFaultView },
    CorsRejected,
}

pub enum RejectionView {
    Domain(ErrorView),
    Unmatched,
}

pub struct ResponseView {
    pub status: u16,
    pub body: Seq<char>,
}

impl View for ModerationFault {
    type V = ModerationFaultView;

    open spec fn view(&self) -> ModerationFaultView {
        match *self {
            ModerationFault::Transport { detail } => ModerationFaultView::Transport {
                detail: detail@,
            },
            ModerationFault::Status { code } => ModerationFaultView::Status { code },
            ModerationFault::Malformed => ModerationFaultView::Malformed,
        }
    }
}

impl View for Error {
    type V = ErrorView;

    open spec fn view(&self) -> ErrorView {
        match *self {
            Error::ParameterParseError { field, raw_value, cause } => {
                ErrorView::ParameterParseError { field: field@, raw_value: raw_value@, cause }
            },
            Error::MissingParameters => ErrorView::MissingParameters,
            Error::StoreReadError { entity_kind, id, cause } => ErrorView::StoreReadError {
                entity_kind,
                id: id.deep_view(),
                cause,
            },
            Error::StoreWriteError { entity_kind, id, cause } => ErrorView::StoreWriteError {
                entity_kind,
                id: id.deep_view(),
                cause,
            },
            Error::ModerationServiceError { cause } => ErrorView::ModerationServiceError {
                cause: cause@,
            },
            Error::CorsRejected => ErrorView::CorsRejected,
        }
    }
}

impl View for Rejection {
    type V = RejectionView;

    open spec fn view(&self) -> RejectionView {
        match *self {
            Rejection::Domain(error) => RejectionView::Domain(error@),
            Rejection::Unmatched => RejectionView::Unmatched,
        }
    }
}

impl View for Response {
    type V = ResponseView;

    open spec fn view(&self) -> ResponseView {
        ResponseView { status: self.status, body: self.body@ }
    }
}

/// The name of a kind of record.
pub open spec fn kind_name(kind: EntityKind) -> Seq<char> {
    match kind {
        EntityKind::Question => "Question"@,
        EntityKind::Account => "Account"@,
    }
}

/// The record that a storage failure is about: its kind, and its identifier where one is
/// known.
pub open spec fn subject(kind: EntityKind, id: Option<Seq<char>>) -> Seq<char> {
    match id {
        Some(id) => kind_name(kind) + " "@ + id,
        None => kind_name(kind),
    }
}

/// The message of a storage failure. `action` says what was being done ("read" or "write").
pub open spec fn store_message(
    action: Seq<char>,
    kind: EntityKind,
    id: Option<Seq<char>>,
    cause: StoreFault,
) -> Seq<char> {
    match cause {
        StoreFault::NotFound => subject(kind, id) + " not found"@,
        StoreFault::Conflict => subject(kind, id) + " already exists"@,
        StoreFault::Unavailable => "Cannot "@ + action + " "@ + subject(kind, id),
    }
}

impl ErrorView {
    /// The message that describes the failure to a person. It names the parameter or the
    /// record concerned, and gives no detail of a moderation failure.
    pub open spec fn message(self) -> Seq<char> {
        match self {
            ErrorView::ParameterParseError { field, raw_value, cause } => {
                "Cannot parse parameter "@ + field + ": "@ + failure_text(cause)
            },
            ErrorView::MissingParameters => "Missing parameter"@,
            ErrorView::StoreReadError { entity_kind, id, cause } => store_message(
                "read"@,
                entity_kind,
                id,
                cause,
            ),
            ErrorView::StoreWriteError { entity_kind, id, cause } => store_message(
                "write"@,
                entity_kind,
                id,
                cause,
            ),
            ErrorView::ModerationServiceError { cause } => "Moderation service failed"@,
            ErrorView::CorsRejected => "CORS request forbidden"@,
        }
    }

    /// The status code that answers the failure.
    pub open spec fn status(self) -> u16 {
        match self {
            ErrorView::ParameterParseError { .. } => RANGE_NOT_SATISFIABLE,
            ErrorView::MissingParameters => RANGE_NOT_SATISFIABLE,
            ErrorView::StoreReadError { cause, .. } => store_status(cause),
            ErrorView::StoreWriteError { cause, .. } => store_status(cause),
            ErrorView::ModerationServiceError { .. } => BAD_GATEWAY,
            ErrorView::CorsRejected => FORBIDDEN,
        }
    }
}

/// The status code of a storage failure: not found, or a fault of the server.
pub open spec fn store_status(cause: StoreFault) -> u16 {
    match cause {
        StoreFault::NotFound => NOT_FOUND,
        StoreFault::Conflict => INTERNAL_SERVER_ERROR,
        StoreFault::Unavailable => INTERNAL_SERVER_ERROR,
    }
}

impl RejectionView {
    /// The one response that answers the rejection.
    pub open spec fn response(self) -> ResponseView {
        match self {
            RejectionView::Domain(error) => ResponseView {
                status: error.status(),
                body: error.message(),
            },
            RejectionView::Unmatched => ResponseView {
                status: NOT_FOUND,
                body: "Route not found"@,
            },
        }
    }
}

impl EntityKind {
    /// The name of the kind.
    pub fn name(&self) -> (text: &'static str)
        ensures
            text@ == kind_name(*self),
    {
        match self {
            EntityKind::Question => "Question",
            EntityKind::Account => "Account",
        }
    }
}

/// Writes the kind and, where known, the identifier of the record that a storage failure is
/// about.
fn write_subject(kind: EntityKind, id: &Option<String>) -> (text: String)
    ensures
        text@ == subject(kind, id.deep_view()),
{
    let mut text = String::from_str(kind.name());
    match id {
        Some(id) => {
            text.append(" ");
            text.append(id.as_str());
        },
        None => {},
    }
    text
}

/// Writes the message of a storage failure.
fn write_store_message(
    action: &str,
    kind: EntityKind,
    id: &Option<String>,
    cause: StoreFault,
) -> (text: String)
    ensures
        text@ == store_message(action@, kind, id.deep_view(), cause),
{
    let about = write_subject(kind, id);
    match cause {
        StoreFault::NotFound => about.concat(" not found"),
        StoreFault::Conflict => about.concat(" already exists"),
        StoreFault::Unavailable => {
            let mut text = String::from_str("Cannot ");
            text.append(action);
            text.append(" ");
            text.append(about.as_str());
            text
        },
    }
}

impl Error {
    /// The message that describes the failure to a person.
    pub fn to_string(&self) -> (text: String)
        ensures
            text@ == self@.message(),
    {
        match self {
            Error::ParameterParseError { field, raw_value, cause } => {
                let mut text = String::from_str("Cannot parse parameter ");
                text.append(field.as_str());
                text.append(": ");
                text.append(cause.describe());
                text
            },
            Error::MissingParameters => String::from_str("Missing parameter"),
            Error::StoreReadError { entity_kind, id, cause } => write_store_message(
                "read",
                *entity_kind,
                id,
                *cause,
            ),
            Error::StoreWriteError { entity_kind, id, cause } => write_store_message(
                "write",
                *entity_kind,
                id,
                *cause,
            ),
            Error::ModerationServiceError { cause } => String::from_str(
                "Moderation service failed",
            ),
            Error::CorsRejected => String::from_str("CORS request forbidden"),
        }
    }

    /// The status code that answers the failure.
    pub fn status(&self) -> (code: u16)
        ensures
            code == self@.status(),
    {
        match self {
            Error::ParameterParseError { .. } => RANGE_NOT_SATISFIABLE,
            Error::MissingParameters => RANGE_NOT_SATISFIABLE,
            Error::StoreReadError { cause, .. } | Error::StoreWriteError { cause, .. } => {
                match cause {
                    StoreFault::NotFound => NOT_FOUND,
                    StoreFault::Conflict => INTERNAL_SERVER_ERROR,
                    StoreFault::Unavailable => INTERNAL_SERVER_ERROR,
                }
            },
            Error::ModerationServiceError { .. } => BAD_GATEWAY,
            Error::CorsRejected => FORBIDDEN,
        }
    }
}

/// Turns a rejection into the response that the client sees. Every rejection gets exactly
/// one response: a failure of the pipeline its status and message, anything else "not found".
pub fn return_error(r: &Rejection) -> (response: Response)
    ensures
        response@ == r@.response(),
{
    match r {
        Rejection::Domain(error) => Response { status: error.status(), body: error.to_string() },
        Rejection::Unmatched => Response {
            status: NOT_FOUND,
            body: String::from_str("Route not found"),
        },
    }
}

} // verus!
