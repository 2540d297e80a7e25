//! The moderation of submitted text. The call to the moderation service is made elsewhere;
//! what came back from it is judged here.

use crate::error::{Error, ErrorView, ModerationFault, ModerationFaultView};
use vstd::prelude::*;

verus! {

/// What a call to the moderation service came back with.
#[derive(Debug, Clone, PartialEq, Eq)]
pub enum ServiceReply {
    /// No answer: the service could not be reached, or the connection broke.
    Failure { detail: String },
    /// An answer with its status code and, where its body could be read, the screened text.
    Answer { status: u16, censored: Option<String> },
}

pub enum ServiceReplyView {
    Failure { detail: Seq<char> },
    Answer { status: u16, censored: Option<Seq<char>> },
}

impl View for ServiceReply {
    type V = ServiceReplyView;

    open spec fn view(&self) -> ServiceReplyView {
        match *self {
            ServiceReply::Failure { detail } => ServiceReplyView::Failure { detail: detail@ },
            ServiceReply::Answer { status, censored } => ServiceReplyView::Answer {
                status,
                censored: censored.deep_view(),
            },
        }
    }
}

/// Whether `status` is in the success range.
pub open spec fn is_success(status: u16) -> bool {
    200 <= status < 300
}

/// The failure of a moderation call, with its cause.
pub open spec fn moderation_error(cause: ModerationFaultView) -> ErrorView {
    ErrorView::ModerationServiceError { cause }
}

/// What a reply of the moderation service amounts to: the screened text, where the service
/// answered with success and a body that could be read. A call without an answer, an answer
/// outside the success range, and a body that could not be read are all failures of the
/// service, each with its cause.
pub open spec fn check_profanity_spec(reply: ServiceReplyView) -> Result<Seq<char>, ErrorView> {
    match reply {
        ServiceReplyView::Failure { detail } => Err(
            moderation_error(ModerationFaultView::Transport { detail }),
        ),
        ServiceReplyView::Answer { status, censored } => if !is_success(status) {
            Err(moderation_error(ModerationFaultView::Status { code: status }))
        } else {
            match censored {
                None => Err(moderation_error(ModerationFaultView::Malformed)),
                Some(text) => Ok(text),
            }
        },
    }
}

/// Judges the reply of the moderation service to one text: the screened text, or the failure
/// of the service.
pub fn check_profanity(reply: ServiceReply) -> (r: Result<String, Error>)
    ensures
        match check_profanity_spec(reply@) {
            Ok(text) => r matches Ok(t) && t@ == text,
            Err(e) => r matches Err(err) && err@ == e,
        },
{
    match reply {
        ServiceReply::Failure { detail } => Err(
            Error::ModerationServiceError { cause: ModerationFault::Transport { detail } },
        ),
        ServiceReply::Answer { status, censored } => {
            if status < 200 || status >= 300 {
                Err(
                    Error::ModerationServiceError {
                        cause: ModerationFault::Status { code: status },
                    },
                )
            } else {
                match censored {
                    None => Err(
                        Error::ModerationServiceError { cause: ModerationFault::Malformed },
                    ),
                    Some(text) => Ok(text),
                }
            }
        },
    }
}

} // verus!
