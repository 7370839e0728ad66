//! The errors of the library.
use vstd::prelude::*;
use crate::response::{ErrorResponse, ErrorShape};

verus! {

/// Why a call failed.
#[derive(Debug, Clone)]
pub enum ClientError {
    /// An argument was rejected before any request was sent.
    Validation(String),
    /// The service answered with an error, or with a body that was neither
    /// the expected value nor an error.
    Service(ErrorResponse),
    /// The transport failed, or a response lacked what the call needs.
    Transport(String),
    /// The payload of an event frame could not be decoded.
    Decode { data: String, error: String },
    /// The payload of an event frame names an event kind that does not exist.
    UnknownEvent { data: String, tag: String },
    /// The caller's projection of an event failed.
    Projector(String),
}

/// The mathematical value of a [`ClientError`].
pub enum ClientErrorView {
    Validation(Seq<char>),
    Service(ErrorShape),
    Transport(Seq<char>),
    Decode { data: Seq<char>, error: Seq<char> },
    UnknownEvent { data: Seq<char>, tag: Seq<char> },
    Projector(Seq<char>),
}

impl View for ClientError {
    type V = ClientErrorView;

    open spec fn view(&self) -> ClientErrorView {
        match self {
            ClientError::Validation(m) => ClientErrorView::Validation(m@),
            ClientError::Service(e) => ClientErrorView::Service(e@),
            ClientError::Transport(m) => ClientErrorView::Transport(m@),
            ClientError::Decode { data, error } => ClientErrorView::Decode {
                data: data@,
                error: error@,
            },
            ClientError::UnknownEvent { data, tag } => ClientErrorView::UnknownEvent {
                data: data@,
                tag: tag@,
            },
            ClientError::Projector(m) => ClientErrorView::Projector(m@),
        }
    }
}

/// A result whose error is seen through its view.
pub open spec fn result_view<T>(r: Result<T, ClientError>) -> Result<T, ClientErrorView> {
    match r {
        Ok(v) => Ok(v),
        Err(e) => Err(e@),
    }
}

/// A validation error with the given message.
pub(crate) fn validation(message: &str) -> (r: ClientError)
    ensures
        r@ == ClientErrorView::Validation(message@),
{
    ClientError::Validation(String::from_str(message))
}

} // verus!
