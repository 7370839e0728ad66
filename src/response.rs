//! Response values and the reconciliation of a response body.
use vstd::prelude::*;
use crate::error::{result_view, ClientError, ClientErrorView};
use crate::json::{json_str_field, json_u64_field, str_field, u64_field};
use crate::text::starts_with;

verus! {

/// The error shape of the service: `{code, message, status}`.
#[derive(Debug, Clone)]
pub struct ErrorResponse {
    pub code: String,
    pub message: String,
    pub status: u32,
}

/// The mathematical value of an [`ErrorResponse`].
pub struct ErrorShape {
    pub code: Seq<char>,
    pub message: Seq<char>,
    pub status: u32,
}

impl View for ErrorResponse {
    type V = ErrorShape;

    open spec fn view(&self) -> ErrorShape {
        ErrorShape { code: self.code@, message: self.message@, status: self.status }
    }
}

/// The error made up for a body that is neither the expected value nor an
/// error of the service.
pub open spec fn unknown_shape(message: Seq<char>) -> ErrorShape {
    ErrorShape { code: "unknown_error"@, message, status: 503 }
}

/// The error that `text` encodes: a JSON object with a string `code`, a
/// string `message` and a `status` that fits in a `u32`.
pub open spec fn error_shape_of(text: Seq<char>) -> Option<ErrorShape> {
    match (
        json_str_field(text, "code"@),
        json_str_field(text, "message"@),
        json_u64_field(text, "status"@),
    ) {
        (Some(code), Some(message), Some(status)) => if status <= u32::MAX {
            Some(ErrorShape { code, message, status: status as u32 })
        } else {
            None
        },
        _ => None,
    }
}

/// The error that a body which is not the expected value stands for: the
/// service's error if the body encodes one, else the unknown error that
/// carries the body.
pub open spec fn service_error_of(text: Seq<char>) -> ErrorShape {
    match error_shape_of(text) {
        Some(e) => e,
        None => unknown_shape(text),
    }
}

/// What a body reconciles to, given what it decoded to as the expected value.
pub open spec fn reconciled<T>(success: Option<T>, text: Seq<char>) -> Result<T, ClientErrorView> {
    match success {
        Some(v) => Ok(v),
        None => Err(ClientErrorView::Service(service_error_of(text))),
    }
}

impl ErrorResponse {
    /// The error for a body that is neither the expected value nor an error
    /// of the service: code `unknown_error`, status 503, and the body as message.
    pub fn unknown(message: &str) -> (r: ErrorResponse)
        ensures
            r@ == unknown_shape(message@),
    {
        ErrorResponse {
            code: String::from_str("unknown_error"),
            message: String::from_str(message),
            status: 503,
        }
    }

    /// Decodes the service's error shape from a response body.
    pub fn from_body(text: &str) -> (r: Option<ErrorResponse>)
        ensures
            match r {
                Some(e) => error_shape_of(text@) == Some(e@),
                None => error_shape_of(text@) is None,
            },
            text@.len() == 0 ==> r is None,
    {
        let code = str_field(text, "code");
        let message = str_field(text, "message");
        let status = u64_field(text, "status");
        match (code, message, status) {
            (Some(code), Some(message), Some(status)) => {
                if status <= u32::MAX as u64 {
                    Some(ErrorResponse { code, message, status: status as u32 })
                } else {
                    None
                }
            },
            _ => None,
        }
    }
}

/// The generic result of an operation: `{result}`.
#[derive(Debug, Clone)]
pub struct ResultResponse {
    pub result: String,
}

/// The text that speech was turned into: `{text}`.
#[derive(Debug, Clone)]
pub struct AudioToTextResponse {
    pub text: String,
}

/// The result string that a body encodes as a [`ResultResponse`].
pub open spec fn result_shape_of(text: Seq<char>) -> Option<Seq<char>> {
    json_str_field(text, "result"@)
}

/// The text that a body encodes as an [`AudioToTextResponse`].
pub open spec fn transcript_shape_of(text: Seq<char>) -> Option<Seq<char>> {
    json_str_field(text, "text"@)
}

/// The error that a body stands for when it is not the expected value: the
/// service's error if the body encodes one, else the unknown error carrying
/// the body.
pub fn parse_error_response<T>(text: &str) -> (r: Result<T, ClientError>)
    ensures
        result_view(r) == Err::<T, ClientErrorView>(ClientErrorView::Service(service_error_of(text@))),
        text@.len() == 0 ==> result_view(r) == Err::<T, ClientErrorView>(
            ClientErrorView::Service(unknown_shape(text@)),
        ),
{
    match ErrorResponse::from_body(text) {
        Some(e) => Err(ClientError::Service(e)),
        None => Err(ClientError::Service(ErrorResponse::unknown(text))),
    }
}

/// Reconciles a response body: the expected value if the body decoded to
/// one (`success`), else the error that the body stands for.
pub fn parse_response<T>(success: Option<T>, text: &str) -> (r: Result<T, ClientError>)
    ensures
        result_view(r) == reconciled(success, text@),
{
    match success {
        Some(v) => Ok(v),
        None => parse_error_response(text),
    }
}

/// Reconciles a body whose expected value is a [`ResultResponse`].
pub fn parse_result_response(text: &str) -> (r: Result<ResultResponse, ClientError>)
    ensures
        match r {
            Ok(v) => result_shape_of(text@) == Some(v.result@),
            Err(e) => result_shape_of(text@) is None && e@ == ClientErrorView::Service(
                service_error_of(text@),
            ),
        },
{
    let success = match str_field(text, "result") {
        Some(result) => Some(ResultResponse { result }),
        None => None,
    };
    parse_response(success, text)
}

/// Reconciles a body whose expected value is an [`AudioToTextResponse`].
pub fn parse_audio_to_text_response(text: &str) -> (r: Result<AudioToTextResponse, ClientError>)
    ensures
        match r {
            Ok(v) => transcript_shape_of(text@) == Some(v.text@),
            Err(e) => transcript_shape_of(text@) is None && e@ == ClientErrorView::Service(
                service_error_of(text@),
            ),
        },
{
    let success = match str_field(text, "text") {
        Some(text) => Some(AudioToTextResponse { text }),
        None => None,
    };
    parse_response(success, text)
}

/// The reconciler tries the expected value first, the service's error next,
/// and falls back to the unknown error that carries the body: a body that
/// decodes to the expected value gives that value even when it also has the
/// error shape; one that does not but has the error shape gives that error;
/// any other gives code `unknown_error`, status 503 and the body as message.
pub proof fn lemma_reconciler_fallback_order<T>(success: Option<T>, text: Seq<char>)
    ensures
        success matches Some(v) ==> reconciled(success, text) == Ok::<T, ClientErrorView>(v),
        success is None && error_shape_of(text) is Some ==> reconciled(success, text)
            == Err::<T, ClientErrorView>(ClientErrorView::Service(error_shape_of(text)->0)),
        success is None && error_shape_of(text) is None ==> reconciled(success, text)
            == Err::<T, ClientErrorView>(
            ClientErrorView::Service(
                ErrorShape { code: "unknown_error"@, message: text, status: 503 },
            ),
        ),
{
}

/// The outcome of a delete call: success exactly when the status is 204,
/// whatever the body; any other status goes through the error fallback, so
/// an empty body there gives the unknown error.
pub fn finish_conversations_delete(status: u16, text: &str) -> (r: Result<(), ClientError>)
    ensures
        status == 204 ==> r is Ok,
        status != 204 ==> result_view(r) == Err::<(), ClientErrorView>(
            ClientErrorView::Service(service_error_of(text@)),
        ),
        status != 204 && text@.len() == 0 ==> result_view(r) == Err::<(), ClientErrorView>(
            ClientErrorView::Service(unknown_shape(text@)),
        ),
{
    if status == 204 {
        Ok(())
    } else {
        parse_error_response(text)
    }
}

/// Whether a text-to-speech reply carries audio, by its content type: it
/// does when the type starts with `audio/`; a reply without a content type
/// fails.
pub fn is_audio_reply(content_type: Option<&str>) -> (r: Result<bool, ClientError>)
    ensures
        match content_type {
            None => r matches Err(e) && e@ == ClientErrorView::Transport("Content-Type is missing"@),
            Some(t) => r == Ok::<bool, ClientError>(
                "audio/"@.len() <= t@.len() && t@.subrange(0, "audio/"@.len() as int) == "audio/"@,
            ),
        },
{
    match content_type {
        None => Err(ClientError::Transport(String::from_str("Content-Type is missing"))),
        Some(t) => Ok(starts_with(t, "audio/")),
    }
}

} // verus!
