//! What each call checks and builds before its request leaves.
//!
//! Every check here runs before any I/O: a call whose arguments are rejected
//! never reaches the transport.
use vstd::prelude::*;
use crate::api::{
    filled_path, path_template, request_url, request_url_with_id, ApiPath,
};
use crate::error::{validation, ClientError, ClientErrorView};
use crate::request::{
    ChatMessageRequest, CompletionMessagesRequest, ConversationsDeleteRequest,
    ConversationsRenameRequest, ConversationsRequest, MessagesFeedbacksRequest, MessagesRequest,
    MessagesSuggestedRequest, MetaRequest, ParametersRequest, ResponseMode,
    StreamTaskStopRequest, TextToAudioRequest, WorkflowsRunRequest,
};

verus! {

/// A request ready to be sent: where it goes and what its body holds.
#[derive(Debug)]
pub struct Prepared<B> {
    pub url: String,
    pub body: B,
}

/// The endpoints that stop a streaming task.
pub open spec fn is_stop_path(p: ApiPath) -> bool {
    p == ApiPath::ChatMessagesStop || p == ApiPath::WorkflowsStop || p
        == ApiPath::CompletionMessagesStop
}

/// A chat message request, sent in the given response mode.
pub fn prepare_chat_messages(base_url: &str, req: ChatMessageRequest, mode: ResponseMode) -> (r:
    Prepared<ChatMessageRequest>)
    ensures
        r.url@ == base_url@ + path_template(ApiPath::ChatMessages),
        r.body == (ChatMessageRequest { response_mode: mode, ..req }),
{
    let mut body = req;
    body.response_mode = mode;
    Prepared { url: request_url(base_url, ApiPath::ChatMessages), body }
}

/// A workflow run request, sent in the given response mode.
pub fn prepare_workflows_run(base_url: &str, req: WorkflowsRunRequest, mode: ResponseMode) -> (r:
    Prepared<WorkflowsRunRequest>)
    ensures
        r.url@ == base_url@ + path_template(ApiPath::WorkflowsRun),
        r.body == (WorkflowsRunRequest { response_mode: mode, ..req }),
{
    let mut body = req;
    body.response_mode = mode;
    Prepared { url: request_url(base_url, ApiPath::WorkflowsRun), body }
}

/// A completion request, sent in the given response mode.
pub fn prepare_completion_messages(
    base_url: &str,
    req: CompletionMessagesRequest,
    mode: ResponseMode,
) -> (r: Prepared<CompletionMessagesRequest>)
    ensures
        r.url@ == base_url@ + path_template(ApiPath::CompletionMessages),
        r.body == (CompletionMessagesRequest { response_mode: mode, ..req }),
{
    let mut body = req;
    body.response_mode = mode;
    Prepared { url: request_url(base_url, ApiPath::CompletionMessages), body }
}

/// A request to stop a streaming task: rejected when the task id is empty;
/// else the id moves from the body into the path, and the user stays.
pub fn prepare_stream_task_stop(base_url: &str, req: StreamTaskStopRequest, path: ApiPath) -> (r:
    Result<Prepared<StreamTaskStopRequest>, ClientError>)
    requires
        is_stop_path(path),
    ensures
        match r {
            Ok(c) => {
                &&& req.task_id@.len() > 0
                &&& c.url@ == base_url@ + filled_path(path, req.task_id@)
                &&& c.body.task_id@.len() == 0
                &&& c.body.user@ == req.user@
            },
            Err(e) => req.task_id@.len() == 0 && e@ == ClientErrorView::Validation(
                "StreamTaskStopRequest.TaskId Illegal"@,
            ),
        },
{
    if req.task_id.as_str().is_empty() {
        return Err(validation("StreamTaskStopRequest.TaskId Illegal"));
    }
    let url = request_url_with_id(base_url, path, req.task_id.as_str());
    Ok(Prepared { url, body: StreamTaskStopRequest { task_id: String::new(), user: req.user } })
}

/// A request for suggested questions: rejected when the message id is
/// empty; else the id moves from the body into the path.
pub fn prepare_messages_suggested(base_url: &str, req: MessagesSuggestedRequest) -> (r: Result<
    Prepared<MessagesSuggestedRequest>,
    ClientError,
>)
    ensures
        match r {
            Ok(c) => {
                &&& req.message_id@.len() > 0
                &&& c.url@ == base_url@ + filled_path(ApiPath::MessagesSuggested, req.message_id@)
                &&& c.body.message_id@.len() == 0
            },
            Err(e) => req.message_id@.len() == 0 && e@ == ClientErrorView::Validation(
                "MessagesSuggestedRequest.MessageID Illegal"@,
            ),
        },
{
    if req.message_id.as_str().is_empty() {
        return Err(validation("MessagesSuggestedRequest.MessageID Illegal"));
    }
    let url = request_url_with_id(base_url, ApiPath::MessagesSuggested, req.message_id.as_str());
    Ok(Prepared { url, body: MessagesSuggestedRequest { message_id: String::new() } })
}

/// Feedback on a message: rejected when the message id is empty; else the
/// id moves from the body into the path, and rating and user stay.
pub fn prepare_messages_feedbacks(base_url: &str, req: MessagesFeedbacksRequest) -> (r: Result<
    Prepared<MessagesFeedbacksRequest>,
    ClientError,
>)
    ensures
        match r {
            Ok(c) => {
                &&& req.message_id@.len() > 0
                &&& c.url@ == base_url@ + filled_path(ApiPath::MessagesFeedbacks, req.message_id@)
                &&& c.body.message_id@.len() == 0
                &&& c.body.rating == req.rating
                &&& c.body.user@ == req.user@
            },
            Err(e) => req.message_id@.len() == 0 && e@ == ClientErrorView::Validation(
                "MessagesFeedbacksRequest.MessageID Illegal"@,
            ),
        },
{
    if req.message_id.as_str().is_empty() {
        return Err(validation("MessagesFeedbacksRequest.MessageID Illegal"));
    }
    let url = request_url_with_id(base_url, ApiPath::MessagesFeedbacks, req.message_id.as_str());
    Ok(
        Prepared {
            url,
            body: MessagesFeedbacksRequest {
                message_id: String::new(),
                rating: req.rating,
                user: req.user,
            },
        },
    )
}

/// A request for a user's conversations: rejected when the user is empty.
pub fn prepare_conversations(base_url: &str, req: ConversationsRequest) -> (r: Result<
    Prepared<ConversationsRequest>,
    ClientError,
>)
    ensures
        match r {
            Ok(c) => {
                &&& req.user@.len() > 0
                &&& c.url@ == base_url@ + path_template(ApiPath::Conversations)
                &&& c.body == req
            },
            Err(e) => req.user@.len() == 0 && e@ == ClientErrorView::Validation(
                "ConversationsRequest.User Illegal"@,
            ),
        },
{
    if req.user.as_str().is_empty() {
        return Err(validation("ConversationsRequest.User Illegal"));
    }
    Ok(Prepared { url: request_url(base_url, ApiPath::Conversations), body: req })
}

/// A request for a conversation's history: rejected when the conversation
/// id is empty.
pub fn prepare_messages(base_url: &str, req: MessagesRequest) -> (r: Result<
    Prepared<MessagesRequest>,
    ClientError,
>)
    ensures
        match r {
            Ok(c) => {
                &&& req.conversation_id@.len() > 0
                &&& c.url@ == base_url@ + path_template(ApiPath::Messages)
                &&& c.body == req
            },
            Err(e) => req.conversation_id@.len() == 0 && e@ == ClientErrorView::Validation(
                "MessagesRequest.ConversationID Illegal"@,
            ),
        },
{
    if req.conversation_id.as_str().is_empty() {
        return Err(validation("MessagesRequest.ConversationID Illegal"));
    }
    Ok(Prepared { url: request_url(base_url, ApiPath::Messages), body: req })
}

/// A request to rename a conversation: rejected when the conversation id is
/// empty, or when it gives no name and does not ask the service to generate
/// one; else the id moves from the body into the path.
pub fn prepare_conversations_renaming(base_url: &str, req: ConversationsRenameRequest) -> (r:
    Result<Prepared<ConversationsRenameRequest>, ClientError>)
    ensures
        match r {
            Ok(c) => {
                &&& req.conversation_id@.len() > 0
                &&& (req.name is Some || req.auto_generate)
                &&& c.url@ == base_url@ + filled_path(
                    ApiPath::ConversationsRename,
                    req.conversation_id@,
                )
                &&& c.body.conversation_id@.len() == 0
                &&& c.body.name == req.name
                &&& c.body.auto_generate == req.auto_generate
                &&& c.body.user@ == req.user@
            },
            Err(e) => if req.conversation_id@.len() == 0 {
                e@ == ClientErrorView::Validation(
                    "ConversationsRenameRequest.ConversationID Illegal"@,
                )
            } else {
                req.name is None && !req.auto_generate && e@ == ClientErrorView::Validation(
                    "ConversationsRenameRequest.Name Illegal"@,
                )
            },
        },
{
    if req.conversation_id.as_str().is_empty() {
        return Err(validation("ConversationsRenameRequest.ConversationID Illegal"));
    }
    if req.name.is_none() && !req.auto_generate {
        return Err(validation("ConversationsRenameRequest.Name Illegal"));
    }
    let url = request_url_with_id(
        base_url,
        ApiPath::ConversationsRename,
        req.conversation_id.as_str(),
    );
    Ok(
        Prepared {
            url,
            body: ConversationsRenameRequest {
                conversation_id: String::new(),
                name: req.name,
                auto_generate: req.auto_generate,
                user: req.user,
            },
        },
    )
}

/// A request to delete a conversation: rejected when the conversation id is
/// empty; else the id moves from the body into the path.
pub fn prepare_conversations_delete(base_url: &str, req: ConversationsDeleteRequest) -> (r:
    Result<Prepared<ConversationsDeleteRequest>, ClientError>)
    ensures
        match r {
            Ok(c) => {
                &&& req.conversation_id@.len() > 0
                &&& c.url@ == base_url@ + filled_path(
                    ApiPath::ConversationsDelete,
                    req.conversation_id@,
                )
                &&& c.body.conversation_id@.len() == 0
                &&& c.body.user@ == req.user@
            },
            Err(e) => req.conversation_id@.len() == 0 && e@ == ClientErrorView::Validation(
                "ConversationsDeleteRequest.ConversationID Illegal"@,
            ),
        },
{
    if req.conversation_id.as_str().is_empty() {
        return Err(validation("ConversationsDeleteRequest.ConversationID Illegal"));
    }
    let url = request_url_with_id(
        base_url,
        ApiPath::ConversationsDelete,
        req.conversation_id.as_str(),
    );
    Ok(
        Prepared {
            url,
            body: ConversationsDeleteRequest { conversation_id: String::new(), user: req.user },
        },
    )
}

/// A request to turn text into speech: rejected when the text is empty.
pub fn prepare_text_to_audio(base_url: &str, req: TextToAudioRequest) -> (r: Result<
    Prepared<TextToAudioRequest>,
    ClientError,
>)
    ensures
        match r {
            Ok(c) => {
                &&& req.text@.len() > 0
                &&& c.url@ == base_url@ + path_template(ApiPath::TextToAudio)
                &&& c.body == req
            },
            Err(e) => req.text@.len() == 0 && e@ == ClientErrorView::Validation(
                "TextToAudioRequest.Text Illegal"@,
            ),
        },
{
    if req.text.as_str().is_empty() {
        return Err(validation("TextToAudioRequest.Text Illegal"));
    }
    Ok(Prepared { url: request_url(base_url, ApiPath::TextToAudio), body: req })
}

/// A request for the application's parameters: rejected when the user is empty.
pub fn prepare_parameters(base_url: &str, req: ParametersRequest) -> (r: Result<
    Prepared<ParametersRequest>,
    ClientError,
>)
    ensures
        match r {
            Ok(c) => {
                &&& req.user@.len() > 0
                &&& c.url@ == base_url@ + path_template(ApiPath::Parameters)
                &&& c.body == req
            },
            Err(e) => req.user@.len() == 0 && e@ == ClientErrorView::Validation(
                "ParametersRequest.User Illegal"@,
            ),
        },
{
    if req.user.as_str().is_empty() {
        return Err(validation("ParametersRequest.User Illegal"));
    }
    Ok(Prepared { url: request_url(base_url, ApiPath::Parameters), body: req })
}

/// A request for the application's meta information: rejected when the user
/// is empty.
pub fn prepare_meta(base_url: &str, req: MetaRequest) -> (r: Result<
    Prepared<MetaRequest>,
    ClientError,
>)
    ensures
        match r {
            Ok(c) => {
                &&& req.user@.len() > 0
                &&& c.url@ == base_url@ + path_template(ApiPath::Meta)
                &&& c.body == req
            },
            Err(e) => req.user@.len() == 0 && e@ == ClientErrorView::Validation(
                "MetaRequest.User Illegal"@,
            ),
        },
{
    if req.user.as_str().is_empty() {
        return Err(validation("MetaRequest.User Illegal"));
    }
    Ok(Prepared { url: request_url(base_url, ApiPath::Meta), body: req })
}

} // verus!
