//! Endpoint paths of the service.
use vstd::prelude::*;

verus! {

/// The endpoints of the service.
#[derive(Debug, Clone, Copy, PartialEq, Eq, Structural)]
pub enum ApiPath {
    /// Send a chat message.
    ChatMessages,
    /// Upload a file (an image) for later use in a message.
    FilesUpload,
    /// Stop a streaming chat task.
    ChatMessagesStop,
    /// Give feedback on a message.
    MessagesFeedbacks,
    /// Suggested follow-up questions for a message.
    MessagesSuggested,
    /// History of a conversation.
    Messages,
    /// Conversations of a user.
    Conversations,
    /// Delete a conversation.
    ConversationsDelete,
    /// Rename a conversation.
    ConversationsRename,
    /// Speech to text.
    AudioToText,
    /// Text to speech.
    TextToAudio,
    /// Application parameters.
    Parameters,
    /// Application meta information.
    Meta,
    /// Run a workflow.
    WorkflowsRun,
    /// Stop a streaming workflow task.
    WorkflowsStop,
    /// Send a request to a completion application.
    CompletionMessages,
    /// Stop a streaming completion task.
    CompletionMessagesStop,
}

/// The path template of an endpoint.
pub open spec fn path_template(p: ApiPath) -> Seq<char> {
    match p {
        ApiPath::ChatMessages => "/v1/chat-messages"@,
        ApiPath::FilesUpload => "/v1/files/upload"@,
        ApiPath::ChatMessagesStop => "/v1/chat-messages/{task_id}/stop"@,
        ApiPath::MessagesFeedbacks => "/v1/messages/{message_id}/feedbacks"@,
        ApiPath::MessagesSuggested => "/v1/messages/{message_id}/suggested"@,
        ApiPath::Messages => "/v1/messages"@,
        ApiPath::Conversations => "/v1/conversations"@,
        ApiPath::ConversationsDelete => "/v1/conversations/{conversation_id}"@,
        ApiPath::ConversationsRename => "/v1/conversations/{conversation_id}/name"@,
        ApiPath::AudioToText => "/v1/audio-to-text"@,
        ApiPath::TextToAudio => "/v1/text-to-audio"@,
        ApiPath::Parameters => "/v1/parameters"@,
        ApiPath::Meta => "/v1/meta"@,
        ApiPath::WorkflowsRun => "/v1/workflows/run"@,
        ApiPath::WorkflowsStop => "/v1/workflows/{task_id}/stop"@,
        ApiPath::CompletionMessages => "/v1/completion-messages"@,
        ApiPath::CompletionMessagesStop => "/v1/completion-messages/{task_id}/stop"@,
    }
}

/// Whether the endpoint's path holds a placeholder for an identifier.
pub open spec fn has_placeholder(p: ApiPath) -> bool {
    match p {
        ApiPath::ChatMessagesStop | ApiPath::MessagesFeedbacks | ApiPath::MessagesSuggested
        | ApiPath::ConversationsDelete | ApiPath::ConversationsRename | ApiPath::WorkflowsStop
        | ApiPath::CompletionMessagesStop => true,
        _ => false,
    }
}

/// The placeholder of a templated path.
pub open spec fn path_placeholder(p: ApiPath) -> Seq<char> {
    match p {
        ApiPath::ChatMessagesStop | ApiPath::WorkflowsStop
        | ApiPath::CompletionMessagesStop => "{task_id}"@,
        ApiPath::MessagesFeedbacks | ApiPath::MessagesSuggested => "{message_id}"@,
        _ => "{conversation_id}"@,
    }
}

/// What stands before the placeholder of a templated path.
pub open spec fn path_prefix(p: ApiPath) -> Seq<char> {
    match p {
        ApiPath::ChatMessagesStop => "/v1/chat-messages/"@,
        ApiPath::MessagesFeedbacks | ApiPath::MessagesSuggested => "/v1/messages/"@,
        ApiPath::ConversationsDelete | ApiPath::ConversationsRename => "/v1/conversations/"@,
        ApiPath::WorkflowsStop => "/v1/workflows/"@,
        ApiPath::CompletionMessagesStop => "/v1/completion-messages/"@,
        _ => path_template(p),
    }
}

/// What follows the placeholder of a templated path.
pub open spec fn path_suffix(p: ApiPath) -> Seq<char> {
    match p {
        ApiPath::ChatMessagesStop | ApiPath::WorkflowsStop
        | ApiPath::CompletionMessagesStop => "/stop"@,
        ApiPath::MessagesFeedbacks => "/feedbacks"@,
        ApiPath::MessagesSuggested => "/suggested"@,
        ApiPath::ConversationsRename => "/name"@,
        _ => Seq::empty(),
    }
}

/// The path of an endpoint with its placeholder, if any, replaced by `id`.
pub open spec fn filled_path(p: ApiPath, id: Seq<char>) -> Seq<char> {
    if has_placeholder(p) {
        path_prefix(p) + id + path_suffix(p)
    } else {
        path_template(p)
    }
}

/// A templated path is its prefix, its placeholder and its suffix, in that order.
pub proof fn lemma_template_parts(p: ApiPath)
    requires
        has_placeholder(p),
    ensures
        path_template(p) == path_prefix(p) + path_placeholder(p) + path_suffix(p),
{
    reveal_strlit("{task_id}");
    reveal_strlit("{message_id}");
    reveal_strlit("{conversation_id}");
    reveal_strlit("/stop");
    reveal_strlit("/feedbacks");
    reveal_strlit("/suggested");
    reveal_strlit("/name");
    match p {
        ApiPath::ChatMessagesStop => {
            reveal_strlit("/v1/chat-messages/{task_id}/stop");
            reveal_strlit("/v1/chat-messages/");
            assert(path_template(p) =~= path_prefix(p) + path_placeholder(p) + path_suffix(p));
        },
        ApiPath::MessagesFeedbacks => {
            reveal_strlit("/v1/messages/{message_id}/feedbacks");
            reveal_strlit("/v1/messages/");
            assert(path_template(p) =~= path_prefix(p) + path_placeholder(p) + path_suffix(p));
        },
        ApiPath::MessagesSuggested => {
            reveal_strlit("/v1/messages/{message_id}/suggested");
            reveal_strlit("/v1/messages/");
            assert(path_template(p) =~= path_prefix(p) + path_placeholder(p) + path_suffix(p));
        },
        ApiPath::ConversationsDelete => {
            reveal_strlit("/v1/conversations/{conversation_id}");
            reveal_strlit("/v1/conversations/");
            assert(path_template(p) =~= path_prefix(p) + path_placeholder(p) + path_suffix(p));
        },
        ApiPath::ConversationsRename => {
            reveal_strlit("/v1/conversations/{conversation_id}/name");
            reveal_strlit("/v1/conversations/");
            assert(path_template(p) =~= path_prefix(p) + path_placeholder(p) + path_suffix(p));
        },
        ApiPath::WorkflowsStop => {
            reveal_strlit("/v1/workflows/{task_id}/stop");
            reveal_strlit("/v1/workflows/");
            assert(path_template(p) =~= path_prefix(p) + path_placeholder(p) + path_suffix(p));
        },
        _ => {
            reveal_strlit("/v1/completion-messages/{task_id}/stop");
            reveal_strlit("/v1/completion-messages/");
            assert(path_template(p) =~= path_prefix(p) + path_placeholder(p) + path_suffix(p));
        },
    }
}

impl ApiPath {
    /// The path template of the endpoint, with its placeholder if it has one.
    pub fn as_str(&self) -> (r: &'static str)
        ensures
            r@ == path_template(*self),
    {
        match self {
            ApiPath::ChatMessages => "/v1/chat-messages",
            ApiPath::FilesUpload => "/v1/files/upload",
            ApiPath::ChatMessagesStop => "/v1/chat-messages/{task_id}/stop",
            ApiPath::MessagesFeedbacks => "/v1/messages/{message_id}/feedbacks",
            ApiPath::MessagesSuggested => "/v1/messages/{message_id}/suggested",
            ApiPath::Messages => "/v1/messages",
            ApiPath::Conversations => "/v1/conversations",
            ApiPath::ConversationsDelete => "/v1/conversations/{conversation_id}",
            ApiPath::ConversationsRename => "/v1/conversations/{conversation_id}/name",
            ApiPath::AudioToText => "/v1/audio-to-text",
            ApiPath::TextToAudio => "/v1/text-to-audio",
            ApiPath::Parameters => "/v1/parameters",
            ApiPath::Meta => "/v1/meta",
            ApiPath::WorkflowsRun => "/v1/workflows/run",
            ApiPath::WorkflowsStop => "/v1/workflows/{task_id}/stop",
            ApiPath::CompletionMessages => "/v1/completion-messages",
            ApiPath::CompletionMessagesStop => "/v1/completion-messages/{task_id}/stop",
        }
    }
}

/// The full URL of an endpoint without placeholder: the base URL followed by
/// the endpoint's path.
pub fn request_url(base_url: &str, path: ApiPath) -> (r: String)
    ensures
        r@ == base_url@ + path_template(path),
{
    let url = String::from_str(base_url);
    url.concat(path.as_str())
}

/// The full URL of an endpoint whose placeholder is replaced by `id`.
pub fn request_url_with_id(base_url: &str, path: ApiPath, id: &str) -> (r: String)
    requires
        has_placeholder(path),
    ensures
        r@ == base_url@ + filled_path(path, id@),
{
    let (prefix, suffix): (&str, &str) = match path {
        ApiPath::ChatMessagesStop => ("/v1/chat-messages/", "/stop"),
        ApiPath::MessagesFeedbacks => ("/v1/messages/", "/feedbacks"),
        ApiPath::MessagesSuggested => ("/v1/messages/", "/suggested"),
        ApiPath::ConversationsDelete => ("/v1/conversations/", ""),
        ApiPath::ConversationsRename => ("/v1/conversations/", "/name"),
        ApiPath::WorkflowsStop => ("/v1/workflows/", "/stop"),
        _ => ("/v1/completion-messages/", "/stop"),
    };
    proof {
        reveal_strlit("");
    }
    let url = String::from_str(base_url);
    let url = url.concat(prefix);
    let url = url.concat(id);
    let url = url.concat(suffix);
    assert(url@ =~= base_url@ + filled_path(path, id@));
    url
}

} // verus!
