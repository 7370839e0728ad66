//! The requests that callers hand to the service.
use vstd::prelude::*;
use std::collections::HashMap;

verus! {

/// A chat message to send.
#[derive(Debug, Default)]
pub struct ChatMessageRequest {
    /// Values of the variables that the application defines.
    pub inputs: HashMap<String, String>,
    /// The user's question.
    pub query: String,
    /// Whether the answer comes in one body or as a stream of events.
    pub response_mode: ResponseMode,
    /// The end user's identity, unique within the application.
    pub user: String,
    /// The conversation to continue; empty for a new one.
    pub conversation_id: String,
    /// Files sent with the message.
    pub files: Vec<ChatMessageFile>,
    /// Whether the service names the conversation by itself.
    pub auto_generate_name: bool,
}

/// How the answer is delivered, chosen by the caller before the request leaves.
#[derive(Debug, Default, Clone, Copy, PartialEq, Eq, Structural)]
pub enum ResponseMode {
    /// The whole answer in one body.
    #[default]
    Blocking,
    /// The answer as a stream of server-sent events.
    Streaming,
}

/// The kind of a file sent with a message.
#[derive(Debug, Clone, Copy, PartialEq, Eq, Structural)]
pub enum FileType {
    Image,
}

/// A file sent with a message.
#[derive(Debug)]
pub enum ChatMessageFile {
    /// A file given by its address.
    RemoteUrl { type_: FileType, url: String },
    /// A file uploaded earlier, given by its upload id.
    LocalFile { type_: FileType, upload_file_id: String },
}

/// A request to stop a streaming task.
#[derive(Debug)]
pub struct StreamTaskStopRequest {
    /// The task, as named in the events of its stream.
    pub task_id: String,
    /// The end user who started the task.
    pub user: String,
}

/// A request for the suggested follow-up questions of a message.
#[derive(Debug)]
pub struct MessagesSuggestedRequest {
    pub message_id: String,
}

/// Feedback on a message.
#[derive(Debug)]
pub struct MessagesFeedbacksRequest {
    pub message_id: String,
    /// A like, a dislike, or `None` to withdraw one.
    pub rating: Option<Feedback>,
    pub user: String,
}

/// A rating of a message.
#[derive(Debug, Clone, Copy, PartialEq, Eq, Structural)]
pub enum Feedback {
    Like,
    Dislike,
}

/// A request for the history of a conversation, newest first.
#[derive(Debug, Default)]
pub struct MessagesRequest {
    pub conversation_id: String,
    pub user: String,
    /// The first message of the current page.
    pub first_id: Option<String>,
    /// How many messages to return.
    pub limit: Option<u32>,
}

/// A request for the conversations of a user.
#[derive(Debug, Default)]
pub struct ConversationsRequest {
    pub user: String,
    /// The last conversation of the current page.
    pub last_id: Option<String>,
    /// How many conversations to return.
    pub limit: Option<u32>,
    /// Only pinned conversations, or only the others.
    pub pinned: bool,
}

/// A request for the parameters of the application.
#[derive(Debug)]
pub struct ParametersRequest {
    pub user: String,
}

/// A request for the meta information of the application.
#[derive(Debug)]
pub struct MetaRequest {
    pub user: String,
}

/// A request to rename a conversation.
#[derive(Debug, Default)]
pub struct ConversationsRenameRequest {
    pub conversation_id: String,
    /// The new name; may be left out when the service generates one.
    pub name: Option<String>,
    /// Whether the service generates the name.
    pub auto_generate: bool,
    pub user: String,
}

/// A request to delete a conversation.
#[derive(Debug, Default)]
pub struct ConversationsDeleteRequest {
    pub conversation_id: String,
    pub user: String,
}

/// A request to turn text into speech.
#[derive(Debug, Default)]
pub struct TextToAudioRequest {
    pub text: String,
    pub user: String,
    /// Whether the audio is streamed.
    pub streaming: bool,
}

/// A request to run a workflow.
#[derive(Debug, Default)]
pub struct WorkflowsRunRequest {
    /// Values of the variables that the application defines.
    pub inputs: HashMap<String, String>,
    /// Whether the result comes in one body or as a stream of events.
    pub response_mode: ResponseMode,
    pub user: String,
    /// Files given to the workflow.
    pub files: Vec<ChatMessageFile>,
}

/// A request to a completion application.
#[derive(Debug, Default)]
pub struct CompletionMessagesRequest {
    /// Values of the variables that the application defines.
    pub inputs: HashMap<String, String>,
    /// Whether the answer comes in one body or as a stream of events.
    pub response_mode: ResponseMode,
    pub user: String,
    pub conversation_id: String,
    /// Files sent with the request.
    pub files: Vec<ChatMessageFile>,
}

} // verus!
