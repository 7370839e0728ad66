use dify_client::api::{request_url, request_url_with_id, ApiPath};
use dify_client::prepare::{
    prepare_chat_messages, prepare_conversations, prepare_conversations_delete,
    prepare_conversations_renaming, prepare_messages, prepare_messages_feedbacks,
    prepare_messages_suggested, prepare_meta, prepare_parameters, prepare_stream_task_stop,
    prepare_text_to_audio,
};
use dify_client::request::{
    ChatMessageRequest, ConversationsDeleteRequest, ConversationsRenameRequest,
    ConversationsRequest, Feedback, MessagesFeedbacksRequest, MessagesRequest,
    MessagesSuggestedRequest, MetaRequest, ParametersRequest, ResponseMode,
    StreamTaskStopRequest, TextToAudioRequest,
};
use dify_client::upload::{prepare_audio_to_text, prepare_files_upload};
use dify_client::ClientError;

const BASE: &str = "https://api.dify.ai";

fn validation(e: ClientError) -> String {
    match e {
        ClientError::Validation(m) => m,
        other => panic!("not a validation error: {:?}", other),
    }
}

#[test]
fn api_path_strings() {
    assert_eq!(ApiPath::ChatMessages.as_str(), "/v1/chat-messages");
    assert_eq!(ApiPath::ChatMessagesStop.as_str(), "/v1/chat-messages/{task_id}/stop");
    assert_eq!(ApiPath::ConversationsRename.as_str(), "/v1/conversations/{conversation_id}/name");
    assert_eq!(ApiPath::Meta.as_str(), "/v1/meta");
}

#[test]
fn urls_are_built() {
    assert_eq!(request_url(BASE, ApiPath::Parameters), "https://api.dify.ai/v1/parameters");
    assert_eq!(
        request_url_with_id(BASE, ApiPath::WorkflowsStop, "t-1"),
        "https://api.dify.ai/v1/workflows/t-1/stop"
    );
    assert_eq!(
        request_url_with_id(BASE, ApiPath::ConversationsDelete, "c9"),
        "https://api.dify.ai/v1/conversations/c9"
    );
}

#[test]
fn stop_with_empty_task_id_is_rejected() {
    let req = StreamTaskStopRequest { task_id: String::new(), user: "afa".into() };
    let e = prepare_stream_task_stop(BASE, req, ApiPath::ChatMessagesStop).unwrap_err();
    assert_eq!(validation(e), "StreamTaskStopRequest.TaskId Illegal");
}

#[test]
fn stop_moves_task_id_into_path() {
    let req = StreamTaskStopRequest { task_id: "task_id".into(), user: "afa".into() };
    let c = prepare_stream_task_stop(BASE, req, ApiPath::CompletionMessagesStop).unwrap();
    assert_eq!(c.url, "https://api.dify.ai/v1/completion-messages/task_id/stop");
    assert_eq!(c.body.task_id, "");
    assert_eq!(c.body.user, "afa");
}

#[test]
fn chat_messages_sets_mode() {
    let req = ChatMessageRequest { query: "how are you?".into(), user: "afa".into(), ..Default::default() };
    let c = prepare_chat_messages(BASE, req, ResponseMode::Streaming);
    assert_eq!(c.url, "https://api.dify.ai/v1/chat-messages");
    assert_eq!(c.body.response_mode, ResponseMode::Streaming);
    assert_eq!(c.body.query, "how are you?");
}

#[test]
fn suggested_and_feedbacks_validate_message_id() {
    let e = prepare_messages_suggested(BASE, MessagesSuggestedRequest { message_id: String::new() })
        .unwrap_err();
    assert_eq!(validation(e), "MessagesSuggestedRequest.MessageID Illegal");
    let c = prepare_messages_suggested(BASE, MessagesSuggestedRequest { message_id: "m1".into() })
        .unwrap();
    assert_eq!(c.url, "https://api.dify.ai/v1/messages/m1/suggested");
    assert_eq!(c.body.message_id, "");
    let req = MessagesFeedbacksRequest { message_id: "m2".into(), rating: Some(Feedback::Like), user: "afa".into() };
    let c = prepare_messages_feedbacks(BASE, req).unwrap();
    assert_eq!(c.url, "https://api.dify.ai/v1/messages/m2/feedbacks");
    assert_eq!(c.body.rating, Some(Feedback::Like));
    let req = MessagesFeedbacksRequest { message_id: String::new(), rating: None, user: "afa".into() };
    assert_eq!(validation(prepare_messages_feedbacks(BASE, req).unwrap_err()), "MessagesFeedbacksRequest.MessageID Illegal");
}

#[test]
fn listing_calls_validate_user_and_conversation() {
    let e = prepare_conversations(BASE, ConversationsRequest::default()).unwrap_err();
    assert_eq!(validation(e), "ConversationsRequest.User Illegal");
    let c = prepare_conversations(BASE, ConversationsRequest { user: "afa".into(), ..Default::default() }).unwrap();
    assert_eq!(c.url, "https://api.dify.ai/v1/conversations");
    let e = prepare_messages(BASE, MessagesRequest::default()).unwrap_err();
    assert_eq!(validation(e), "MessagesRequest.ConversationID Illegal");
    let e = prepare_parameters(BASE, ParametersRequest { user: String::new() }).unwrap_err();
    assert_eq!(validation(e), "ParametersRequest.User Illegal");
    let e = prepare_meta(BASE, MetaRequest { user: String::new() }).unwrap_err();
    assert_eq!(validation(e), "MetaRequest.User Illegal");
    let c = prepare_meta(BASE, MetaRequest { user: "afa".into() }).unwrap();
    assert_eq!(c.url, "https://api.dify.ai/v1/meta");
}

#[test]
fn rename_needs_name_or_auto_generate() {
    let req = ConversationsRenameRequest { conversation_id: "c1".into(), user: "afa".into(), ..Default::default() };
    let e = prepare_conversations_renaming(BASE, req).unwrap_err();
    assert_eq!(validation(e), "ConversationsRenameRequest.Name Illegal");
    let req = ConversationsRenameRequest { conversation_id: "c1".into(), auto_generate: true, ..Default::default() };
    let c = prepare_conversations_renaming(BASE, req).unwrap();
    assert_eq!(c.url, "https://api.dify.ai/v1/conversations/c1/name");
    assert_eq!(c.body.conversation_id, "");
    let req = ConversationsRenameRequest { conversation_id: "c1".into(), name: Some("n".into()), ..Default::default() };
    assert!(prepare_conversations_renaming(BASE, req).is_ok());
    let e = prepare_conversations_renaming(BASE, ConversationsRenameRequest::default()).unwrap_err();
    assert_eq!(validation(e), "ConversationsRenameRequest.ConversationID Illegal");
}

#[test]
fn delete_and_text_to_audio_validate() {
    let e = prepare_conversations_delete(BASE, ConversationsDeleteRequest::default()).unwrap_err();
    assert_eq!(validation(e), "ConversationsDeleteRequest.ConversationID Illegal");
    let req = ConversationsDeleteRequest { conversation_id: "c2".into(), user: "afa".into() };
    let c = prepare_conversations_delete(BASE, req).unwrap();
    assert_eq!(c.url, "https://api.dify.ai/v1/conversations/c2");
    assert_eq!(c.body.user, "afa");
    let e = prepare_text_to_audio(BASE, TextToAudioRequest::default()).unwrap_err();
    assert_eq!(validation(e), "TextToAudioRequest.Text Illegal");
}

#[test]
fn upload_sniffs_image_type() {
    let png = [0x89u8, 0x50, 0x4E, 0x47, 0x0D, 0x0A, 0x1A, 0x0A, 0, 0, 0, 0];
    let plan = prepare_files_upload(BASE, &png).unwrap();
    assert_eq!(plan.url, "https://api.dify.ai/v1/files/upload");
    assert_eq!(plan.file_name, "image_file.png");
    assert_eq!(plan.mime_type, "image/png");
    let e = prepare_files_upload(BASE, b"plain text").unwrap_err();
    assert_eq!(validation(e), "FilesUploadRequest.File Illegal");
}

#[test]
fn audio_upload_sniffs_audio_type() {
    let e = prepare_audio_to_text(BASE, &[0x89u8, 0x50, 0x4E, 0x47, 0x0D, 0x0A, 0x1A, 0x0A]).unwrap_err();
    assert_eq!(validation(e), "AudioToTextRequest.File Illegal");
    let mp3 = [0x49u8, 0x44, 0x33, 0x03, 0, 0, 0, 0, 0, 0];
    let plan = prepare_audio_to_text(BASE, &mp3).unwrap();
    assert_eq!(plan.file_name, "audio_file.mp3");
    assert_eq!(plan.mime_type, "audio/mpeg");
}
