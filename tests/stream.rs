use dify_client::driver::StreamCollector;
use dify_client::sse::{decode_frame, DecodeStep, EventKind, Pulled, SseDecoder, SseFrame};
use dify_client::ClientError;

fn frame(event: &str, data: &str) -> SseFrame {
    SseFrame { event: event.to_string(), data: data.to_string() }
}

fn answer_of(data: &str) -> String {
    let v: serde_json::Value = serde_json::from_str(data).unwrap();
    v["answer"].as_str().unwrap().to_string()
}

/// Runs the decoder and the collector over the pulled items, projecting
/// message events to their answer.
fn run(items: Vec<Pulled>) -> Result<Vec<String>, ClientError> {
    let mut decoder = SseDecoder::new();
    let mut collector = StreamCollector::new();
    let mut items = items.into_iter();
    loop {
        let pulled = items.next().unwrap_or(Pulled::Exhausted);
        match decoder.step(pulled) {
            DecodeStep::Skip => {}
            DecodeStep::End => return Ok(collector.finish()),
            DecodeStep::Fail(e) => {
                collector.accept(Err(e))?;
            }
            DecodeStep::Emit { kind, data } => {
                let outcome = if kind == EventKind::Message { Ok(Some(answer_of(&data))) } else { Ok(None) };
                collector.accept(outcome)?;
            }
        }
    }
}

#[test]
fn two_frame_stream_scenario() {
    let items = vec![
        Pulled::Frame(frame("message", r#"{"event":"message","answer":"Hi","id":"m1","task_id":"t1"}"#)),
        Pulled::Frame(frame(
            "message",
            r#"{"event":"message_end","id":"m1","task_id":"t1","metadata":{}}"#,
        )),
    ];
    assert_eq!(run(items).unwrap(), vec!["Hi".to_string()]);
}

#[test]
fn other_channels_are_dropped() {
    let f = frame("ping", r#"{"event":"message","answer":"x"}"#);
    assert!(matches!(decode_frame(f), DecodeStep::Skip));
    let items = vec![
        Pulled::Frame(frame("", r#"{"event":"message","answer":"no"}"#)),
        Pulled::Frame(frame("message", r#"{"event":"message","answer":"yes"}"#)),
        Pulled::Frame(frame("update", "not json at all")),
    ];
    assert_eq!(run(items).unwrap(), vec!["yes".to_string()]);
}

#[test]
fn unknown_event_kind_fails() {
    let f = frame("message", r#"{"event":"tts_message","audio":""}"#);
    match decode_frame(f) {
        DecodeStep::Fail(ClientError::UnknownEvent { tag, .. }) => assert_eq!(tag, "tts_message"),
        other => panic!("unexpected {:?}", other),
    }
}

#[test]
fn payload_without_tag_fails() {
    let f = frame("message", "{not json");
    match decode_frame(f) {
        DecodeStep::Fail(ClientError::Decode { data, .. }) => assert_eq!(data, "{not json"),
        other => panic!("unexpected {:?}", other),
    }
}

#[test]
fn ping_is_passed_through() {
    match decode_frame(frame("message", r#"{"event":"ping"}"#)) {
        DecodeStep::Emit { kind, .. } => assert_eq!(kind, EventKind::Ping),
        other => panic!("unexpected {:?}", other),
    }
}

#[test]
fn order_is_preserved() {
    let items = (0..5)
        .map(|i| Pulled::Frame(frame("message", &format!(r#"{{"event":"message","answer":"a{}"}}"#, i))))
        .collect();
    let out = run(items).unwrap();
    assert_eq!(out, vec!["a0", "a1", "a2", "a3", "a4"]);
}

#[test]
fn malformed_frame_fails_whole_call() {
    for k in 0..3 {
        let items = (0..4)
            .map(|i| {
                if i == k {
                    Pulled::Frame(frame("message", r#"{"event":"bogus"}"#))
                } else {
                    Pulled::Frame(frame("message", r#"{"event":"message","answer":"ok"}"#))
                }
            })
            .collect();
        assert!(run(items).is_err());
    }
}

#[test]
fn transport_error_terminates_decoder() {
    let mut decoder = SseDecoder::new();
    match decoder.step(Pulled::Failed("reset".to_string())) {
        DecodeStep::Fail(ClientError::Transport(m)) => assert_eq!(m, "reset"),
        other => panic!("unexpected {:?}", other),
    }
    assert!(decoder.is_terminated());
    let again = decoder.step(Pulled::Frame(frame("message", r#"{"event":"ping"}"#)));
    assert!(matches!(again, DecodeStep::End));
}

#[test]
fn exhausted_stream_does_not_restart() {
    let mut decoder = SseDecoder::new();
    assert!(matches!(decoder.step(Pulled::Exhausted), DecodeStep::End));
    assert!(matches!(
        decoder.step(Pulled::Frame(frame("message", r#"{"event":"ping"}"#))),
        DecodeStep::End
    ));
}

#[test]
fn rejected_payload_terminates_decoder() {
    let mut decoder = SseDecoder::new();
    let e = decoder.reject("{}".to_string(), "missing field".to_string());
    assert!(matches!(e, ClientError::Decode { .. }));
    assert!(decoder.is_terminated());
}

#[test]
fn projector_error_fails_fast() {
    let mut collector: StreamCollector<u32> = StreamCollector::new();
    assert!(collector.accept(Ok(Some(1))).is_ok());
    assert!(collector.accept(Ok(None)).is_ok());
    let r = collector.accept(Err(ClientError::Projector("stop".to_string())));
    assert!(matches!(r, Err(ClientError::Projector(_))));
}

#[test]
fn event_kind_tags_round_trip() {
    let kinds = [
        EventKind::Message,
        EventKind::MessageFile,
        EventKind::MessageEnd,
        EventKind::MessageReplace,
        EventKind::WorkflowStarted,
        EventKind::NodeStarted,
        EventKind::NodeFinished,
        EventKind::WorkflowFinished,
        EventKind::AgentMessage,
        EventKind::AgentThought,
        EventKind::Error,
        EventKind::Ping,
    ];
    for k in kinds {
        assert_eq!(EventKind::from_tag(k.tag()), Some(k));
    }
    assert_eq!(EventKind::from_tag("Message"), None);
    assert!(EventKind::MessageEnd.is_terminal());
    assert!(EventKind::WorkflowFinished.is_terminal());
    assert!(EventKind::Error.is_terminal());
    assert!(!EventKind::Ping.is_terminal());
}
