//! Decoding a stream of server-sent event frames into tagged events.
//!
//! Splitting the byte stream into frames is left to the transport; what this
//! module decides is which frames carry an event, which kind of event each
//! one carries, and when the sequence of events ends or fails.
use vstd::prelude::*;
use crate::error::{ClientError, ClientErrorView};
use crate::json::{json_str_field, str_field};
use crate::text::str_eq;

verus! {

/// The kinds of event that a task's stream carries, named by the `event`
/// key of each frame's payload.
#[derive(Debug, Clone, Copy, PartialEq, Eq, Structural)]
pub enum EventKind {
    /// A chunk of generated text.
    Message,
    /// A file became available.
    MessageFile,
    /// The message is complete.
    MessageEnd,
    /// Moderation replaced the whole answer.
    MessageReplace,
    /// A workflow run began.
    WorkflowStarted,
    /// A workflow node began.
    NodeStarted,
    /// A workflow node finished.
    NodeFinished,
    /// A workflow run finished.
    WorkflowFinished,
    /// A chunk of an agent's answer.
    AgentMessage,
    /// A step of an agent's reasoning.
    AgentThought,
    /// The stream failed.
    Error,
    /// Keep-alive without payload.
    Ping,
}

/// The tag that names an event kind.
pub open spec fn event_tag(k: EventKind) -> Seq<char> {
    match k {
        EventKind::Message => "message"@,
        EventKind::MessageFile => "message_file"@,
        EventKind::MessageEnd => "message_end"@,
        EventKind::MessageReplace => "message_replace"@,
        EventKind::WorkflowStarted => "workflow_started"@,
        EventKind::NodeStarted => "node_started"@,
        EventKind::NodeFinished => "node_finished"@,
        EventKind::WorkflowFinished => "workflow_finished"@,
        EventKind::AgentMessage => "agent_message"@,
        EventKind::AgentThought => "agent_thought"@,
        EventKind::Error => "error"@,
        EventKind::Ping => "ping"@,
    }
}

/// The event kind that a tag names, if any: the set of kinds is closed.
pub open spec fn kind_of_tag(t: Seq<char>) -> Option<EventKind> {
    if t == "message"@ {
        Some(EventKind::Message)
    } else if t == "message_file"@ {
        Some(EventKind::MessageFile)
    } else if t == "message_end"@ {
        Some(EventKind::MessageEnd)
    } else if t == "message_replace"@ {
        Some(EventKind::MessageReplace)
    } else if t == "workflow_started"@ {
        Some(EventKind::WorkflowStarted)
    } else if t == "node_started"@ {
        Some(EventKind::NodeStarted)
    } else if t == "node_finished"@ {
        Some(EventKind::NodeFinished)
    } else if t == "workflow_finished"@ {
        Some(EventKind::WorkflowFinished)
    } else if t == "agent_message"@ {
        Some(EventKind::AgentMessage)
    } else if t == "agent_thought"@ {
        Some(EventKind::AgentThought)
    } else if t == "error"@ {
        Some(EventKind::Error)
    } else if t == "ping"@ {
        Some(EventKind::Ping)
    } else {
        None
    }
}

/// Each kind's tag names that kind, and a tag names only the kind whose tag
/// it is: the tags of the closed set are distinct.
pub proof fn lemma_tags_name_their_kind(k: EventKind, t: Seq<char>)
    ensures
        kind_of_tag(event_tag(k)) == Some(k),
        kind_of_tag(t) == Some(k) ==> event_tag(k) == t,
{
    reveal_strlit("message");
    reveal_strlit("message_file");
    reveal_strlit("message_end");
    reveal_strlit("message_replace");
    reveal_strlit("workflow_started");
    reveal_strlit("node_started");
    reveal_strlit("node_finished");
    reveal_strlit("workflow_finished");
    reveal_strlit("agent_message");
    reveal_strlit("agent_thought");
    reveal_strlit("error");
    reveal_strlit("ping");
    let tags = seq![
        "message"@, "message_file"@, "message_end"@, "message_replace"@, "workflow_started"@,
        "node_started"@, "node_finished"@, "workflow_finished"@, "agent_message"@,
        "agent_thought"@, "error"@, "ping"@,
    ];
    assert forall|i: int, j: int| 0 <= i < j < 12 implies tags[i] != tags[j] by {
        if tags[i].len() == tags[j].len() {
            assert(tags[i][0] != tags[j][0] || tags[i][1] != tags[j][1] || tags[i][9] != tags[j][9]);
        }
    }
}

/// Whether an event of this kind ends the logical stream of its task.
pub open spec fn is_terminal_kind(k: EventKind) -> bool {
    k == EventKind::MessageEnd || k == EventKind::WorkflowFinished || k == EventKind::Error
}

impl EventKind {
    /// The tag that names this kind.
    pub fn tag(&self) -> (r: &'static str)
        ensures
            r@ == event_tag(*self),
    {
        match self {
            EventKind::Message => "message",
            EventKind::MessageFile => "message_file",
            EventKind::MessageEnd => "message_end",
            EventKind::MessageReplace => "message_replace",
            EventKind::WorkflowStarted => "workflow_started",
            EventKind::NodeStarted => "node_started",
            EventKind::NodeFinished => "node_finished",
            EventKind::WorkflowFinished => "workflow_finished",
            EventKind::AgentMessage => "agent_message",
            EventKind::AgentThought => "agent_thought",
            EventKind::Error => "error",
            EventKind::Ping => "ping",
        }
    }

    /// The kind that a tag names; `None` for a tag outside the set.
    pub fn from_tag(t: &str) -> (r: Option<EventKind>)
        ensures
            r == kind_of_tag(t@),
    {
        if str_eq(t, "message") {
            Some(EventKind::Message)
        } else if str_eq(t, "message_file") {
            Some(EventKind::MessageFile)
        } else if str_eq(t, "message_end") {
            Some(EventKind::MessageEnd)
        } else if str_eq(t, "message_replace") {
            Some(EventKind::MessageReplace)
        } else if str_eq(t, "workflow_started") {
            Some(EventKind::WorkflowStarted)
        } else if str_eq(t, "node_started") {
            Some(EventKind::NodeStarted)
        } else if str_eq(t, "node_finished") {
            Some(EventKind::NodeFinished)
        } else if str_eq(t, "workflow_finished") {
            Some(EventKind::WorkflowFinished)
        } else if str_eq(t, "agent_message") {
            Some(EventKind::AgentMessage)
        } else if str_eq(t, "agent_thought") {
            Some(EventKind::AgentThought)
        } else if str_eq(t, "error") {
            Some(EventKind::Error)
        } else if str_eq(t, "ping") {
            Some(EventKind::Ping)
        } else {
            None
        }
    }

    /// Whether an event of this kind ends the logical stream of its task.
    pub fn is_terminal(&self) -> (r: bool)
        ensures
            r == is_terminal_kind(*self),
    {
        match self {
            EventKind::MessageEnd | EventKind::WorkflowFinished | EventKind::Error => true,
            _ => false,
        }
    }
}

/// One frame of a server-sent event stream: its outer event name and its
/// data field.
#[derive(Debug, Clone)]
pub struct SseFrame {
    pub event: String,
    pub data: String,
}

/// The mathematical value of an [`SseFrame`].
pub struct FrameView {
    pub event: Seq<char>,
    pub data: Seq<char>,
}

impl View for SseFrame {
    type V = FrameView;

    open spec fn view(&self) -> FrameView {
        FrameView { event: self.event@, data: self.data@ }
    }
}

/// What the transport handed over when the next frame was asked for.
#[derive(Debug)]
pub enum Pulled {
    /// A frame.
    Frame(SseFrame),
    /// The transport failed, with its message.
    Failed(String),
    /// The byte stream ended.
    Exhausted,
}

/// The mathematical value of a [`Pulled`].
pub enum PulledView {
    Frame(FrameView),
    Failed(Seq<char>),
    Exhausted,
}

impl View for Pulled {
    type V = PulledView;

    open spec fn view(&self) -> PulledView {
        match self {
            Pulled::Frame(f) => PulledView::Frame(f@),
            Pulled::Failed(m) => PulledView::Failed(m@),
            Pulled::Exhausted => PulledView::Exhausted,
        }
    }
}

/// What the decoder decided on one pulled item.
#[derive(Debug)]
pub enum DecodeStep {
    /// The frame carries no event: ask for the next one.
    Skip,
    /// The frame carries an event of this kind, whose payload is `data`.
    Emit { kind: EventKind, data: String },
    /// The sequence failed; no further event comes.
    Fail(ClientError),
    /// The sequence ended.
    End,
}

/// The mathematical value of a [`DecodeStep`].
pub enum StepView {
    Skip,
    Emit { kind: EventKind, data: Seq<char> },
    Fail(ClientErrorView),
    End,
}

impl View for DecodeStep {
    type V = StepView;

    open spec fn view(&self) -> StepView {
        match self {
            DecodeStep::Skip => StepView::Skip,
            DecodeStep::Emit { kind, data } => StepView::Emit { kind: *kind, data: data@ },
            DecodeStep::Fail(e) => StepView::Fail(e@),
            DecodeStep::End => StepView::End,
        }
    }
}

/// The outer event name of the frames that carry events.
pub open spec fn message_channel() -> Seq<char> {
    "message"@
}

/// The error message for a payload without a string `event` key.
pub open spec fn missing_tag_message() -> Seq<char> {
    "payload has no event tag"@
}

/// What a frame stands for: no event when its outer name is not `message`;
/// else the event that the `event` key of its payload names, or a failure
/// when that key is missing or names no known kind.
pub open spec fn frame_verdict(f: FrameView) -> StepView {
    if f.event != message_channel() {
        StepView::Skip
    } else {
        match json_str_field(f.data, "event"@) {
            None => StepView::Fail(
                ClientErrorView::Decode { data: f.data, error: missing_tag_message() },
            ),
            Some(t) => match kind_of_tag(t) {
                None => StepView::Fail(ClientErrorView::UnknownEvent { data: f.data, tag: t }),
                Some(k) => StepView::Emit { kind: k, data: f.data },
            },
        }
    }
}

/// One step of the decoder: from whether the sequence has terminated and
/// the pulled item, to whether it has terminated afterwards and the decision.
pub open spec fn decode_step(terminated: bool, pulled: PulledView) -> (bool, StepView) {
    if terminated {
        (true, StepView::End)
    } else {
        match pulled {
            PulledView::Exhausted => (true, StepView::End),
            PulledView::Failed(m) => (true, StepView::Fail(ClientErrorView::Transport(m))),
            PulledView::Frame(f) => {
                let v = frame_verdict(f);
                (v is Fail, v)
            },
        }
    }
}

/// The decoder of one task's event stream: a finite sequence of events that
/// does not restart once it has ended or failed.
#[derive(Debug)]
pub struct SseDecoder {
    terminated: bool,
}

impl SseDecoder {
    /// Whether the sequence has ended or failed.
    pub closed spec fn spec_terminated(&self) -> bool {
        self.terminated
    }

    /// A decoder at the start of a stream.
    pub fn new() -> (r: SseDecoder)
        ensures
            !r.spec_terminated(),
    {
        SseDecoder { terminated: false }
    }

    /// Whether the sequence has ended or failed.
    pub fn is_terminated(&self) -> (r: bool)
        ensures
            r == self.spec_terminated(),
    {
        self.terminated
    }

    /// Decides on the next item that the transport handed over.
    pub fn step(&mut self, pulled: Pulled) -> (r: DecodeStep)
        ensures
            (final(self).spec_terminated(), r@) == decode_step(
                old(self).spec_terminated(),
                pulled@,
            ),
    {
        if self.terminated {
            return DecodeStep::End;
        }
        match pulled {
            Pulled::Exhausted => {
                self.terminated = true;
                DecodeStep::End
            },
            Pulled::Failed(m) => {
                self.terminated = true;
                DecodeStep::Fail(ClientError::Transport(m))
            },
            Pulled::Frame(f) => {
                let r = decode_frame(f);
                if let DecodeStep::Fail(_) = r {
                    self.terminated = true;
                }
                r
            },
        }
    }

    /// Records that the payload of an emitted event could not be decoded
    /// into its fields: the sequence fails with that error.
    pub fn reject(&mut self, data: String, error: String) -> (r: ClientError)
        ensures
            final(self).spec_terminated(),
            r@ == (ClientErrorView::Decode { data: data@, error: error@ }),
    {
        self.terminated = true;
        ClientError::Decode { data, error }
    }
}

/// Decides what one frame stands for.
pub fn decode_frame(f: SseFrame) -> (r: DecodeStep)
    ensures
        r@ == frame_verdict(f@),
{
    if !str_eq(f.event.as_str(), "message") {
        return DecodeStep::Skip;
    }
    match str_field(f.data.as_str(), "event") {
        None => DecodeStep::Fail(
            ClientError::Decode {
                data: f.data,
                error: String::from_str("payload has no event tag"),
            },
        ),
        Some(t) => match EventKind::from_tag(t.as_str()) {
            None => DecodeStep::Fail(ClientError::UnknownEvent { data: f.data, tag: t }),
            Some(kind) => DecodeStep::Emit { kind, data: f.data },
        },
    }
}

/// Frames whose outer event name is not `message` never produce an event,
/// whatever they hold and whatever state the decoder is in.
pub proof fn lemma_other_channels_never_emit(terminated: bool, f: FrameView)
    requires
        f.event != message_channel(),
    ensures
        !(decode_step(terminated, PulledView::Frame(f)).1 is Emit),
        decode_step(terminated, PulledView::Frame(f)).0 == terminated,
{
}

/// A `message` frame whose payload names an event kind outside the closed
/// set fails the sequence; it is not skipped.
pub proof fn lemma_unknown_kind_fails(f: FrameView, t: Seq<char>)
    requires
        f.event == message_channel(),
        json_str_field(f.data, "event"@) == Some(t),
        kind_of_tag(t) is None,
    ensures
        decode_step(false, PulledView::Frame(f)) == (
            true,
            StepView::Fail(ClientErrorView::UnknownEvent { data: f.data, tag: t }),
        ),
{
}

/// Once the sequence has ended or failed, it stays so and yields nothing.
pub proof fn lemma_no_restart(pulled: PulledView)
    ensures
        decode_step(true, pulled) == (true, StepView::End),
{
}

} // verus!
