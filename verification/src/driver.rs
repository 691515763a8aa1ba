//! The agent-loop driver.
//!
//! One conversation round goes Requesting → Streaming → (ExecutingTools
//! → Requesting) | Done. The driver owns the conversation history, the
//! running text of the assistant turn, and the tool-call aggregator; the
//! caller performs the outside work (issuing the request, reading the
//! stream, running each tool) and feeds the results back in. Every
//! transition is a pure function of the previous state and the input,
//! stated by the `*_state` spec functions.

use vstd::prelude::*;

use crate::collector::PendingShape;
use crate::collector::ToolCall;
use crate::collector::ToolCallCollector;
use crate::collector::ToolCallShape;
use crate::collector::completed_of;
use crate::collector::process_spec;
use crate::events::ApiErrorShape;
use crate::events::BlockShape;
use crate::events::ContentBlock;
use crate::events::CoreEvent;
use crate::events::CoreEventShape;
use crate::events::Delta;
use crate::events::DeltaShape;
use crate::events::EventShape;
use crate::events::StreamEvent;
use crate::events::api_error_text;

verus! {

/// Who authored a message.
#[derive(Debug, Clone, Copy, PartialEq, Eq, Structural)]
pub enum Role {
    User,
    Assistant,
}

/// One entry of the conversation history.
#[derive(Debug, Clone)]
pub struct Message {
    pub role: Role,
    pub content: Vec<ContentBlock>,
}

/// The mathematical image of a [`Message`].
#[verifier::ext_equal]
pub struct MessageShape {
    pub role: Role,
    pub content: Seq<BlockShape>,
}

impl View for Message {
    type V = MessageShape;

    open spec fn view(&self) -> MessageShape {
        MessageShape {
            role: self.role,
            content: self.content@.map_values(|b: ContentBlock| b@),
        }
    }
}

/// Where the driver stands in its round.
#[derive(Debug, Clone, Copy, PartialEq, Eq, Structural)]
pub enum Phase {
    /// Ready to issue the next request.
    Requesting,
    /// Draining the response stream.
    Streaming,
    /// Running the completed tool calls of this round.
    ExecutingTools,
    /// The loop is over.
    Done,
}

/// What the caller should do after feeding one stream event.
#[derive(Debug, Clone, Copy, PartialEq, Eq, Structural)]
pub enum Flow {
    /// Keep draining the stream.
    Continue,
    /// The response is over; decide the round with `end_round`.
    EndOfMessage,
    /// A terminal error; the loop is over and history stays as it was
    /// before this round.
    Fatal,
}

/// The mathematical image of a [`Driver`].
#[verifier::ext_equal]
pub struct DriverShape {
    pub phase: Phase,
    pub text: Seq<char>,
    pub slots: Seq<PendingShape>,
    pub pending: Seq<ToolCallShape>,
    pub next_call: int,
    pub in_tool: bool,
    pub history: Seq<MessageShape>,
}

/// The driver states that can actually arise.
pub open spec fn wf(d: DriverShape) -> bool {
    0 <= d.next_call <= d.pending.len()
}

/// Starting a round only moves the phase to Streaming.
pub open spec fn begin_round_state(d: DriverShape) -> DriverShape {
    DriverShape { phase: Phase::Streaming, ..d }
}

/// The user-facing notification, if any, for one stream event.
pub open spec fn translate_spec(e: EventShape) -> Option<CoreEventShape> {
    match e {
        EventShape::ContentBlockDelta { delta: DeltaShape::Text { text }, .. } => Some(
            CoreEventShape::TextDelta(text),
        ),
        EventShape::ContentBlockStart {
            content_block: BlockShape::ToolUse { id, name, .. },
            ..
        } => Some(CoreEventShape::ToolCallStart { id, name }),
        EventShape::Error { error } => Some(CoreEventShape::Error(api_error_text(error))),
        EventShape::MessageStop => Some(CoreEventShape::MessageStop),
        _ => None,
    }
}

/// Whether an event ends the stream, and how.
///
/// A server-reported error ends the response like a message stop; a
/// malformed frame is shown and skipped; a transport, network or HTTP
/// error ends the whole loop.
pub open spec fn flow_of(e: EventShape) -> Flow {
    match e {
        EventShape::MessageStop => Flow::EndOfMessage,
        EventShape::Error { error: ApiErrorShape::Api(m) } => Flow::EndOfMessage,
        EventShape::Error { error: ApiErrorShape::ParseError(m) } => Flow::Continue,
        EventShape::Error { error } => Flow::Fatal,
        _ => Flow::Continue,
    }
}

/// The text an event contributes to the assistant turn.
pub open spec fn text_of(e: EventShape) -> Seq<char> {
    match e {
        EventShape::ContentBlockDelta { delta: DeltaShape::Text { text }, .. } => text,
        _ => Seq::empty(),
    }
}

/// What one stream event does to the driver.
pub open spec fn on_event_state(d: DriverShape, e: EventShape) -> DriverShape {
    DriverShape {
        phase: if flow_of(e) == Flow::Fatal {
            Phase::Done
        } else {
            Phase::Streaming
        },
        text: d.text + text_of(e),
        slots: process_spec(d.slots, e),
        ..d
    }
}

/// The content of the assistant message that records a turn: its text,
/// when there is any, followed by one tool-use block per completed call
/// in call order.
pub open spec fn assistant_content(text: Seq<char>, calls: Seq<ToolCallShape>) -> Seq<BlockShape> {
    (if text.len() > 0 {
        seq![BlockShape::Text { text }]
    } else {
        Seq::empty()
    }) + calls.map_values(
        |c: ToolCallShape| BlockShape::ToolUse { id: c.id, name: c.name, input: c.input },
    )
}

/// Whether the round that just drained asks for tool execution.
pub open spec fn end_round_more(d: DriverShape) -> bool {
    completed_of(d.slots).len() > 0
}

/// The decision after a response is drained: record the assistant turn
/// and move to tool execution, or record a final text reply, or end an
/// empty round without touching history.
pub open spec fn end_round_state(d: DriverShape) -> DriverShape {
    let calls = completed_of(d.slots);
    if calls.len() > 0 {
        DriverShape {
            phase: Phase::ExecutingTools,
            text: Seq::empty(),
            slots: Seq::empty(),
            pending: calls,
            next_call: 0,
            in_tool: false,
            history: d.history.push(
                MessageShape { role: Role::Assistant, content: assistant_content(d.text, calls) },
            ),
        }
    } else if d.text.len() > 0 {
        DriverShape {
            phase: Phase::Done,
            history: d.history.push(
                MessageShape {
                    role: Role::Assistant,
                    content: seq![BlockShape::Text { text: d.text }],
                },
            ),
            ..d
        }
    } else {
        DriverShape { phase: Phase::Done, ..d }
    }
}

/// Whether another pending tool call is waiting.
pub open spec fn begin_tool_more(d: DriverShape) -> bool {
    d.next_call < d.pending.len()
}

/// The call that runs next.
pub open spec fn begin_tool_call(d: DriverShape) -> ToolCallShape {
    d.pending[d.next_call]
}

/// Starting the next tool, or returning to Requesting when all ran.
pub open spec fn begin_tool_state(d: DriverShape) -> DriverShape {
    if begin_tool_more(d) {
        DriverShape { in_tool: true, ..d }
    } else {
        DriverShape { phase: Phase::Requesting, pending: Seq::empty(), next_call: 0, ..d }
    }
}

/// The history entry that records one tool result.
pub open spec fn tool_result_message(c: ToolCallShape, result: Seq<char>) -> MessageShape {
    MessageShape {
        role: Role::User,
        content: seq![BlockShape::ToolResult { tool_use_id: c.id, content: result }],
    }
}

/// Recording the result of the tool that just ran.
pub open spec fn finish_tool_state(d: DriverShape, result: Seq<char>) -> DriverShape {
    DriverShape {
        history: d.history.push(tool_result_message(d.pending[d.next_call], result)),
        next_call: d.next_call + 1,
        in_tool: false,
        ..d
    }
}

/// The image of an optional notification.
pub open spec fn opt_shape(o: Option<CoreEvent>) -> Option<CoreEventShape> {
    match o {
        Some(e) => Some(e@),
        None => None,
    }
}

/// Drives the request / stream / execute-tools loop over one
/// conversation.
pub struct Driver {
    phase: Phase,
    current_text: String,
    collector: ToolCallCollector,
    pending: Vec<ToolCall>,
    next_call: usize,
    in_tool: bool,
    history: Vec<Message>,
}

impl View for Driver {
    type V = DriverShape;

    closed spec fn view(&self) -> DriverShape {
        DriverShape {
            phase: self.phase,
            text: self.current_text@,
            slots: self.collector@,
            pending: self.pending@.map_values(|c: ToolCall| c@),
            next_call: self.next_call as int,
            in_tool: self.in_tool,
            history: self.history@.map_values(|m: Message| m@),
        }
    }
}

impl Driver {
    /// A driver over the given conversation history, ready to request.
    pub fn new(history: Vec<Message>) -> (r: Driver)
        ensures
            r@.phase == Phase::Requesting,
            r@.text =~= Seq::<char>::empty(),
            r@.slots =~= Seq::<PendingShape>::empty(),
            r@.pending =~= Seq::<ToolCallShape>::empty(),
            r@.next_call == 0,
            !r@.in_tool,
            r@.history =~= history@.map_values(|m: Message| m@),
            wf(r@),
    {
        Driver {
            phase: Phase::Requesting,
            current_text: String::new(),
            collector: ToolCallCollector::new(),
            pending: Vec::new(),
            next_call: 0,
            in_tool: false,
            history,
        }
    }

    /// Begin a round: the caller issues the request and emits the
    /// returned MessageStart notification.
    pub fn begin_round(&mut self) -> (ev: CoreEvent)
        requires
            old(self)@.phase == Phase::Requesting,
            wf(old(self)@),
        ensures
            final(self)@ =~= begin_round_state(old(self)@),
            ev@ == CoreEventShape::MessageStart,
            wf(final(self)@),
    {
        self.phase = Phase::Streaming;
        CoreEvent::MessageStart
    }

    /// Feed one decoded stream event: the text of a text delta joins
    /// the running assistant text, the aggregator sees the event, and
    /// the translated notification (if any) comes back with what to do
    /// next.
    pub fn on_event(&mut self, event: &StreamEvent) -> (r: (Option<CoreEvent>, Flow))
        requires
            old(self)@.phase == Phase::Streaming,
            wf(old(self)@),
        ensures
            final(self)@ =~= on_event_state(old(self)@, event@),
            opt_shape(r.0) == translate_spec(event@),
            r.1 == flow_of(event@),
            wf(final(self)@),
    {
        let out: Option<CoreEvent> = match event {
            StreamEvent::ContentBlockDelta { delta: Delta::Text { text }, .. } => {
                self.current_text.append(text.as_str());
                Some(CoreEvent::TextDelta(text.clone()))
            },
            StreamEvent::ContentBlockStart {
                content_block: ContentBlock::ToolUse { id, name, .. },
                ..
            } => Some(CoreEvent::ToolCallStart { id: id.clone(), name: name.clone() }),
            StreamEvent::Error { error } => Some(CoreEvent::Error(error.display_string())),
            StreamEvent::MessageStop => Some(CoreEvent::MessageStop),
            _ => None,
        };
        let flow: Flow = match event {
            StreamEvent::MessageStop => Flow::EndOfMessage,
            StreamEvent::Error { error } => match error {
                crate::events::ApiError::Api(_) => Flow::EndOfMessage,
                crate::events::ApiError::ParseError(_) => Flow::Continue,
                _ => Flow::Fatal,
            },
            _ => Flow::Continue,
        };
        self.collector.process_event(event);
        if matches!(flow, Flow::Fatal) {
            self.phase = Phase::Done;
        }
        proof {
            assert(self@ =~~= on_event_state(old(self)@, event@));
        }
        (out, flow)
    }

    /// Decide the drained round. With completed tool calls, the
    /// assistant turn (text plus tool-use blocks, in call order) joins
    /// history and the calls become pending; with only text, the final
    /// reply joins history; an empty round ends the loop with history
    /// untouched.
    pub fn end_round(&mut self) -> (more: bool)
        requires
            old(self)@.phase == Phase::Streaming,
            wf(old(self)@),
        ensures
            final(self)@ =~= end_round_state(old(self)@),
            more == end_round_more(old(self)@),
            wf(final(self)@),
    {
        let ghost orig: DriverShape = self@;
        proof {
            crate::collector::lemma_completed_nonempty(orig.slots);
        }
        if self.collector.has_completed_calls() {
            let calls: Vec<ToolCall> = self.collector.take_completed();
            let mut content: Vec<ContentBlock> = Vec::new();
            if !self.current_text.as_str().is_empty() {
                content.push(ContentBlock::Text { text: self.current_text.clone() });
            }
            proof {
                assert(content@.map_values(|b: ContentBlock| b@) =~~= assistant_content(
                    orig.text,
                    calls@.map_values(|c: ToolCall| c@).take(0),
                ));
            }
            let mut k: usize = 0;
            while k < calls.len()
                invariant
                    0 <= k <= calls@.len(),
                    content@.map_values(|b: ContentBlock| b@) =~~= assistant_content(
                        orig.text,
                        calls@.map_values(|c: ToolCall| c@).take(k as int),
                    ),
                decreases calls@.len() - k,
            {
                let ghost pre_content = content@;
                let ghost cs = calls@.map_values(|c: ToolCall| c@);
                let c: &ToolCall = &calls[k];
                content.push(
                    ContentBlock::ToolUse {
                        id: c.id.clone(),
                        name: c.name.clone(),
                        input: c.input.clone(),
                    },
                );
                k = k + 1;
                proof {
                    let kk = k as int;
                    let piece = BlockShape::ToolUse {
                        id: cs[kk - 1].id,
                        name: cs[kk - 1].name,
                        input: cs[kk - 1].input,
                    };
                    assert(content@.map_values(|b: ContentBlock| b@) =~~= pre_content.map_values(
                        |b: ContentBlock| b@,
                    ).push(piece));
                    assert(cs.take(kk) =~= cs.take(kk - 1).push(cs[kk - 1]));
                    assert(assistant_content(orig.text, cs.take(kk)) =~~= assistant_content(
                        orig.text,
                        cs.take(kk - 1),
                    ).push(piece));
                    assert(content@.map_values(|b: ContentBlock| b@) =~~= assistant_content(
                        orig.text,
                        cs.take(kk),
                    ));
                }
            }
            proof {
                assert(calls@.map_values(|c: ToolCall| c@).take(calls@.len() as int) =~= calls@.map_values(
                    |c: ToolCall| c@,
                ));
            }
            self.history.push(Message { role: Role::Assistant, content });
            self.pending = calls;
            self.next_call = 0;
            self.in_tool = false;
            self.current_text = String::new();
            self.phase = Phase::ExecutingTools;
            proof {
                assert(self@ =~~= end_round_state(orig));
            }
            true
        } else if !self.current_text.as_str().is_empty() {
            let mut content: Vec<ContentBlock> = Vec::new();
            content.push(ContentBlock::Text { text: self.current_text.clone() });
            self.history.push(Message { role: Role::Assistant, content });
            self.phase = Phase::Done;
            proof {
                assert(self@ =~~= end_round_state(orig));
            }
            false
        } else {
            self.phase = Phase::Done;
            proof {
                assert(self@ =~~= end_round_state(orig));
            }
            false
        }
    }

    /// Hand out the next pending call together with its ToolExecuting
    /// notification, or, when every call has run, return to Requesting.
    pub fn begin_tool(&mut self) -> (r: Option<(ToolCall, CoreEvent)>)
        requires
            old(self)@.phase == Phase::ExecutingTools,
            !old(self)@.in_tool,
            wf(old(self)@),
        ensures
            final(self)@ =~= begin_tool_state(old(self)@),
            wf(final(self)@),
            r is Some <==> begin_tool_more(old(self)@),
            r matches Some((call, ev)) ==> call@ == begin_tool_call(old(self)@) && ev@
                == (CoreEventShape::ToolExecuting { name: begin_tool_call(old(self)@).name }),
    {
        if self.next_call < self.pending.len() {
            let c: &ToolCall = &self.pending[self.next_call];
            let call = ToolCall { id: c.id.clone(), name: c.name.clone(), input: c.input.clone() };
            let ev = CoreEvent::ToolExecuting { name: c.name.clone() };
            self.in_tool = true;
            proof {
                assert(self@ =~~= begin_tool_state(old(self)@));
            }
            Some((call, ev))
        } else {
            self.pending = Vec::new();
            self.next_call = 0;
            self.phase = Phase::Requesting;
            proof {
                assert(self@ =~~= begin_tool_state(old(self)@));
            }
            None
        }
    }

    /// Record the result of the tool that just ran: a user message
    /// holding the tool result joins history, referencing the call id,
    /// and the ToolResult notification comes back.
    pub fn finish_tool(&mut self, result: String) -> (ev: CoreEvent)
        requires
            old(self)@.phase == Phase::ExecutingTools,
            old(self)@.in_tool,
            old(self)@.next_call < old(self)@.pending.len(),
            wf(old(self)@),
        ensures
            final(self)@ =~= finish_tool_state(old(self)@, result@),
            ev@ == (CoreEventShape::ToolResult {
                name: begin_tool_call(old(self)@).name,
                result: result@,
            }),
            wf(final(self)@),
    {
        let c: &ToolCall = &self.pending[self.next_call];
        let name: String = c.name.clone();
        let mut content: Vec<ContentBlock> = Vec::new();
        content.push(
            ContentBlock::ToolResult { tool_use_id: c.id.clone(), content: result.clone() },
        );
        self.history.push(Message { role: Role::User, content });
        proof {
            assert(self.next_call < self.pending.len());
        }
        self.next_call = self.next_call + 1;
        self.in_tool = false;
        proof {
            assert(self@ =~~= finish_tool_state(old(self)@, result@));
        }
        CoreEvent::ToolResult { name, result }
    }

    /// The conversation history so far.
    pub fn history(&self) -> (r: &Vec<Message>)
        ensures
            r@.map_values(|m: Message| m@) == self@.history,
    {
        &self.history
    }

    /// Give the conversation history back to the caller.
    pub fn into_history(self) -> (r: Vec<Message>)
        ensures
            r@.map_values(|m: Message| m@) == self@.history,
    {
        self.history
    }

    /// Where the driver stands.
    pub fn phase(&self) -> (p: Phase)
        ensures
            p == self@.phase,
    {
        self.phase
    }
}

/// An event that neither starts a tool-use block nor ends or aborts
/// the stream: a plain marker or a text delta.
pub open spec fn text_round_event(e: EventShape) -> bool {
    match e {
        EventShape::ContentBlockStart {
            content_block: BlockShape::ToolUse { .. },
            ..
        } => false,
        EventShape::Error { .. } => false,
        EventShape::MessageStop => false,
        _ => true,
    }
}

/// The text a sequence of events contributes, in order.
pub open spec fn texts_of(evs: Seq<EventShape>) -> Seq<char>
    decreases evs.len(),
{
    if evs.len() == 0 {
        Seq::empty()
    } else {
        text_of(evs[0]) + texts_of(evs.drop_first())
    }
}

/// The driver state after draining a whole sequence of events.
pub open spec fn stream_all(d: DriverShape, evs: Seq<EventShape>) -> DriverShape
    decreases evs.len(),
{
    if evs.len() == 0 {
        d
    } else {
        stream_all(on_event_state(d, evs[0]), evs.drop_first())
    }
}

proof fn lemma_stream_text_only(d: DriverShape, evs: Seq<EventShape>)
    requires
        d.phase == Phase::Streaming,
        d.slots.len() == 0,
        forall|j: int| 0 <= j < evs.len() ==> text_round_event(#[trigger] evs[j]),
    ensures
        stream_all(d, evs).phase == Phase::Streaming,
        stream_all(d, evs).slots.len() == 0,
        stream_all(d, evs).text =~= d.text + texts_of(evs),
        stream_all(d, evs).history == d.history,
        stream_all(d, evs).pending == d.pending,
        stream_all(d, evs).next_call == d.next_call,
        stream_all(d, evs).in_tool == d.in_tool,
    decreases evs.len(),
{
    if evs.len() == 0 {
        assert(d.text + texts_of(evs) =~= d.text);
    } else {
        let e = evs[0];
        let d1 = on_event_state(d, e);
        assert(d1.slots.len() == 0);
        assert(d1.phase == Phase::Streaming);
        lemma_stream_text_only(d1, evs.drop_first());
        assert((d.text + text_of(e)) + texts_of(evs.drop_first()) =~= d.text + texts_of(evs));
    }
}

/// Law (single-round termination): a driver ready to request, fed a
/// response that carries only text and neutral markers, makes exactly
/// one round: the decision after draining asks for no tools, the
/// driver is Done, and exactly one assistant message holding the
/// accumulated text has been appended to the history.
pub proof fn theorem_single_round(d0: DriverShape, evs: Seq<EventShape>)
    requires
        d0.phase == Phase::Requesting,
        d0.slots.len() == 0,
        d0.text.len() == 0,
        forall|j: int| 0 <= j < evs.len() ==> text_round_event(#[trigger] evs[j]),
        texts_of(evs).len() > 0,
    ensures
        ({
            let d2 = stream_all(begin_round_state(d0), evs);
            &&& !end_round_more(d2)
            &&& end_round_state(d2).phase == Phase::Done
            &&& end_round_state(d2).history =~~= d0.history.push(
                MessageShape {
                    role: Role::Assistant,
                    content: seq![BlockShape::Text { text: texts_of(evs) }],
                },
            )
        }),
{
    let d1 = begin_round_state(d0);
    lemma_stream_text_only(d1, evs);
    let d2 = stream_all(d1, evs);
    assert(completed_of(d2.slots).len() == 0);
    assert(d2.text =~= texts_of(evs));
    assert(end_round_state(d2).history =~~= d0.history.push(
        MessageShape {
            role: Role::Assistant,
            content: seq![BlockShape::Text { text: texts_of(evs) }],
        },
    ));
}

/// Law (tool round trip): when a drained round completed exactly two
/// tool calls, deciding the round appends one assistant message whose
/// blocks are the turn text (when nonempty) followed by the two
/// tool-use blocks in call order; running the tools hands them out in
/// that order and appends two user messages holding their results,
/// each referencing its call id; the driver is then back at
/// Requesting, ready for the next request.
pub proof fn theorem_tool_round_trip(d: DriverShape, r1: Seq<char>, r2: Seq<char>)
    requires
        d.phase == Phase::Streaming,
        completed_of(d.slots).len() == 2,
    ensures
        ({
            let c = completed_of(d.slots);
            let d1 = end_round_state(d);
            let d2 = begin_tool_state(d1);
            let d3 = finish_tool_state(d2, r1);
            let d4 = begin_tool_state(d3);
            let d5 = finish_tool_state(d4, r2);
            let d6 = begin_tool_state(d5);
            &&& end_round_more(d)
            &&& begin_tool_more(d1) && begin_tool_call(d1) == c[0]
            &&& begin_tool_more(d3) && begin_tool_call(d3) == c[1]
            &&& !begin_tool_more(d5)
            &&& d6.phase == Phase::Requesting
            &&& d6.history =~~= d.history.push(
                MessageShape { role: Role::Assistant, content: assistant_content(d.text, c) },
            ).push(tool_result_message(c[0], r1)).push(tool_result_message(c[1], r2))
        }),
{
}

} // verus!
