//! The tool-call aggregator.
//!
//! During one streamed response the server may open several content
//! blocks, each identified by an index, and deliver the JSON arguments
//! of a tool call as many partial fragments. The collector keeps one
//! pending slot per index seen so far, appends fragments to the right
//! slot, marks slots complete, and drains the completed calls in slot
//! order.

use vstd::prelude::*;

use crate::events::BlockShape;
use crate::events::ContentBlock;
use crate::events::Delta;
use crate::events::DeltaShape;
use crate::events::EventShape;
use crate::events::StreamEvent;

verus! {

/// A tool call being assembled from stream fragments.
///
/// The `id` and `name` are fixed when the block starts; only
/// `input_buffer` grows, until `completed` is set by the block stop.
#[derive(Debug, Clone)]
pub struct PendingToolCall {
    pub id: String,
    pub name: String,
    pub input_buffer: String,
    pub completed: bool,
}

/// The mathematical image of a [`PendingToolCall`].
#[verifier::ext_equal]
pub struct PendingShape {
    pub id: Seq<char>,
    pub name: Seq<char>,
    pub input_buffer: Seq<char>,
    pub completed: bool,
}

impl View for PendingToolCall {
    type V = PendingShape;

    open spec fn view(&self) -> PendingShape {
        PendingShape {
            id: self.id@,
            name: self.name@,
            input_buffer: self.input_buffer@,
            completed: self.completed,
        }
    }
}

/// A fully assembled tool call.
///
/// `input` holds the raw JSON text of the arguments exactly as it was
/// accumulated from the stream; the caller parses it at the point of
/// execution with [`crate::tools::parse_arguments`].
#[derive(Debug, Clone)]
pub struct ToolCall {
    pub id: String,
    pub name: String,
    pub input: String,
}

/// The mathematical image of a [`ToolCall`].
#[verifier::ext_equal]
pub struct ToolCallShape {
    pub id: Seq<char>,
    pub name: Seq<char>,
    pub input: Seq<char>,
}

impl View for ToolCall {
    type V = ToolCallShape;

    open spec fn view(&self) -> ToolCallShape {
        ToolCallShape { id: self.id@, name: self.name@, input: self.input@ }
    }
}

/// A slot that has not been opened by any block start yet.
pub open spec fn empty_slot() -> PendingShape {
    PendingShape {
        id: Seq::empty(),
        name: Seq::empty(),
        input_buffer: Seq::empty(),
        completed: false,
    }
}

/// Grow a slot list with empty placeholders until it has `n` entries.
pub open spec fn padded(s: Seq<PendingShape>, n: int) -> Seq<PendingShape> {
    if s.len() >= n {
        s
    } else {
        s + Seq::new((n - s.len()) as nat, |i: int| empty_slot())
    }
}

/// What one stream event does to the slot list.
pub open spec fn process_spec(s: Seq<PendingShape>, e: EventShape) -> Seq<PendingShape> {
    match e {
        EventShape::ContentBlockStart {
            index,
            content_block: BlockShape::ToolUse { id, name, input },
        } => padded(s, index as int + 1).update(
            index as int,
            (PendingShape { id: id, name: name, input_buffer: input, completed: false }),
        ),
        EventShape::ContentBlockDelta {
            index,
            delta: DeltaShape::InputJson { partial_json },
        } => {
            if (index as int) < s.len() {
                s.update(
                    index as int,
                    (PendingShape {
                        input_buffer: s[index as int].input_buffer + partial_json,
                        ..s[index as int]
                    }),
                )
            } else {
                s
            }
        },
        EventShape::ContentBlockStop { index } => {
            if (index as int) < s.len() {
                s.update(index as int, (PendingShape { completed: true, ..s[index as int] }))
            } else {
                s
            }
        },
        _ => s,
    }
}

/// The slot list after a whole sequence of events.
pub open spec fn process_all(s: Seq<PendingShape>, evs: Seq<EventShape>) -> Seq<PendingShape>
    decreases evs.len(),
{
    if evs.len() == 0 {
        s
    } else {
        process_all(process_spec(s, evs[0]), evs.drop_first())
    }
}

/// The call a completed slot drains to.
pub open spec fn call_of(p: PendingShape) -> ToolCallShape {
    ToolCallShape { id: p.id, name: p.name, input: p.input_buffer }
}

/// The completed calls of a slot list, in slot order.
pub open spec fn completed_of(s: Seq<PendingShape>) -> Seq<ToolCallShape>
    decreases s.len(),
{
    if s.len() == 0 {
        Seq::empty()
    } else {
        completed_of(s.drop_last()) + (if s.last().completed {
            seq![call_of(s.last())]
        } else {
            Seq::empty()
        })
    }
}

/// Collects tool calls from the events of one streamed response.
pub struct ToolCallCollector {
    calls: Vec<PendingToolCall>,
}

impl View for ToolCallCollector {
    type V = Seq<PendingShape>;

    closed spec fn view(&self) -> Seq<PendingShape> {
        self.calls@.map_values(|c: PendingToolCall| c@)
    }
}

impl ToolCallCollector {
    /// A collector with no slots.
    pub fn new() -> (r: Self)
        ensures
            r@ =~= Seq::<PendingShape>::empty(),
    {
        ToolCallCollector { calls: Vec::new() }
    }

    /// Feed one stream event into the slot list.
    pub fn process_event(&mut self, event: &StreamEvent)
        ensures
            final(self)@ =~= process_spec(old(self)@, event@),
    {
        match event {
            StreamEvent::ContentBlockStart {
                content_block: ContentBlock::ToolUse { id, name, input },
                index,
            } => {
                let idx: usize = *index as usize;
                let ghost orig: Seq<PendingShape> = self@;
                while self.calls.len() <= idx
                    invariant
                        orig.len() <= self@.len(),
                        self@.len() == orig.len() || self@.len() <= idx + 1,
                        self@.len() == self.calls@.len(),
                        forall|k: int| 0 <= k < orig.len() ==> #[trigger] self@[k] == orig[k],
                        forall|k: int|
                            orig.len() <= k < self@.len() ==> #[trigger] self@[k] == empty_slot(),
                    decreases idx + 1 - self.calls@.len(),
                {
                    let ghost prevview: Seq<PendingShape> = self@;
                    self.calls.push(
                        PendingToolCall {
                            id: String::new(),
                            name: String::new(),
                            input_buffer: String::new(),
                            completed: false,
                        },
                    );
                    proof {
                        assert(self@ =~= prevview.push(empty_slot()));
                    }
                }
                proof {
                    assert(self@ =~= padded(orig, self.calls@.len() as int));
                }
                self.calls[idx] = PendingToolCall {
                    id: id.clone(),
                    name: name.clone(),
                    input_buffer: input.clone(),
                    completed: false,
                };
                proof {
                    assert(self@ =~= process_spec(orig, event@));
                }
            },
            StreamEvent::ContentBlockStart { content_block: ContentBlock::Text { .. }, .. }
            | StreamEvent::ContentBlockStart {
                content_block: ContentBlock::ToolResult { .. },
                ..
            }
            | StreamEvent::MessageStart
            | StreamEvent::MessageDelta
            | StreamEvent::MessageStop
            | StreamEvent::Error { .. } => {
            },
            StreamEvent::ContentBlockDelta { delta, index } => {
                let idx: usize = *index as usize;
                if idx < self.calls.len() {
                    if let Delta::InputJson { partial_json } = delta {
                        let call: &mut PendingToolCall = &mut self.calls[idx];
                        call.input_buffer.append(partial_json.as_str());
                        proof {
                            assert(self@ =~= process_spec(old(self)@, event@));
                        }
                    }
                }
            },
            StreamEvent::ContentBlockStop { index } => {
                let idx: usize = *index as usize;
                if idx < self.calls.len() {
                    let call: &mut PendingToolCall = &mut self.calls[idx];
                    call.completed = true;
                    proof {
                        assert(self@ =~= process_spec(old(self)@, event@));
                    }
                }
            },
        }
    }

    /// Whether any slot has been completed.
    pub fn has_completed_calls(&self) -> (r: bool)
        ensures
            r == exists|k: int| 0 <= k < self@.len() && (#[trigger] self@[k].completed),
    {
        let mut i: usize = 0;
        while i < self.calls.len()
            invariant
                0 <= i <= self@.len(),
                forall|k: int| 0 <= k < i ==> !(#[trigger] self@[k].completed),
            decreases self@.len() - i,
        {
            if self.calls[i].completed {
                proof {
                    assert(self@[i as int].completed);
                }
                return true;
            }
            i = i + 1;
        }
        false
    }

    /// Drain all completed slots, in slot order, and clear every slot.
    pub fn take_completed(&mut self) -> (r: Vec<ToolCall>)
        ensures
            r@.map_values(|c: ToolCall| c@) =~= completed_of(old(self)@),
            final(self)@ =~= Seq::<PendingShape>::empty(),
    {
        let mut out: Vec<ToolCall> = Vec::new();
        let mut i: usize = 0;
        while i < self.calls.len()
            invariant
                0 <= i <= self@.len(),
                self@ =~= old(self)@,
                out@.map_values(|c: ToolCall| c@) =~= completed_of(self@.take(i as int)),
            decreases self@.len() - i,
        {
            proof {
                assert(self@.take(i + 1).drop_last() =~= self@.take(i as int));
            }
            let c: &PendingToolCall = &self.calls[i];
            if c.completed {
                out.push(
                    ToolCall { id: c.id.clone(), name: c.name.clone(), input: c.input_buffer.clone() },
                );
            }
            i = i + 1;
            proof {
                assert(out@.map_values(|c: ToolCall| c@) =~= completed_of(self@.take(i as int)));
            }
        }
        proof {
            assert(self@.take(self@.len() as int) =~= self@);
        }
        self.calls.clear();
        out
    }

    /// Whether the collector holds any slot at all.
    pub fn is_active(&self) -> (r: bool)
        ensures
            r == (self@.len() > 0),
    {
        self.calls.len() > 0
    }
}

/// The event that starts a tool-use block at `index`.
pub open spec fn tool_start_event(
    index: u32,
    id: Seq<char>,
    name: Seq<char>,
    seed: Seq<char>,
) -> EventShape {
    EventShape::ContentBlockStart {
        index,
        content_block: BlockShape::ToolUse { id, name, input: seed },
    }
}

/// The event that appends one JSON fragment at `index`.
pub open spec fn json_delta_event(index: u32, fragment: Seq<char>) -> EventShape {
    EventShape::ContentBlockDelta {
        index,
        delta: DeltaShape::InputJson { partial_json: fragment },
    }
}

/// The event that completes the block at `index`.
pub open spec fn stop_event(index: u32) -> EventShape {
    EventShape::ContentBlockStop { index }
}

/// All fragments joined in order.
pub open spec fn concat_all(frags: Seq<Seq<char>>) -> Seq<char>
    decreases frags.len(),
{
    if frags.len() == 0 {
        Seq::empty()
    } else {
        frags[0] + concat_all(frags.drop_first())
    }
}

proof fn lemma_process_all_app(s: Seq<PendingShape>, a: Seq<EventShape>, b: Seq<EventShape>)
    ensures
        process_all(s, a + b) == process_all(process_all(s, a), b),
    decreases a.len(),
{
    if a.len() == 0 {
        assert(a + b =~= b);
    } else {
        assert((a + b)[0] == a[0]);
        assert((a + b).drop_first() =~= a.drop_first() + b);
        lemma_process_all_app(process_spec(s, a[0]), a.drop_first(), b);
    }
}

proof fn lemma_deltas_append(s: Seq<PendingShape>, index: u32, frags: Seq<Seq<char>>)
    requires
        (index as int) < s.len(),
    ensures
        process_all(s, frags.map_values(|f: Seq<char>| json_delta_event(index, f))) =~= s.update(
            index as int,
            (PendingShape {
                input_buffer: s[index as int].input_buffer + concat_all(frags),
                ..s[index as int]
            }),
        ),
    decreases frags.len(),
{
    let i = index as int;
    let evs = frags.map_values(|f: Seq<char>| json_delta_event(index, f));
    if frags.len() == 0 {
        assert(s[i].input_buffer + concat_all(frags) =~= s[i].input_buffer);
        assert(s.update(i, (PendingShape { input_buffer: s[i].input_buffer, ..s[i] })) =~= s);
    } else {
        let s1 = process_spec(s, evs[0]);
        assert(evs[0] == json_delta_event(index, frags[0]));
        assert(evs.drop_first() =~= frags.drop_first().map_values(
            |f: Seq<char>| json_delta_event(index, f),
        ));
        lemma_deltas_append(s1, index, frags.drop_first());
        assert((s[i].input_buffer + frags[0]) + concat_all(frags.drop_first()) =~= s[i].input_buffer
            + concat_all(frags));
        assert(s1.update(
            i,
            (PendingShape {
                input_buffer: s1[i].input_buffer + concat_all(frags.drop_first()),
                ..s1[i]
            }),
        ) =~= s.update(
            i,
            (PendingShape { input_buffer: s[i].input_buffer + concat_all(frags), ..s[i] }),
        ));
    }
}

proof fn lemma_completed_none(s: Seq<PendingShape>)
    requires
        forall|k: int| 0 <= k < s.len() ==> !(#[trigger] s[k].completed),
    ensures
        completed_of(s) =~= Seq::<ToolCallShape>::empty(),
    decreases s.len(),
{
    if s.len() > 0 {
        lemma_completed_none(s.drop_last());
    }
}

proof fn lemma_completed_single(s: Seq<PendingShape>, i: int)
    requires
        0 <= i < s.len(),
        s[i].completed,
        forall|k: int| 0 <= k < s.len() && k != i ==> !(#[trigger] s[k].completed),
    ensures
        completed_of(s) =~= seq![call_of(s[i])],
    decreases s.len(),
{
    if i == s.len() - 1 {
        lemma_completed_none(s.drop_last());
    } else {
        lemma_completed_single(s.drop_last(), i);
    }
}

/// Law (aggregator completeness): starting from a fresh collector, a
/// tool-use block start at some index, followed by any number of JSON
/// fragments at that index and a block stop there, drains to exactly
/// one completed call whose argument text is the seed carried by the
/// start followed by all fragments joined in order.
pub proof fn theorem_aggregator_completeness(
    index: u32,
    id: Seq<char>,
    name: Seq<char>,
    seed: Seq<char>,
    frags: Seq<Seq<char>>,
)
    ensures
        ({
            let evs = seq![tool_start_event(index, id, name, seed)] + frags.map_values(
                |f: Seq<char>| json_delta_event(index, f),
            ) + seq![stop_event(index)];
            completed_of(process_all(Seq::empty(), evs)) =~= seq![
                (ToolCallShape { id, name, input: seed + concat_all(frags) }),
            ]
        }),
{
    let i = index as int;
    let start = seq![tool_start_event(index, id, name, seed)];
    let deltas = frags.map_values(|f: Seq<char>| json_delta_event(index, f));
    let stop = seq![stop_event(index)];
    let evs = start + deltas + stop;
    assert(evs =~= (start + deltas) + stop);
    lemma_process_all_app(Seq::empty(), start + deltas, stop);
    lemma_process_all_app(Seq::empty(), start, deltas);
    assert(start.drop_first() =~= Seq::<EventShape>::empty());
    let s1 = process_spec(Seq::empty(), tool_start_event(index, id, name, seed));
    assert(start[0] == tool_start_event(index, id, name, seed));
    assert(process_all(Seq::empty(), start) == process_all(s1, start.drop_first()));
    assert(process_all(s1, Seq::<EventShape>::empty()) == s1);
    assert(process_all(Seq::empty(), start) == s1);
    assert(s1.len() == i + 1);
    assert(s1[i] == (PendingShape { id, name, input_buffer: seed, completed: false }));
    lemma_deltas_append(s1, index, frags);
    let s2 = process_all(s1, deltas);
    let s3 = process_all(s2, stop);
    assert(stop.drop_first() =~= Seq::<EventShape>::empty());
    assert(stop[0] == stop_event(index));
    assert(s3 == process_all(process_spec(s2, stop_event(index)), stop.drop_first()));
    assert(process_all(process_spec(s2, stop_event(index)), Seq::<EventShape>::empty())
        == process_spec(s2, stop_event(index)));
    assert(s3 == process_spec(s2, stop_event(index)));
    assert(s3[i] == (PendingShape { id, name, input_buffer: seed + concat_all(frags), completed: true }));
    assert(forall|k: int| 0 <= k < s3.len() && k != i ==> !(#[trigger] s3[k].completed));
    lemma_completed_single(s3, i);
    assert(call_of(s3[i]) == (ToolCallShape { id, name, input: seed + concat_all(frags) }));
}

/// Whether an event addresses slot `i`.
pub open spec fn touches(e: EventShape, i: int) -> bool {
    match e {
        EventShape::ContentBlockStart {
            index,
            content_block: BlockShape::ToolUse { .. },
        } => index as int == i,
        EventShape::ContentBlockDelta {
            index,
            delta: DeltaShape::InputJson { .. },
        } => index as int == i,
        EventShape::ContentBlockStop { index } => index as int == i,
        _ => false,
    }
}

/// Law (multi-index independence): an event addressed to one index
/// never changes the slot of another index, so interleaved deltas
/// cannot cross-contaminate argument buffers.
pub proof fn theorem_multi_index_independence(s: Seq<PendingShape>, e: EventShape, i: int)
    requires
        0 <= i < s.len(),
        !touches(e, i),
    ensures
        process_spec(s, e).len() >= s.len(),
        process_spec(s, e)[i] == s[i],
{
}

/// The slot positions of the completed slots, in slot order.
pub open spec fn completed_indices(s: Seq<PendingShape>) -> Seq<int>
    decreases s.len(),
{
    if s.len() == 0 {
        Seq::empty()
    } else {
        completed_indices(s.drop_last()) + (if s.last().completed {
            seq![s.len() - 1]
        } else {
            Seq::empty()
        })
    }
}

/// Law (ascending drain order): the calls a drain returns correspond,
/// one for one, to the completed slots, read in strictly ascending
/// index order.
pub proof fn theorem_drain_ascending(s: Seq<PendingShape>)
    ensures
        completed_indices(s).len() == completed_of(s).len(),
        forall|k: int|
            0 <= k < completed_indices(s).len() ==> 0 <= #[trigger] completed_indices(s)[k]
                < s.len() && s[completed_indices(s)[k]].completed && completed_of(s)[k] == call_of(
                s[completed_indices(s)[k]],
            ),
        forall|k1: int, k2: int|
            #![trigger completed_indices(s)[k1], completed_indices(s)[k2]]
            0 <= k1 < k2 < completed_indices(s).len() ==> completed_indices(s)[k1]
                < completed_indices(s)[k2],
    decreases s.len(),
{
    if s.len() > 0 {
        theorem_drain_ascending(s.drop_last());
    }
}

/// A drain returns a call exactly when some slot is completed.
pub proof fn lemma_completed_nonempty(s: Seq<PendingShape>)
    ensures
        (completed_of(s).len() > 0) <==> (exists|k: int|
            0 <= k < s.len() && (#[trigger] s[k].completed)),
    decreases s.len(),
{
    if s.len() > 0 {
        let d = s.drop_last();
        lemma_completed_nonempty(d);
        if s.last().completed {
            assert(s[s.len() - 1].completed);
        } else {
            if completed_of(s).len() > 0 {
                let k = choose|k: int| 0 <= k < d.len() && (#[trigger] d[k].completed);
                assert(s[k].completed);
            }
            if exists|k: int| 0 <= k < s.len() && (#[trigger] s[k].completed) {
                let k = choose|k: int| 0 <= k < s.len() && (#[trigger] s[k].completed);
                assert(d[k].completed);
            }
        }
    }
}

/// Law (idempotent drain): when no slot is completed, a drain returns
/// the empty list. Since `take_completed` also clears every slot, a
/// second drain right after any drain starts from an empty slot list,
/// where this law applies again and `has_completed_calls` is false.
pub proof fn theorem_idempotent_drain(s: Seq<PendingShape>)
    requires
        forall|k: int| 0 <= k < s.len() ==> !(#[trigger] s[k].completed),
    ensures
        completed_of(s) =~= Seq::<ToolCallShape>::empty(),
{
    lemma_completed_none(s);
}

/// Law (monotone slots): processing an event never shrinks the slot
/// list; during one response it only grows, until a drain resets it.
pub proof fn theorem_slots_grow_monotonically(s: Seq<PendingShape>, e: EventShape)
    ensures
        process_spec(s, e).len() >= s.len(),
{
}

/// Law (fixed identity, growing buffer): any event except a new tool
/// block start at that index leaves a slot's id and name unchanged
/// and can only append to its argument buffer.
pub proof fn theorem_slot_identity_fixed(s: Seq<PendingShape>, e: EventShape, i: int)
    requires
        0 <= i < s.len(),
        match e {
            EventShape::ContentBlockStart {
                index,
                content_block: BlockShape::ToolUse { .. },
            } => index as int != i,
            _ => true,
        },
    ensures
        process_spec(s, e)[i].id == s[i].id,
        process_spec(s, e)[i].name == s[i].name,
        process_spec(s, e)[i].completed ==> s[i].completed || e == stop_event(i as u32),
        process_spec(s, e)[i].input_buffer.len() >= s[i].input_buffer.len(),
        process_spec(s, e)[i].input_buffer.take(s[i].input_buffer.len() as int)
            =~= s[i].input_buffer,
{
}

} // verus!
