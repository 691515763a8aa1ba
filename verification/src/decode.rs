//! The stream decoder: raw response bytes to internal events.
//!
//! The wire format is server-sent events: `\n`-separated lines, where
//! a line starting with `data: ` carries either the literal `[DONE]`
//! or one JSON frame. The [`LineScanner`] turns an arbitrary sequence
//! of byte chunks into complete lines; [`decode_line`] turns one line
//! into at most one [`StreamEvent`]; [`StreamDecoder`] composes the
//! two and guards each chunk's UTF-8.

use vstd::prelude::*;

use crate::events::ApiError;
use crate::events::ApiErrorShape;
use crate::events::BlockShape;
use crate::events::ContentBlock;
use crate::events::Delta;
use crate::events::DeltaShape;
use crate::events::EventShape;
use crate::events::StreamEvent;
use crate::json::field_string;
use crate::json::field_u64;
use crate::json::json_as_string;
use crate::json::json_decode_ok;
use crate::json::json_field;
use crate::json::json_get;
use crate::json::json_is_object;
use crate::json::json_object_p;
use crate::json::json_string_of;
use crate::json::json_text_of;
use crate::json::json_to_string;
use crate::json::parse_json;
use crate::json::parsed_json;
use crate::json::str_field;
use crate::json::u64_field;
use crate::text::str_eq;

verus! {

/// The position of the first newline byte, or -1 when there is none.
pub open spec fn find_nl(b: Seq<u8>) -> int
    decreases b.len(),
{
    if b.len() == 0 {
        -1
    } else if b[0] == 10u8 {
        0
    } else {
        let r = find_nl(b.drop_first());
        if r < 0 {
            -1
        } else {
            r + 1
        }
    }
}

proof fn lemma_find_nl(b: Seq<u8>)
    ensures
        find_nl(b) < 0 ==> forall|k: int| 0 <= k < b.len() ==> b[k] != 10u8,
        find_nl(b) >= 0 ==> 0 <= find_nl(b) < b.len() && b[find_nl(b)] == 10u8 && forall|k: int|
            0 <= k < find_nl(b) ==> b[k] != 10u8,
    decreases b.len(),
{
    if b.len() > 0 && b[0] != 10u8 {
        let d = b.drop_first();
        lemma_find_nl(d);
        let r = find_nl(d);
        if r < 0 {
            assert forall|k: int| 0 <= k < b.len() implies b[k] != 10u8 by {
                if k > 0 {
                    assert(b[k] == d[k - 1]);
                }
            }
        } else {
            assert(b[r + 1] == d[r]);
            assert forall|k: int| 0 <= k < r + 1 implies b[k] != 10u8 by {
                if k > 0 {
                    assert(b[k] == d[k - 1]);
                }
            }
        }
    }
}

proof fn lemma_find_nl_at(b: Seq<u8>, j: int)
    requires
        0 <= j < b.len(),
        b[j] == 10u8,
        forall|k: int| 0 <= k < j ==> b[k] != 10u8,
    ensures
        find_nl(b) == j,
    decreases b.len(),
{
    if j > 0 {
        lemma_find_nl_at(b.drop_first(), j - 1);
    }
}

proof fn lemma_find_nl_none(b: Seq<u8>)
    requires
        forall|k: int| 0 <= k < b.len() ==> b[k] != 10u8,
    ensures
        find_nl(b) < 0,
    decreases b.len(),
{
    if b.len() > 0 {
        lemma_find_nl_none(b.drop_first());
    }
}

/// The complete (newline-terminated) lines at the front of a byte
/// sequence, without their terminators.
pub open spec fn complete_lines(b: Seq<u8>) -> Seq<Seq<u8>>
    decreases b.len(),
{
    let r = find_nl(b);
    if r < 0 || r >= b.len() {
        Seq::empty()
    } else {
        seq![b.take(r)] + complete_lines(b.skip(r + 1))
    }
}

/// What remains after the last complete line: the bytes of a line
/// still waiting for its newline.
pub open spec fn line_rest(b: Seq<u8>) -> Seq<u8>
    decreases b.len(),
{
    let r = find_nl(b);
    if r < 0 || r >= b.len() {
        b
    } else {
        line_rest(b.skip(r + 1))
    }
}

/// Splits a stream of byte chunks into newline-delimited lines,
/// buffering the tail that is not yet terminated.
pub struct LineScanner {
    buffer: Vec<u8>,
}

impl View for LineScanner {
    type V = Seq<u8>;

    closed spec fn view(&self) -> Seq<u8> {
        self.buffer@
    }
}

impl LineScanner {
    /// A scanner with an empty buffer.
    pub fn new() -> (r: Self)
        ensures
            r@ =~= Seq::<u8>::empty(),
    {
        LineScanner { buffer: Vec::new() }
    }

    /// Append one chunk and hand back every line completed by it. The
    /// buffered bytes plus the chunk are exactly the returned lines,
    /// each with its newline restored, followed by the new buffer.
    pub fn push_chunk(&mut self, chunk: &[u8]) -> (lines: Vec<Vec<u8>>)
        ensures
            lines@.map_values(|l: Vec<u8>| l@) =~~= complete_lines(old(self)@ + chunk@),
            final(self)@ =~= line_rest(old(self)@ + chunk@),
    {
        self.buffer.extend_from_slice(chunk);
        let ghost total: Seq<u8> = self.buffer@;
        proof {
            assert(total =~= old(self)@ + chunk@);
        }
        let mut lines: Vec<Vec<u8>> = Vec::new();
        let mut start: usize = 0;
        let mut i: usize = 0;
        let n: usize = self.buffer.len();
        proof {
            assert(total.skip(0) =~= total);
            assert(lines@.map_values(|l: Vec<u8>| l@) + complete_lines(total) =~~= complete_lines(
                total,
            ));
        }
        while i < n
            invariant
                0 <= start <= i <= n,
                n == self.buffer@.len(),
                self.buffer@ == total,
                forall|k: int| start <= k < i ==> total[k] != 10u8,
                complete_lines(total) =~~= lines@.map_values(|l: Vec<u8>| l@) + complete_lines(
                    total.skip(start as int),
                ),
                line_rest(total) =~= line_rest(total.skip(start as int)),
            decreases n - i,
        {
            if self.buffer[i] == 10u8 {
                let ghost pre_lines = lines@;
                let line: Vec<u8> = vstd::slice::slice_to_vec(
                    vstd::slice::slice_subrange(self.buffer.as_slice(), start, i),
                );
                lines.push(line);
                proof {
                    let tail = total.skip(start as int);
                    assert(tail[i - start as int] == 10u8);
                    assert(forall|k: int| 0 <= k < i - start as int ==> tail[k] != 10u8);
                    lemma_find_nl_at(tail, i - start as int);
                    assert(tail.take(i - start as int) =~= total.subrange(start as int, i as int));
                    assert(tail.skip(i - start as int + 1) =~= total.skip(i + 1));
                    assert(complete_lines(tail) == seq![tail.take(i - start as int)]
                        + complete_lines(tail.skip(i - start as int + 1)));
                    assert(complete_lines(tail) =~~= seq![total.subrange(start as int, i as int)]
                        + complete_lines(total.skip(i + 1)));
                    assert(lines@.map_values(|l: Vec<u8>| l@) =~~= pre_lines.map_values(
                        |l: Vec<u8>| l@,
                    ).push(total.subrange(start as int, i as int)));
                    assert(complete_lines(total) =~~= lines@.map_values(|l: Vec<u8>| l@)
                        + complete_lines(total.skip(i + 1)));
                    assert(line_rest(tail) == line_rest(tail.skip(i - start as int + 1)));
                    assert(line_rest(tail) == line_rest(total.skip(i + 1)));
                }
                start = i + 1;
            }
            i = i + 1;
        }
        proof {
            let tail = total.skip(start as int);
            assert(forall|k: int| 0 <= k < tail.len() ==> tail[k] != 10u8);
            lemma_find_nl_none(tail);
            assert(complete_lines(tail) =~= Seq::<Seq<u8>>::empty());
            assert(lines@.map_values(|l: Vec<u8>| l@) =~~= complete_lines(total));
            assert(line_rest(total) =~= tail);
        }
        let rest: Vec<u8> = vstd::slice::slice_to_vec(
            vstd::slice::slice_subrange(self.buffer.as_slice(), start, n),
        );
        self.buffer = rest;
        proof {
            assert(self@ =~= line_rest(total));
        }
        lines
    }
}

/// The bytes of the `data: ` line prefix.
pub open spec fn data_prefix() -> Seq<u8> {
    seq![100u8, 97u8, 116u8, 97u8, 58u8, 32u8]
}

/// Whether a line carries a data payload.
pub open spec fn is_data_line(line: Seq<u8>) -> bool {
    line.len() >= 6 && line.take(6) == data_prefix()
}

/// The payload of a data line.
pub open spec fn payload_of(line: Seq<u8>) -> Seq<u8> {
    line.skip(6)
}

/// Strip the `data: ` prefix from a line, if it has one.
pub fn data_payload(line: &[u8]) -> (r: Option<Vec<u8>>)
    ensures
        r is Some <==> is_data_line(line@),
        r matches Some(p) ==> p@ == payload_of(line@),
{
    if line.len() < 6 {
        return None;
    }
    let ok: bool = line[0] == 100 && line[1] == 97 && line[2] == 116 && line[3] == 97 && line[4]
        == 58 && line[5] == 32;
    if ok {
        proof {
            assert(line@.take(6) =~= data_prefix());
        }
        let p: Vec<u8> = vstd::slice::slice_to_vec(
            vstd::slice::slice_subrange(line, 6, line.len()),
        );
        proof {
            assert(p@ =~= payload_of(line@));
        }
        Some(p)
    } else {
        proof {
            if line@.take(6) == data_prefix() {
                assert(line@.take(6)[0] == 100u8);
                assert(line@.take(6)[1] == 97u8);
                assert(line@.take(6)[2] == 116u8);
                assert(line@.take(6)[3] == 97u8);
                assert(line@.take(6)[4] == 58u8);
                assert(line@.take(6)[5] == 32u8);
            }
        }
        None
    }
}

/// The bytes of the `[DONE]` termination marker.
pub open spec fn done_marker() -> Seq<u8> {
    seq![91u8, 68u8, 79u8, 78u8, 69u8, 93u8]
}

/// Compare two byte slices.
pub fn bytes_eq(a: &[u8], b: &[u8]) -> (r: bool)
    ensures
        r == (a@ == b@),
{
    if a.len() != b.len() {
        assert(a@ != b@);
        return false;
    }
    let n: usize = a.len();
    let mut i: usize = 0;
    while i < n
        invariant
            n == a@.len() == b@.len(),
            0 <= i <= n,
            forall|k: int| 0 <= k < i ==> a@[k] == b@[k],
        decreases n - i,
    {
        if a[i] != b[i] {
            return false;
        }
        i = i + 1;
    }
    proof {
        assert(a@ =~= b@);
    }
    true
}

/// The image of an optional plain string.
pub open spec fn opt_text(o: Option<String>) -> Option<Seq<char>> {
    match o {
        Some(s) => Some(s@),
        None => None,
    }
}

/// The plain fields a frame's `content_block` object can carry. Each
/// field holds what the JSON object held at the matching key, when it
/// was there and of the right kind.
pub struct FrameBlock {
    /// The `type` field, when it is a string.
    pub block_type: Option<String>,
    /// The `id` field, when it is a string.
    pub id: Option<String>,
    /// The `name` field, when it is a string.
    pub name: Option<String>,
    /// Whether an `input` field is present at all.
    pub has_input: bool,
    /// The `input` field, when it is a string.
    pub input_text: Option<String>,
    /// The `input` field serialized back to text, when it is an object.
    pub input_object: Option<String>,
    /// The `text` field, when it is a string.
    pub text: Option<String>,
}

/// The mathematical image of a [`FrameBlock`].
#[verifier::ext_equal]
pub struct FrameBlockShape {
    pub block_type: Option<Seq<char>>,
    pub id: Option<Seq<char>>,
    pub name: Option<Seq<char>>,
    pub has_input: bool,
    pub input_text: Option<Seq<char>>,
    pub input_object: Option<Seq<char>>,
    pub text: Option<Seq<char>>,
}

impl View for FrameBlock {
    type V = FrameBlockShape;

    open spec fn view(&self) -> FrameBlockShape {
        FrameBlockShape {
            block_type: opt_text(self.block_type),
            id: opt_text(self.id),
            name: opt_text(self.name),
            has_input: self.has_input,
            input_text: opt_text(self.input_text),
            input_object: opt_text(self.input_object),
            text: opt_text(self.text),
        }
    }
}

/// The plain fields a frame's `delta` object can carry.
pub struct FrameDelta {
    /// The `type` field, when it is a string.
    pub delta_type: Option<String>,
    /// The `text` field, when it is a string.
    pub text: Option<String>,
    /// The `partial_json` field, when it is a string.
    pub partial_json: Option<String>,
}

/// The mathematical image of a [`FrameDelta`].
#[verifier::ext_equal]
pub struct FrameDeltaShape {
    pub delta_type: Option<Seq<char>>,
    pub text: Option<Seq<char>>,
    pub partial_json: Option<Seq<char>>,
}

impl View for FrameDelta {
    type V = FrameDeltaShape;

    open spec fn view(&self) -> FrameDeltaShape {
        FrameDeltaShape {
            delta_type: opt_text(self.delta_type),
            text: opt_text(self.text),
            partial_json: opt_text(self.partial_json),
        }
    }
}

/// The plain fields read out of one JSON frame.
pub struct Frame {
    /// The `type` discriminator, when it is a string.
    pub event_type: Option<String>,
    /// The `index` field, when it is an unsigned integer.
    pub index: Option<u64>,
    /// The `content_block` object, when present.
    pub block: Option<FrameBlock>,
    /// The `delta` object, when present.
    pub delta: Option<FrameDelta>,
    /// The `error.message` field, when it is a string.
    pub error_message: Option<String>,
}

/// The mathematical image of a [`Frame`].
#[verifier::ext_equal]
pub struct FrameShape {
    pub event_type: Option<Seq<char>>,
    pub index: Option<u64>,
    pub block: Option<FrameBlockShape>,
    pub delta: Option<FrameDeltaShape>,
    pub error_message: Option<Seq<char>>,
}

impl View for Frame {
    type V = FrameShape;

    open spec fn view(&self) -> FrameShape {
        FrameShape {
            event_type: opt_text(self.event_type),
            index: self.index,
            block: match self.block {
                Some(b) => Some(b@),
                None => None,
            },
            delta: match self.delta {
                Some(d) => Some(d@),
                None => None,
            },
            error_message: opt_text(self.error_message),
        }
    }
}

/// The index a frame addresses; anything missing or out of the 32-bit
/// range defaults to zero.
pub open spec fn index_of_spec(o: Option<u64>) -> u32 {
    match o {
        Some(n) => if n <= u32::MAX as u64 {
            n as u32
        } else {
            0
        },
        None => 0,
    }
}

/// The seed of a tool-use argument buffer: a string input as is; an
/// object input serialized, unless it serializes to the empty object;
/// anything else starts the buffer empty.
pub open spec fn block_input_spec(b: FrameBlockShape) -> Seq<char> {
    match b.input_text {
        Some(t) => t,
        None => match b.input_object {
            Some(o) => if o == "{}"@ {
                Seq::empty()
            } else {
                o
            },
            None => Seq::empty(),
        },
    }
}

/// The content block a `content_block` object describes: a well-formed
/// tool-use or text block, with anything malformed falling back to an
/// empty text block.
pub open spec fn map_block_spec(b: FrameBlockShape) -> BlockShape {
    match b.block_type {
        Some(t) => if t == "tool_use"@ {
            match (b.id, b.name) {
                (Some(id), Some(name)) => if b.has_input {
                    BlockShape::ToolUse { id, name, input: block_input_spec(b) }
                } else {
                    BlockShape::Text { text: Seq::empty() }
                },
                _ => BlockShape::Text { text: Seq::empty() },
            }
        } else if t == "text"@ {
            match b.text {
                Some(x) => BlockShape::Text { text: x },
                None => BlockShape::Text { text: Seq::empty() },
            }
        } else {
            BlockShape::Text { text: Seq::empty() }
        },
        None => BlockShape::Text { text: Seq::empty() },
    }
}

/// The delta a `delta` object describes, with anything malformed
/// falling back to an empty text delta.
pub open spec fn map_delta_spec(d: FrameDeltaShape) -> DeltaShape {
    match d.delta_type {
        Some(t) => if t == "text_delta"@ {
            match d.text {
                Some(x) => DeltaShape::Text { text: x },
                None => DeltaShape::Text { text: Seq::empty() },
            }
        } else if t == "input_json_delta"@ {
            match d.partial_json {
                Some(p) => DeltaShape::InputJson { partial_json: p },
                None => DeltaShape::Text { text: Seq::empty() },
            }
        } else {
            DeltaShape::Text { text: Seq::empty() }
        },
        None => DeltaShape::Text { text: Seq::empty() },
    }
}

/// The event one frame stands for: the `type` discriminator picks the
/// event, a block start without a block and an unknown type yield
/// nothing, and a server error event carries its message or a stock
/// one.
pub open spec fn map_frame_spec(f: FrameShape) -> Option<EventShape> {
    match f.event_type {
        None => None,
        Some(t) => if t == "message_start"@ {
            Some(EventShape::MessageStart)
        } else if t == "content_block_start"@ {
            match f.block {
                None => None,
                Some(b) => Some(
                    EventShape::ContentBlockStart {
                        index: index_of_spec(f.index),
                        content_block: map_block_spec(b),
                    },
                ),
            }
        } else if t == "content_block_delta"@ {
            Some(
                EventShape::ContentBlockDelta {
                    index: index_of_spec(f.index),
                    delta: match f.delta {
                        Some(d) => map_delta_spec(d),
                        None => DeltaShape::Text { text: Seq::empty() },
                    },
                },
            )
        } else if t == "content_block_stop"@ {
            Some(EventShape::ContentBlockStop { index: index_of_spec(f.index) })
        } else if t == "message_delta"@ {
            Some(EventShape::MessageDelta)
        } else if t == "message_stop"@ {
            Some(EventShape::MessageStop)
        } else if t == "error"@ {
            Some(
                EventShape::Error {
                    error: ApiErrorShape::Api(
                        match f.error_message {
                            Some(m) => m,
                            None => "Unknown error"@,
                        },
                    ),
                },
            )
        } else {
            None
        },
    }
}

fn index_of(o: &Option<u64>) -> (r: u32)
    ensures
        r == index_of_spec(*o),
{
    match o {
        Some(n) => if *n <= u32::MAX as u64 {
            *n as u32
        } else {
            0
        },
        None => 0,
    }
}

/// The plain fields the decoder reads out of a `content_block` JSON
/// object, in terms of the named accessor results.
pub open spec fn block_shape_of(v: serde_json::Value) -> FrameBlockShape {
    FrameBlockShape {
        block_type: str_field(v, "type"@),
        id: str_field(v, "id"@),
        name: str_field(v, "name"@),
        has_input: json_field(v, "input"@) is Some,
        input_text: match json_field(v, "input"@) {
            Some(i) => json_string_of(i),
            None => None,
        },
        input_object: match json_field(v, "input"@) {
            Some(i) => if json_object_p(i) {
                Some(json_text_of(i))
            } else {
                None
            },
            None => None,
        },
        text: str_field(v, "text"@),
    }
}

/// The plain fields the decoder reads out of a `delta` JSON object.
pub open spec fn delta_shape_of(v: serde_json::Value) -> FrameDeltaShape {
    FrameDeltaShape {
        delta_type: str_field(v, "type"@),
        text: str_field(v, "text"@),
        partial_json: str_field(v, "partial_json"@),
    }
}

/// The plain fields the decoder reads out of one frame.
pub open spec fn frame_shape_of(v: serde_json::Value) -> FrameShape {
    FrameShape {
        event_type: str_field(v, "type"@),
        index: u64_field(v, "index"@),
        block: match json_field(v, "content_block"@) {
            Some(b) => Some(block_shape_of(b)),
            None => None,
        },
        delta: match json_field(v, "delta"@) {
            Some(d) => Some(delta_shape_of(d)),
            None => None,
        },
        error_message: match json_field(v, "error"@) {
            Some(e) => str_field(e, "message"@),
            None => None,
        },
    }
}

fn extract_block(v: &serde_json::Value) -> (r: FrameBlock)
    ensures
        r@ == block_shape_of(*v),
{
    let input = json_get(v, "input");
    let r = FrameBlock {
        block_type: field_string(v, "type"),
        id: field_string(v, "id"),
        name: field_string(v, "name"),
        has_input: match input {
            Some(_) => true,
            None => false,
        },
        input_text: match input {
            Some(i) => json_as_string(i),
            None => None,
        },
        input_object: match input {
            Some(i) => if json_is_object(i) {
                Some(json_to_string(i))
            } else {
                None
            },
            None => None,
        },
        text: field_string(v, "text"),
    };
    proof {
        assert(r@ =~~= block_shape_of(*v));
    }
    r
}

fn extract_delta(v: &serde_json::Value) -> (r: FrameDelta)
    ensures
        r@ == delta_shape_of(*v),
{
    let r = FrameDelta {
        delta_type: field_string(v, "type"),
        text: field_string(v, "text"),
        partial_json: field_string(v, "partial_json"),
    };
    proof {
        assert(r@ =~~= delta_shape_of(*v));
    }
    r
}

fn extract_frame(v: &serde_json::Value) -> (r: Frame)
    ensures
        r@ == frame_shape_of(*v),
{
    let r = Frame {
        event_type: field_string(v, "type"),
        index: field_u64(v, "index"),
        block: match json_get(v, "content_block") {
            Some(b) => Some(extract_block(b)),
            None => None,
        },
        delta: match json_get(v, "delta") {
            Some(d) => Some(extract_delta(d)),
            None => None,
        },
        error_message: match json_get(v, "error") {
            Some(e) => field_string(e, "message"),
            None => None,
        },
    };
    proof {
        assert(r@ =~~= frame_shape_of(*v));
    }
    r
}

/// Build the content block a `content_block` object describes.
pub fn map_block(b: &FrameBlock) -> (r: ContentBlock)
    ensures
        r@ == map_block_spec(b@),
{
    match &b.block_type {
        Some(t) => {
            if str_eq(t.as_str(), "tool_use") {
                match (&b.id, &b.name) {
                    (Some(id), Some(name)) => {
                        if b.has_input {
                            let input: String = match &b.input_text {
                                Some(s) => s.clone(),
                                None => match &b.input_object {
                                    Some(o) => {
                                        if str_eq(o.as_str(), "{}") {
                                            String::new()
                                        } else {
                                            o.clone()
                                        }
                                    },
                                    None => String::new(),
                                },
                            };
                            ContentBlock::ToolUse { id: id.clone(), name: name.clone(), input }
                        } else {
                            ContentBlock::Text { text: String::new() }
                        }
                    },
                    _ => ContentBlock::Text { text: String::new() },
                }
            } else if str_eq(t.as_str(), "text") {
                match &b.text {
                    Some(x) => ContentBlock::Text { text: x.clone() },
                    None => ContentBlock::Text { text: String::new() },
                }
            } else {
                ContentBlock::Text { text: String::new() }
            }
        },
        None => ContentBlock::Text { text: String::new() },
    }
}

/// Build the delta a `delta` object describes.
pub fn map_delta(d: &FrameDelta) -> (r: Delta)
    ensures
        r@ == map_delta_spec(d@),
{
    match &d.delta_type {
        Some(t) => {
            if str_eq(t.as_str(), "text_delta") {
                match &d.text {
                    Some(x) => Delta::Text { text: x.clone() },
                    None => Delta::Text { text: String::new() },
                }
            } else if str_eq(t.as_str(), "input_json_delta") {
                match &d.partial_json {
                    Some(p) => Delta::InputJson { partial_json: p.clone() },
                    None => Delta::Text { text: String::new() },
                }
            } else {
                Delta::Text { text: String::new() }
            }
        },
        None => Delta::Text { text: String::new() },
    }
}

/// The image of an optional event.
pub open spec fn opt_event_shape(o: Option<StreamEvent>) -> Option<EventShape> {
    match o {
        Some(e) => Some(e@),
        None => None,
    }
}

/// Build the event one frame stands for.
pub fn map_frame(f: &Frame) -> (r: Option<StreamEvent>)
    ensures
        opt_event_shape(r) == map_frame_spec(f@),
{
    match &f.event_type {
        None => None,
        Some(t) => {
            if str_eq(t.as_str(), "message_start") {
                Some(StreamEvent::MessageStart)
            } else if str_eq(t.as_str(), "content_block_start") {
                match &f.block {
                    None => None,
                    Some(b) => Some(
                        StreamEvent::ContentBlockStart {
                            index: index_of(&f.index),
                            content_block: map_block(b),
                        },
                    ),
                }
            } else if str_eq(t.as_str(), "content_block_delta") {
                Some(
                    StreamEvent::ContentBlockDelta {
                        index: index_of(&f.index),
                        delta: match &f.delta {
                            Some(d) => map_delta(d),
                            None => Delta::Text { text: String::new() },
                        },
                    },
                )
            } else if str_eq(t.as_str(), "content_block_stop") {
                Some(StreamEvent::ContentBlockStop { index: index_of(&f.index) })
            } else if str_eq(t.as_str(), "message_delta") {
                Some(StreamEvent::MessageDelta)
            } else if str_eq(t.as_str(), "message_stop") {
                Some(StreamEvent::MessageStop)
            } else if str_eq(t.as_str(), "error") {
                let message: String = match &f.error_message {
                    Some(m) => m.clone(),
                    None => "Unknown error".to_owned(),
                };
                Some(StreamEvent::Error { error: ApiError::Api(message) })
            } else {
                None
            }
        },
    }
}

/// Read one content block out of a standalone JSON document, exactly
/// as the decoder reads the `content_block` field of a frame. None
/// when the bytes are not a JSON document at all.
pub fn parse_content_block(bytes: &[u8]) -> (r: Option<ContentBlock>)
    ensures
        r is Some <==> json_decode_ok(bytes@),
        (match (r, parsed_json(bytes@)) {
            (Some(b), Some(v)) => b@ == map_block_spec(block_shape_of(v)),
            _ => true,
        }),
{
    match parse_json(bytes) {
        None => None,
        Some(v) => {
            let b = extract_block(&v);
            Some(map_block(&b))
        },
    }
}

/// Read one delta out of a standalone JSON document, exactly as the
/// decoder reads the `delta` field of a frame. None when the bytes
/// are not a JSON document at all.
pub fn parse_delta(bytes: &[u8]) -> (r: Option<Delta>)
    ensures
        r is Some <==> json_decode_ok(bytes@),
        (match (r, parsed_json(bytes@)) {
            (Some(d), Some(v)) => d@ == map_delta_spec(delta_shape_of(v)),
            _ => true,
        }),
{
    match parse_json(bytes) {
        None => None,
        Some(v) => {
            let d = extract_delta(&v);
            Some(map_delta(&d))
        },
    }
}

/// The event that reports one frame that would not parse.
pub open spec fn parse_error_event() -> EventShape {
    EventShape::Error { error: ApiErrorShape::ParseError("Failed to parse SSE data"@) }
}

/// The event one line stands for. A line without the data prefix
/// (blank lines included) yields nothing; the `[DONE]` marker yields
/// a message stop; a payload that is not JSON yields exactly one
/// parse-error event; a JSON payload yields what its frame stands
/// for.
pub open spec fn decode_line_spec(line: Seq<u8>) -> Option<EventShape> {
    if !is_data_line(line) {
        None
    } else if payload_of(line) == done_marker() {
        Some(EventShape::MessageStop)
    } else {
        match parsed_json(payload_of(line)) {
            None => Some(parse_error_event()),
            Some(v) => map_frame_spec(frame_shape_of(v)),
        }
    }
}

/// Decode one line, exactly as [`decode_line_spec`] says.
pub fn decode_line(line: &[u8]) -> (r: Option<StreamEvent>)
    ensures
        opt_event_shape(r) == decode_line_spec(line@),
{
    let payload: Vec<u8> = match data_payload(line) {
        None => {
            return None;
        },
        Some(p) => p,
    };
    let done: Vec<u8> = vec![91u8, 68u8, 79u8, 78u8, 69u8, 93u8];
    proof {
        assert(done@ =~= done_marker());
    }
    if bytes_eq(payload.as_slice(), done.as_slice()) {
        return Some(StreamEvent::MessageStop);
    }
    match parse_json(payload.as_slice()) {
        None => Some(
            StreamEvent::Error {
                error: ApiError::ParseError("Failed to parse SSE data".to_owned()),
            },
        ),
        Some(v) => {
            let frame = extract_frame(&v);
            let r = map_frame(&frame);
            proof {
                assert(opt_event_shape(r) == map_frame_spec(frame_shape_of(v)));
            }
            r
        },
    }
}

/// The events of a sequence of lines, in order, one at most per line.
pub open spec fn line_events(lines: Seq<Seq<u8>>) -> Seq<EventShape>
    decreases lines.len(),
{
    if lines.len() == 0 {
        Seq::empty()
    } else {
        line_events(lines.drop_last()) + (match decode_line_spec(lines.last()) {
            Some(e) => seq![e],
            None => Seq::empty(),
        })
    }
}

/// The event that reports one chunk that was not UTF-8.
pub open spec fn utf8_error_event() -> EventShape {
    EventShape::Error { error: ApiErrorShape::ParseError("Invalid UTF-8 in stream"@) }
}

/// Relies on core::str::from_utf8: returns Ok exactly on valid UTF-8.
#[verifier::external_body]
fn utf8_valid(bytes: &[u8]) -> (r: bool)
    ensures
        r == vstd::utf8::valid_utf8(bytes@),
{
    core::str::from_utf8(bytes).is_ok()
}

/// Decodes a response byte stream into internal events, one chunk at
/// a time. Its view is the bytes of the line still waiting for its
/// newline.
pub struct StreamDecoder {
    scanner: LineScanner,
}

impl View for StreamDecoder {
    type V = Seq<u8>;

    closed spec fn view(&self) -> Seq<u8> {
        self.scanner@
    }
}

impl StreamDecoder {
    /// A decoder with nothing buffered.
    pub fn new() -> (r: Self)
        ensures
            r@ =~= Seq::<u8>::empty(),
    {
        StreamDecoder { scanner: LineScanner::new() }
    }

    /// Feed one chunk of the response body. A chunk that is not valid
    /// UTF-8 is dropped whole and reported as one parse-error event,
    /// leaving the buffered bytes as they were; otherwise the chunk
    /// joins the buffer and the events that come back are exactly the
    /// decodes of the lines it completes, in order.
    pub fn push_chunk(&mut self, chunk: &[u8]) -> (events: Vec<StreamEvent>)
        ensures
            !vstd::utf8::valid_utf8(chunk@) ==> final(self)@ == old(self)@ && events@.len() == 1
                && events@[0]@ == utf8_error_event(),
            vstd::utf8::valid_utf8(chunk@) ==> final(self)@ =~= line_rest(old(self)@ + chunk@)
                && events@.map_values(|e: StreamEvent| e@) =~~= line_events(
                complete_lines(old(self)@ + chunk@),
            ),
    {
        let mut events: Vec<StreamEvent> = Vec::new();
        if !utf8_valid(chunk) {
            events.push(
                StreamEvent::Error {
                    error: ApiError::ParseError("Invalid UTF-8 in stream".to_owned()),
                },
            );
            return events;
        }
        let ghost total: Seq<u8> = self@ + chunk@;
        let lines: Vec<Vec<u8>> = self.scanner.push_chunk(chunk);
        let ghost lshapes: Seq<Seq<u8>> = lines@.map_values(|l: Vec<u8>| l@);
        proof {
            assert(lshapes =~~= complete_lines(total));
            assert(events@.map_values(|e: StreamEvent| e@) =~~= line_events(lshapes.take(0)));
        }
        let mut i: usize = 0;
        while i < lines.len()
            invariant
                0 <= i <= lines@.len(),
                lshapes == lines@.map_values(|l: Vec<u8>| l@),
                events@.map_values(|e: StreamEvent| e@) =~~= line_events(lshapes.take(i as int)),
            decreases lines@.len() - i,
        {
            match decode_line(lines[i].as_slice()) {
                Some(e) => {
                    events.push(e);
                },
                None => {
                },
            }
            i = i + 1;
            proof {
                assert(lshapes.take(i as int).drop_last() =~= lshapes.take(i as int - 1));
                assert(lshapes.take(i as int).last() == lines@[i - 1]@);
                assert(events@.map_values(|e: StreamEvent| e@) =~~= line_events(
                    lshapes.take(i as int),
                ));
            }
        }
        proof {
            assert(lshapes.take(lines@.len() as int) =~= lshapes);
            assert(events@.map_values(|e: StreamEvent| e@) =~~= line_events(complete_lines(total)));
        }
        events
    }
}

/// Law (decoder resilience): how the byte stream is cut into chunks
/// never changes which lines come out. Splitting the input anywhere
/// gives the lines of the first part followed by the lines of its
/// unfinished tail joined with the rest; each line then decodes on
/// its own, so one malformed data line costs exactly one parse-error
/// event (see [`decode_line`]) and no other line.
pub proof fn theorem_chunk_boundaries_immaterial(b1: Seq<u8>, b2: Seq<u8>)
    ensures
        complete_lines(b1 + b2) =~= complete_lines(b1) + complete_lines(line_rest(b1) + b2),
        line_rest(b1 + b2) =~= line_rest(line_rest(b1) + b2),
    decreases b1.len(),
{
    lemma_find_nl(b1);
    let r = find_nl(b1);
    if r < 0 {
        assert(line_rest(b1) == b1);
        assert(complete_lines(b1) =~= Seq::<Seq<u8>>::empty());
        assert(line_rest(b1) + b2 =~= b1 + b2);
    } else {
        assert((b1 + b2)[r] == 10u8);
        assert forall|k: int| 0 <= k < r implies (b1 + b2)[k] != 10u8 by {
            assert((b1 + b2)[k] == b1[k]);
        }
        lemma_find_nl_at(b1 + b2, r);
        assert((b1 + b2).take(r) =~= b1.take(r));
        assert((b1 + b2).skip(r + 1) =~= b1.skip(r + 1) + b2);
        theorem_chunk_boundaries_immaterial(b1.skip(r + 1), b2);
        assert(complete_lines(b1 + b2) == seq![(b1 + b2).take(r)] + complete_lines(
            (b1 + b2).skip(r + 1),
        ));
        assert(complete_lines(b1) == seq![b1.take(r)] + complete_lines(b1.skip(r + 1)));
        assert(line_rest(b1) == line_rest(b1.skip(r + 1)));
        assert(line_rest(b1 + b2) == line_rest((b1 + b2).skip(r + 1)));
        assert(complete_lines(b1 + b2) =~= complete_lines(b1) + complete_lines(
            line_rest(b1) + b2,
        ));
    }
}

proof fn lemma_line_events_app(a: Seq<Seq<u8>>, b: Seq<Seq<u8>>)
    ensures
        line_events(a + b) =~~= line_events(a) + line_events(b),
    decreases b.len(),
{
    if b.len() == 0 {
        assert(a + b =~= a);
        assert(line_events(b) =~= Seq::<EventShape>::empty());
        assert(line_events(a) + line_events(b) =~= line_events(a));
    } else {
        assert((a + b).drop_last() =~= a + b.drop_last());
        assert((a + b).last() == b.last());
        lemma_line_events_app(a, b.drop_last());
        assert(line_events(a + b) =~~= line_events(a) + line_events(b));
    }
}

/// Law (stream-level resilience): the events a decoder yields depend
/// only on the bytes fed so far, never on how they were cut into
/// chunks. Together with [`decode_line_spec`], one malformed data
/// line contributes exactly its one parse-error event and leaves the
/// events of every other line unchanged.
pub proof fn theorem_event_stream_chunking_immaterial(b1: Seq<u8>, b2: Seq<u8>)
    ensures
        line_events(complete_lines(b1 + b2)) =~~= line_events(complete_lines(b1)) + line_events(
            complete_lines(line_rest(b1) + b2),
        ),
{
    theorem_chunk_boundaries_immaterial(b1, b2);
    lemma_line_events_app(complete_lines(b1), complete_lines(line_rest(b1) + b2));
}

} // verus!
