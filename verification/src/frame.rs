//! Recognizing upstream event frames.
//!
//! One trimmed line is either blank (ignored), a `data: <payload>` frame, or
//! noise (ignored). A payload equal to the `[DONE]` sentinel ends the stream;
//! any other payload is decoded into a [`StreamingEvent`]. A payload that
//! does not decode yields no event at all: unknown upstream shapes are
//! expected and must never abort the session.

use vstd::prelude::*;
use vstd::slice::{slice_subrange, slice_to_vec};

verus! {

/// One content block of an upstream message descriptor.
pub struct StreamingContent {
    pub content_type: String,
    pub text: Option<String>,
}

/// The nested message descriptor an upstream event may carry.
pub struct StreamingMessage {
    pub id: Option<String>,
    pub message_type: Option<String>,
    pub role: Option<String>,
    pub content: Option<Vec<StreamingContent>>,
}

/// The incremental-text descriptor an upstream event may carry.
pub struct StreamingDelta {
    pub delta_type: Option<String>,
    pub text: Option<String>,
}

/// One decoded upstream event frame.
pub struct StreamingEvent {
    pub event_type: String,
    pub message: Option<StreamingMessage>,
    pub delta: Option<StreamingDelta>,
}

/// Mathematical image of a content block.
pub ghost struct ContentView {
    pub content_type: Seq<char>,
    pub text: Option<Seq<char>>,
}

/// Mathematical image of a message descriptor.
pub ghost struct MessageView {
    pub id: Option<Seq<char>>,
    pub message_type: Option<Seq<char>>,
    pub role: Option<Seq<char>>,
    pub content: Option<Seq<ContentView>>,
}

/// Mathematical image of a delta descriptor.
pub ghost struct DeltaView {
    pub delta_type: Option<Seq<char>>,
    pub text: Option<Seq<char>>,
}

/// Mathematical image of an upstream event frame.
pub ghost struct FrameView {
    pub event_type: Seq<char>,
    pub message: Option<MessageView>,
    pub delta: Option<DeltaView>,
}

/// The image of an optional string.
pub open spec fn opt_str_view(s: Option<String>) -> Option<Seq<char>> {
    match s {
        Some(t) => Some(t@),
        None => None,
    }
}

impl View for StreamingContent {
    type V = ContentView;

    open spec fn view(&self) -> ContentView {
        ContentView { content_type: self.content_type@, text: opt_str_view(self.text) }
    }
}

impl View for StreamingMessage {
    type V = MessageView;

    open spec fn view(&self) -> MessageView {
        MessageView {
            id: opt_str_view(self.id),
            message_type: opt_str_view(self.message_type),
            role: opt_str_view(self.role),
            content: match self.content {
                Some(v) => Some(v@.map_values(|c: StreamingContent| c@)),
                None => None,
            },
        }
    }
}

impl View for StreamingDelta {
    type V = DeltaView;

    open spec fn view(&self) -> DeltaView {
        DeltaView { delta_type: opt_str_view(self.delta_type), text: opt_str_view(self.text) }
    }
}

impl View for StreamingEvent {
    type V = FrameView;

    open spec fn view(&self) -> FrameView {
        FrameView {
            event_type: self.event_type@,
            message: match self.message {
                Some(m) => Some(m@),
                None => None,
            },
            delta: match self.delta {
                Some(d) => Some(d@),
                None => None,
            },
        }
    }
}

/// The image of an optional frame.
pub open spec fn opt_frame_view(r: Option<StreamingEvent>) -> Option<FrameView> {
    match r {
        Some(e) => Some(e@),
        None => None,
    }
}

/// The frame, if any, that decoding `payload` as an upstream event yields.
pub uninterp spec fn decode_of(payload: Seq<u8>) -> Option<FrameView>;

/// Relies on `serde_json::from_slice` and the `serde_json::Value` accessors
/// `get` and `as_str`: decodes the payload as JSON and extracts the event
/// type (required) and the optional delta descriptor. The nested message
/// descriptor is not read by the relay and is left empty. A frame is
/// rejected only when the payload is not JSON or its type is missing or not
/// a string; a malformed `message` or `delta` sub-object beside a valid
/// type does not reject the frame, it merely contributes no fields.
#[verifier::external_body]
pub fn decode_payload(payload: &[u8]) -> (r: Option<StreamingEvent>)
    ensures
        opt_frame_view(r) == decode_of(payload@),
{
    let v: serde_json::Value = match serde_json::from_slice(payload) {
        Ok(v) => v,
        Err(_) => return None,
    };
    let event_type = match v.get("type").and_then(serde_json::Value::as_str) {
        Some(t) => t.to_string(),
        None => return None,
    };
    let delta = v.get("delta").map(|d| StreamingDelta {
        delta_type: d.get("type").and_then(serde_json::Value::as_str).map(str::to_string),
        text: d.get("text").and_then(serde_json::Value::as_str).map(str::to_string),
    });
    Some(StreamingEvent { event_type, message: None, delta })
}

/// The bytes the framing layer treats as whitespace when trimming a line:
/// the ASCII whitespace set, a deliberate choice — lines are handled as
/// bytes and the upstream framing (`data: `, `[DONE]`, blank separators)
/// is ASCII, so multi-byte whitespace never borders a meaningful line.
pub open spec fn is_space(b: u8) -> bool {
    b == 32u8 || b == 9u8 || b == 10u8 || b == 11u8 || b == 12u8 || b == 13u8
}

/// Index of the first non-whitespace byte of `s`; `s.len()` when all are.
pub open spec fn trim_start_idx(s: Seq<u8>) -> int
    decreases s.len(),
{
    if s.len() == 0 {
        0
    } else if !is_space(s[0]) {
        0
    } else {
        1 + trim_start_idx(s.skip(1))
    }
}

/// Index just past the last non-whitespace byte of `s`; `0` when all are.
pub open spec fn trim_end_idx(s: Seq<u8>) -> int
    decreases s.len(),
{
    if s.len() == 0 {
        0
    } else if !is_space(s.last()) {
        s.len() as int
    } else {
        trim_end_idx(s.drop_last())
    }
}

/// `s` with leading and trailing ASCII whitespace removed.
pub open spec fn trim_spec(s: Seq<u8>) -> Seq<u8> {
    if trim_start_idx(s) < trim_end_idx(s) {
        s.subrange(trim_start_idx(s), trim_end_idx(s))
    } else {
        Seq::empty()
    }
}

proof fn lemma_trim_start_at(s: Seq<u8>, a: int)
    requires
        0 <= a <= s.len(),
        forall|j: int| 0 <= j < a ==> is_space(s[j]),
        a < s.len() ==> !is_space(s[a]),
    ensures
        trim_start_idx(s) == a,
    decreases s.len(),
{
    if s.len() == 0 {
    } else if !is_space(s[0]) {
        assert(a == 0);
    } else {
        assert(a >= 1);
        assert forall|j: int| 0 <= j < a - 1 implies is_space(s.skip(1)[j]) by {
            assert(s[j + 1] == s.skip(1)[j]);
        }
        lemma_trim_start_at(s.skip(1), a - 1);
    }
}

proof fn lemma_trim_end_at(s: Seq<u8>, b: int)
    requires
        0 <= b <= s.len(),
        forall|j: int| b <= j < s.len() ==> is_space(s[j]),
        b > 0 ==> !is_space(s[b - 1]),
    ensures
        trim_end_idx(s) == b,
    decreases s.len(),
{
    if s.len() == 0 {
    } else if !is_space(s.last()) {
        assert(b == s.len());
    } else {
        assert(b < s.len());
        lemma_trim_end_at(s.drop_last(), b);
    }
}

/// Removes leading and trailing ASCII whitespace bytes from `line`.
pub fn trim_bytes(line: &[u8]) -> (t: Vec<u8>)
    ensures
        t@ == trim_spec(line@),
{
    let n = line.len();
    let mut a: usize = 0;
    while a < n && (line[a] == 32u8 || line[a] == 9u8 || line[a] == 10u8 || line[a] == 11u8
        || line[a] == 12u8 || line[a] == 13u8)
        invariant
            0 <= a <= n,
            n == line@.len(),
            forall|j: int| 0 <= j < a ==> is_space(line@[j]),
        decreases n - a,
    {
        a = a + 1;
    }
    if a == n {
        proof {
            lemma_trim_start_at(line@, a as int);
            lemma_trim_end_at(line@, 0);
        }
        return Vec::new();
    }
    let mut b: usize = n;
    while b > a && (line[b - 1] == 32u8 || line[b - 1] == 9u8 || line[b - 1] == 10u8 || line[b - 1]
        == 11u8 || line[b - 1] == 12u8 || line[b - 1] == 13u8)
        invariant
            a <= b <= n,
            n == line@.len(),
            forall|j: int| b <= j < n ==> is_space(line@[j]),
        decreases b,
    {
        b = b - 1;
    }
    proof {
        lemma_trim_start_at(line@, a as int);
        lemma_trim_end_at(line@, b as int);
    }
    slice_to_vec(slice_subrange(line, a, b))
}

/// The frame prefix of the upstream event-stream convention: `data: `.
pub open spec fn data_prefix() -> Seq<u8> {
    seq![100u8, 97u8, 116u8, 97u8, 58u8, 32u8]
}

/// The terminal sentinel payload: `[DONE]`.
pub open spec fn done_payload() -> Seq<u8> {
    seq![91u8, 68u8, 79u8, 78u8, 69u8, 93u8]
}

/// Whether a trimmed line carries a frame: it starts with `data: `.
pub open spec fn is_data_line(t: Seq<u8>) -> bool {
    t.len() >= 6 && t.take(6) == data_prefix()
}

/// The payload of a data line: the bytes after the `data: ` prefix.
pub open spec fn payload_of(t: Seq<u8>) -> Seq<u8> {
    t.skip(6)
}

/// What the frame parser makes of one raw line.
pub enum LineClass {
    /// Blank line or noise: contributes nothing.
    Ignored,
    /// The `[DONE]` sentinel: the upstream stream is finished.
    Done,
    /// A frame payload to decode.
    Payload(Vec<u8>),
}

/// Mathematical image of a line classification.
pub ghost enum LineClassView {
    Ignored,
    Done,
    Payload(Seq<u8>),
}

impl View for LineClass {
    type V = LineClassView;

    open spec fn view(&self) -> LineClassView {
        match self {
            LineClass::Ignored => LineClassView::Ignored,
            LineClass::Done => LineClassView::Done,
            LineClass::Payload(p) => LineClassView::Payload(p@),
        }
    }
}

/// How one raw line is classified: trim it; a blank or unprefixed line is
/// ignored; a `data: ` line yields its payload, or ends the stream when the
/// payload is the `[DONE]` sentinel.
pub open spec fn classify_spec(line: Seq<u8>) -> LineClassView {
    let t = trim_spec(line);
    if t.len() == 0 {
        LineClassView::Ignored
    } else if !is_data_line(t) {
        LineClassView::Ignored
    } else if payload_of(t) == done_payload() {
        LineClassView::Done
    } else {
        LineClassView::Payload(payload_of(t))
    }
}

/// Classifies one raw line as the frame parser sees it.
pub fn classify_line(line: &[u8]) -> (r: LineClass)
    ensures
        r@ == classify_spec(line@),
{
    let t = trim_bytes(line);
    if t.len() == 0 {
        return LineClass::Ignored;
    }
    if !(t.len() >= 6 && t[0] == 100u8 && t[1] == 97u8 && t[2] == 116u8 && t[3] == 97u8 && t[4]
        == 58u8 && t[5] == 32u8) {
        proof {
            if is_data_line(t@) {
                assert(t@.take(6)[0] == t@[0]);
                assert(t@.take(6)[1] == t@[1]);
                assert(t@.take(6)[2] == t@[2]);
                assert(t@.take(6)[3] == t@[3]);
                assert(t@.take(6)[4] == t@[4]);
                assert(t@.take(6)[5] == t@[5]);
            }
        }
        return LineClass::Ignored;
    }
    proof {
        assert(t@.take(6) =~= data_prefix());
    }
    let p = slice_to_vec(slice_subrange(t.as_slice(), 6, t.len()));
    proof {
        assert(p@ =~= payload_of(t@));
    }
    if p.len() == 6 && p[0] == 91u8 && p[1] == 68u8 && p[2] == 79u8 && p[3] == 78u8 && p[4] == 69u8
        && p[5] == 93u8 {
        proof {
            assert(p@ =~= done_payload());
        }
        LineClass::Done
    } else {
        proof {
            if p@ == done_payload() {
                assert(p@.len() == 6);
                assert(p@[0] == 91u8 && p@[1] == 68u8 && p@[2] == 79u8 && p@[3] == 78u8 && p@[4]
                    == 69u8 && p@[5] == 93u8);
            }
        }
        LineClass::Payload(p)
    }
}

} // verus!
