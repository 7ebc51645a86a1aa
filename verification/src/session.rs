//! The relay session: event dispatch and stream lifecycle.
//!
//! A `Session` owns one inbound request's state: the line buffer, the
//! one-shot first-token correction flag, and the lifecycle state. Upstream
//! bytes are fed in; outward events come out. Once the session reaches a
//! terminal state, nothing further is dispatched.

use vstd::prelude::*;
use vstd::string::StringExecFns;

use crate::frame::{classify_spec, decode_of, decode_payload, classify_line, FrameView, LineClass,
    LineClassView, StreamingEvent};
use crate::lines::{complete_lines, line_tail, vecs_view, LineBuffer};

verus! {

/// Whether `bytes` is valid UTF-8 text.
pub uninterp spec fn is_utf8(bytes: Seq<u8>) -> bool;

/// Relies on `std::str::from_utf8`: returns whether the chunk is valid
/// UTF-8 text. A chunk that is not is skipped whole, never fed.
#[verifier::external_body]
fn utf8_check(bytes: &[u8]) -> (r: bool)
    ensures
        r == is_utf8(bytes@),
{
    std::str::from_utf8(bytes).is_ok()
}

/// Lifecycle of a relay session.
#[derive(Clone, Copy, PartialEq, Eq, Structural, Debug)]
pub enum SessionState {
    /// No upstream event handled yet.
    Idle,
    /// A `message_start` event has been handled.
    Started,
    /// At least one token has been emitted.
    Streaming,
    /// The upstream stream ended normally; nothing further is dispatched.
    Finished,
    /// The session ended on a transport or status error.
    Aborted,
}

/// Whether `st` is terminal: no further frames are dispatched in it.
pub open spec fn terminal(st: SessionState) -> bool {
    st == SessionState::Finished || st == SessionState::Aborted
}

/// One outward event of the relay's own vocabulary.
pub enum OutwardEvent {
    /// A human-readable progress or error line, sent as a plain event.
    Status(String),
    /// A piece of generated text, sent as a named token event.
    Token(String),
    /// The terminal completion line: the stream closes after it.
    Complete(String),
}

/// Mathematical image of an outward event.
#[verifier::ext_equal]
pub ghost enum EventView {
    Status(Seq<char>),
    Token(Seq<char>),
    Complete(Seq<char>),
}

impl View for OutwardEvent {
    type V = EventView;

    open spec fn view(&self) -> EventView {
        match self {
            OutwardEvent::Status(s) => EventView::Status(s@),
            OutwardEvent::Token(s) => EventView::Token(s@),
            OutwardEvent::Complete(s) => EventView::Complete(s@),
        }
    }
}

/// The images of a sequence of outward events, in order.
pub open spec fn events_view(v: Seq<OutwardEvent>) -> Seq<EventView> {
    v.map_values(|e: OutwardEvent| e@)
}

/// What one dispatch step produces: its outward events and the session
/// fields it leaves behind.
#[verifier::ext_equal]
pub ghost struct StepOut {
    pub events: Seq<EventView>,
    pub first_token: bool,
    pub state: SessionState,
}

/// A step that emits nothing and changes nothing.
pub open spec fn inert_step(first_token: bool, st: SessionState) -> StepOut {
    StepOut { events: Seq::empty(), first_token, state: st }
}

/// The text of the delta descriptor of `f`, if both are present.
pub open spec fn delta_text_of(f: FrameView) -> Option<Seq<char>> {
    match f.delta {
        Some(d) => d.text,
        None => None,
    }
}

/// How one decoded frame is dispatched: `message_start` emits a status;
/// `content_block_delta` with a present text emits a token, corrected by a
/// leading `<` exactly when it is the session's first; `message_stop` emits
/// the completion event and finishes the session; anything else is ignored.
/// In a terminal state nothing is dispatched.
pub open spec fn dispatch_spec(first_token: bool, st: SessionState, f: FrameView) -> StepOut {
    if terminal(st) {
        inert_step(first_token, st)
    } else if f.event_type == "message_start"@ {
        StepOut {
            events: seq![EventView::Status("Starting message generation..."@)],
            first_token,
            state: SessionState::Started,
        }
    } else if f.event_type == "content_block_delta"@ {
        match delta_text_of(f) {
            Some(t) => if first_token {
                StepOut {
                    events: seq![EventView::Token("<"@ + t)],
                    first_token: false,
                    state: SessionState::Streaming,
                }
            } else {
                StepOut {
                    events: seq![EventView::Token(t)],
                    first_token,
                    state: SessionState::Streaming,
                }
            },
            None => inert_step(first_token, st),
        }
    } else if f.event_type == "message_stop"@ {
        StepOut {
            events: seq![EventView::Complete("Generation complete!"@)],
            first_token,
            state: SessionState::Finished,
        }
    } else {
        inert_step(first_token, st)
    }
}

/// What one raw line contributes: nothing in a terminal state; otherwise a
/// blank or unprefixed or undecodable line is inert, the `[DONE]` sentinel
/// finishes the session with the completion event, and a decoded frame is
/// dispatched.
pub open spec fn line_step_spec(first_token: bool, st: SessionState, line: Seq<u8>) -> StepOut {
    if terminal(st) {
        inert_step(first_token, st)
    } else {
        match classify_spec(line) {
            LineClassView::Ignored => inert_step(first_token, st),
            LineClassView::Done => StepOut {
                events: seq![EventView::Complete("Generation complete!"@)],
                first_token,
                state: SessionState::Finished,
            },
            LineClassView::Payload(p) => match decode_of(p) {
                Some(f) => dispatch_spec(first_token, st, f),
                None => inert_step(first_token, st),
            },
        }
    }
}

/// The fold of `line_step_spec` over a sequence of lines. A terminal state
/// stops the fold: lines after it contribute nothing.
pub open spec fn process_lines_spec(
    first_token: bool,
    st: SessionState,
    lines: Seq<Seq<u8>>,
) -> StepOut
    decreases lines.len(),
{
    if lines.len() == 0 || terminal(st) {
        inert_step(first_token, st)
    } else {
        let s1 = line_step_spec(first_token, st, lines.first());
        let s2 = process_lines_spec(s1.first_token, s1.state, lines.drop_first());
        StepOut { events: s1.events + s2.events, first_token: s2.first_token, state: s2.state }
    }
}

/// Mathematical image of a session.
#[verifier::ext_equal]
pub ghost struct SessionModel {
    pub prompt: Seq<char>,
    pub first_token: bool,
    pub state: SessionState,
    pub tail: Seq<u8>,
}

/// `m` with the dispatch outcome `so` folded in.
pub open spec fn step_apply(m: SessionModel, so: StepOut) -> SessionModel {
    SessionModel { prompt: m.prompt, first_token: so.first_token, state: so.state, tail: m.tail }
}

/// `m` moved to state `st`.
pub open spec fn with_state(m: SessionModel, st: SessionState) -> SessionModel {
    SessionModel { prompt: m.prompt, first_token: m.first_token, state: st, tail: m.tail }
}

/// One relay session: the state the stream pump carries between chunks.
pub struct Session {
    /// The user prompt this session forwards.
    pub prompt: String,
    /// True while the first token has not been emitted yet.
    pub first_token: bool,
    /// Lifecycle state.
    pub state: SessionState,
    /// Bytes of the trailing partial upstream line.
    pub buffer: LineBuffer,
}

impl View for Session {
    type V = SessionModel;

    open spec fn view(&self) -> SessionModel {
        SessionModel {
            prompt: self.prompt@,
            first_token: self.first_token,
            state: self.state,
            tail: self.buffer@,
        }
    }
}

impl Session {
    /// The session's internal invariant: the retained tail holds no line.
    pub open spec fn wf(&self) -> bool {
        self.buffer.wf()
    }

    /// A fresh session for `prompt`: nothing buffered, no token sent.
    pub fn new(prompt: String) -> (r: Session)
        ensures
            r@ == (SessionModel {
                prompt: prompt@,
                first_token: true,
                state: SessionState::Idle,
                tail: Seq::empty(),
            }),
            r.wf(),
    {
        Session {
            prompt,
            first_token: true,
            state: SessionState::Idle,
            buffer: LineBuffer::new(),
        }
    }

    /// Whether the session has reached a terminal state.
    pub fn is_done(&self) -> (r: bool)
        ensures
            r == terminal(self@.state),
    {
        self.state == SessionState::Finished || self.state == SessionState::Aborted
    }

    /// Dispatches one decoded frame, as `dispatch_spec` says.
    pub fn handle_frame(&mut self, ev: &StreamingEvent) -> (out: Vec<OutwardEvent>)
        ensures
            final(self)@ == step_apply(
                old(self)@,
                dispatch_spec(old(self)@.first_token, old(self)@.state, ev@),
            ),
            events_view(out@) == dispatch_spec(
                old(self)@.first_token,
                old(self)@.state,
                ev@,
            ).events,
            final(self).wf() == old(self).wf(),
    {
        let mut out: Vec<OutwardEvent> = Vec::new();
        proof {
            assert(events_view(out@) =~= Seq::<EventView>::empty());
        }
        if self.state == SessionState::Finished || self.state == SessionState::Aborted {
            return out;
        }
        if event_type_is(ev, "message_start") {
            out.push(OutwardEvent::Status("Starting message generation...".to_owned()));
            self.state = SessionState::Started;
            proof {
                assert(events_view(out@) =~= seq![
                    EventView::Status("Starting message generation..."@),
                ]);
            }
        } else if event_type_is(ev, "content_block_delta") {
            match &ev.delta {
                Some(delta) => match &delta.text {
                    Some(text) => {
                        let t: String = if self.first_token {
                            self.first_token = false;
                            String::from_str("<").concat(text.as_str())
                        } else {
                            text.clone()
                        };
                        out.push(OutwardEvent::Token(t));
                        self.state = SessionState::Streaming;
                        proof {
                            assert(events_view(out@) =~= seq![out@[0]@]);
                        }
                    },
                    None => {},
                },
                None => {},
            }
        } else if event_type_is(ev, "message_stop") {
            out.push(OutwardEvent::Complete("Generation complete!".to_owned()));
            self.state = SessionState::Finished;
            proof {
                assert(events_view(out@) =~= seq![EventView::Complete("Generation complete!"@)]);
            }
        }
        out
    }

    /// Processes one raw line, as `line_step_spec` says.
    pub fn process_line(&mut self, line: &[u8]) -> (out: Vec<OutwardEvent>)
        ensures
            final(self)@ == step_apply(
                old(self)@,
                line_step_spec(old(self)@.first_token, old(self)@.state, line@),
            ),
            events_view(out@) == line_step_spec(
                old(self)@.first_token,
                old(self)@.state,
                line@,
            ).events,
            final(self).wf() == old(self).wf(),
    {
        if self.state == SessionState::Finished || self.state == SessionState::Aborted {
            let out: Vec<OutwardEvent> = Vec::new();
            proof {
                assert(events_view(out@) =~= Seq::<EventView>::empty());
            }
            return out;
        }
        match classify_line(line) {
            LineClass::Ignored => {
                let out: Vec<OutwardEvent> = Vec::new();
                proof {
                    assert(events_view(out@) =~= Seq::<EventView>::empty());
                }
                out
            },
            LineClass::Done => {
                let mut out: Vec<OutwardEvent> = Vec::new();
                out.push(OutwardEvent::Complete("Generation complete!".to_owned()));
                self.state = SessionState::Finished;
                proof {
                    assert(events_view(out@) =~= seq![
                        EventView::Complete("Generation complete!"@),
                    ]);
                }
                out
            },
            LineClass::Payload(p) => {
                match decode_payload(p.as_slice()) {
                    Some(ev) => self.handle_frame(&ev),
                    None => {
                        let out: Vec<OutwardEvent> = Vec::new();
                        proof {
                            assert(events_view(out@) =~= Seq::<EventView>::empty());
                        }
                        out
                    },
                }
            },
        }
    }

    /// Feeds one upstream chunk: a chunk that is not valid UTF-8 is skipped
    /// whole; otherwise its bytes join the line buffer and every complete
    /// line is processed in order, stopping at a terminal state.
    pub fn feed_chunk(&mut self, chunk: &[u8]) -> (out: Vec<OutwardEvent>)
        requires
            old(self).wf(),
        ensures
            final(self).wf(),
            !is_utf8(chunk@) ==> final(self)@ == old(self)@ && out@.len() == 0,
            is_utf8(chunk@) ==> ({
                let fold = process_lines_spec(
                    old(self)@.first_token,
                    old(self)@.state,
                    complete_lines(old(self)@.tail + chunk@),
                );
                &&& events_view(out@) == fold.events
                &&& final(self)@.first_token == fold.first_token
                &&& final(self)@.state == fold.state
                &&& final(self)@.tail == line_tail(old(self)@.tail + chunk@)
                &&& final(self)@.prompt == old(self)@.prompt
            }),
    {
        let mut out: Vec<OutwardEvent> = Vec::new();
        if !utf8_check(chunk) {
            return out;
        }
        let lines = self.buffer.feed(chunk);
        let ghost lines_seq: Seq<Seq<u8>> = vecs_view(lines@);
        let ghost ft0: bool = self@.first_token;
        let ghost st0: SessionState = self@.state;
        let mut i: usize = 0;
        proof {
            assert(lines_seq.skip(0) =~= lines_seq);
            assert(events_view(out@) =~= Seq::<EventView>::empty());
            assert(Seq::<EventView>::empty() + process_lines_spec(ft0, st0, lines_seq).events
                =~= process_lines_spec(ft0, st0, lines_seq).events);
        }
        while i < lines.len()
            invariant
                0 <= i <= lines.len(),
                lines_seq == vecs_view(lines@),
                self.wf(),
                self@.tail == line_tail(old(self)@.tail + chunk@),
                self@.prompt == old(self)@.prompt,
                process_lines_spec(ft0, st0, lines_seq) == (StepOut {
                    events: events_view(out@) + process_lines_spec(
                        self@.first_token,
                        self@.state,
                        lines_seq.skip(i as int),
                    ).events,
                    first_token: process_lines_spec(
                        self@.first_token,
                        self@.state,
                        lines_seq.skip(i as int),
                    ).first_token,
                    state: process_lines_spec(
                        self@.first_token,
                        self@.state,
                        lines_seq.skip(i as int),
                    ).state,
                }),
            decreases lines.len() - i,
        {
            let ghost pre: SessionModel = self@;
            let ghost rest: Seq<Seq<u8>> = lines_seq.skip(i as int);
            proof {
                assert(rest.len() > 0);
                assert(rest.first() == lines_seq[i as int]);
                assert(rest.drop_first() =~= lines_seq.skip(i as int + 1));
            }
            let line = &lines[i];
            if self.state == SessionState::Finished || self.state == SessionState::Aborted {
                proof {
                    assert(process_lines_spec(pre.first_token, pre.state, rest) == inert_step(
                        pre.first_token,
                        pre.state,
                    ));
                    assert(process_lines_spec(pre.first_token, pre.state, rest.drop_first())
                        == inert_step(pre.first_token, pre.state));
                }
            } else {
                let mut evs = self.process_line(line.as_slice());
                let ghost step = line_step_spec(pre.first_token, pre.state, line@);
                proof {
                    assert(process_lines_spec(pre.first_token, pre.state, rest) == (StepOut {
                        events: step.events + process_lines_spec(
                            step.first_token,
                            step.state,
                            rest.drop_first(),
                        ).events,
                        first_token: process_lines_spec(
                            step.first_token,
                            step.state,
                            rest.drop_first(),
                        ).first_token,
                        state: process_lines_spec(
                            step.first_token,
                            step.state,
                            rest.drop_first(),
                        ).state,
                    }));
                }
                let ghost out_pre: Seq<OutwardEvent> = out@;
                let ghost evs_ghost: Seq<OutwardEvent> = evs@;
                out.append(&mut evs);
                proof {
                    assert(events_view(out@) =~= events_view(out_pre) + events_view(evs_ghost));
                    assert(events_view(out_pre) + (step.events + process_lines_spec(
                        step.first_token,
                        step.state,
                        rest.drop_first(),
                    ).events) =~= (events_view(out_pre) + step.events) + process_lines_spec(
                        step.first_token,
                        step.state,
                        rest.drop_first(),
                    ).events);
                }
            }
            i = i + 1;
        }
        proof {
            assert(lines_seq.skip(lines_seq.len() as int) =~= Seq::<Seq<u8>>::empty());
            assert(process_lines_spec(self@.first_token, self@.state, Seq::<Seq<u8>>::empty())
                == inert_step(self@.first_token, self@.state));
            assert(events_view(out@) + Seq::<EventView>::empty() =~= events_view(out@));
        }
        out
    }

    /// Records that the upstream call failed to establish: one error status,
    /// then the session is aborted.
    pub fn on_connect_failure(&mut self, detail: &str) -> (out: Vec<OutwardEvent>)
        ensures
            final(self)@ == with_state(old(self)@, SessionState::Aborted),
            events_view(out@) == seq![
                EventView::Status("Error: Request failed - "@ + detail@),
            ],
            final(self).wf() == old(self).wf(),
    {
        let mut out: Vec<OutwardEvent> = Vec::new();
        out.push(OutwardEvent::Status(
            String::from_str("Error: Request failed - ").concat(detail),
        ));
        self.state = SessionState::Aborted;
        proof {
            assert(events_view(out@) =~= seq![out@[0]@]);
        }
        out
    }

    /// Records a non-success upstream status: one error status carrying the
    /// status context, then the session is aborted.
    pub fn on_error_status(&mut self, status: &str) -> (out: Vec<OutwardEvent>)
        ensures
            final(self)@ == with_state(old(self)@, SessionState::Aborted),
            events_view(out@) == seq![EventView::Status("Error: API error - "@ + status@)],
            final(self).wf() == old(self).wf(),
    {
        let mut out: Vec<OutwardEvent> = Vec::new();
        out.push(OutwardEvent::Status(String::from_str("Error: API error - ").concat(status)));
        self.state = SessionState::Aborted;
        proof {
            assert(events_view(out@) =~= seq![out@[0]@]);
        }
        out
    }

    /// Records a mid-stream read failure: one error status, then the session
    /// is aborted. Tokens already emitted stay delivered.
    pub fn on_read_error(&mut self, detail: &str) -> (out: Vec<OutwardEvent>)
        ensures
            final(self)@ == with_state(old(self)@, SessionState::Aborted),
            events_view(out@) == seq![EventView::Status("Error: Stream error - "@ + detail@)],
            final(self).wf() == old(self).wf(),
    {
        let mut out: Vec<OutwardEvent> = Vec::new();
        out.push(OutwardEvent::Status(String::from_str("Error: Stream error - ").concat(detail)));
        self.state = SessionState::Aborted;
        proof {
            assert(events_view(out@) =~= seq![out@[0]@]);
        }
        out
    }

    /// Records that the upstream stream ended without an explicit stop: a
    /// generic status, not an error; nothing if the session already ended.
    pub fn on_upstream_closed(&mut self) -> (out: Vec<OutwardEvent>)
        ensures
            terminal(old(self)@.state) ==> final(self)@ == old(self)@ && out@.len() == 0,
            !terminal(old(self)@.state) ==> final(self)@ == with_state(
                old(self)@,
                SessionState::Finished,
            ) && events_view(out@) == seq![EventView::Status("Stream ended"@)],
            final(self).wf() == old(self).wf(),
    {
        let mut out: Vec<OutwardEvent> = Vec::new();
        if self.state == SessionState::Finished || self.state == SessionState::Aborted {
            return out;
        }
        out.push(OutwardEvent::Status("Stream ended".to_owned()));
        self.state = SessionState::Finished;
        proof {
            assert(events_view(out@) =~= seq![EventView::Status("Stream ended"@)]);
        }
        out
    }
}

/// Whether the frame's event type equals `name`.
fn event_type_is(ev: &StreamingEvent, name: &str) -> (r: bool)
    ensures
        r == (ev@.event_type == name@),
{
    ev.event_type == name.to_owned()
}

/// A frame is inert when its event type is none of the three recognized
/// ones, or is a delta that carries no text.
pub open spec fn frame_inert(f: FrameView) -> bool {
    &&& f.event_type != "message_start"@
    &&& f.event_type != "message_stop"@
    &&& (f.event_type != "content_block_delta"@ || delta_text_of(f) is None)
}

/// First-token correction is applied exactly once: dispatching two delta
/// frames bearing texts `t1` and `t2` from a session whose first token is
/// still pending emits the token texts `'<' + t1` and then `t2` unchanged,
/// and afterwards the correction can never fire again.
pub proof fn lemma_first_token_correction(
    st: SessionState,
    f1: FrameView,
    f2: FrameView,
    t1: Seq<char>,
    t2: Seq<char>,
)
    requires
        !terminal(st),
        f1.event_type == "content_block_delta"@,
        f2.event_type == "content_block_delta"@,
        delta_text_of(f1) == Some(t1),
        delta_text_of(f2) == Some(t2),
    ensures
        ({
            let s1 = dispatch_spec(true, st, f1);
            let s2 = dispatch_spec(s1.first_token, s1.state, f2);
            &&& s1.events == seq![EventView::Token("<"@ + t1)]
            &&& s2.events == seq![EventView::Token(t2)]
            &&& s2.first_token == false
        }),
{
    reveal_strlit("message_start");
    reveal_strlit("content_block_delta");
    assert("message_start"@.len() == 13);
    assert("content_block_delta"@.len() == 19);
}

/// The fold of `dispatch_spec` over a sequence of decoded frames, in order.
pub open spec fn dispatch_all(
    first_token: bool,
    st: SessionState,
    frames: Seq<FrameView>,
) -> StepOut
    decreases frames.len(),
{
    if frames.len() == 0 {
        inert_step(first_token, st)
    } else {
        let s1 = dispatch_spec(first_token, st, frames.first());
        let s2 = dispatch_all(s1.first_token, s1.state, frames.drop_first());
        StepOut { events: s1.events + s2.events, first_token: s2.first_token, state: s2.state }
    }
}

/// Once the first token is out, the correction never fires again: a run of
/// delta frames bearing `texts` dispatched with the flag already cleared
/// emits each text verbatim, one token event per frame, and leaves the flag
/// cleared.
pub proof fn lemma_token_run_uncorrected(
    st: SessionState,
    frames: Seq<FrameView>,
    texts: Seq<Seq<char>>,
)
    requires
        !terminal(st),
        frames.len() == texts.len(),
        forall|i: int|
            0 <= i < frames.len() ==> (#[trigger] frames[i]).event_type
                == "content_block_delta"@ && delta_text_of(frames[i]) == Some(texts[i]),
    ensures
        ({
            let run = dispatch_all(false, st, frames);
            &&& run.events.len() == frames.len()
            &&& forall|i: int|
                0 <= i < frames.len() ==> run.events[i] == EventView::Token(texts[i])
            &&& run.first_token == false
            &&& run.state == (if frames.len() == 0 {
                st
            } else {
                SessionState::Streaming
            })
        }),
    decreases frames.len(),
{
    reveal_strlit("message_start");
    reveal_strlit("content_block_delta");
    assert("message_start"@.len() == 13);
    assert("content_block_delta"@.len() == 19);
    if frames.len() > 0 {
        let s1 = dispatch_spec(false, st, frames.first());
        assert(s1.events == seq![EventView::Token(texts[0])]);
        assert forall|i: int| 0 <= i < frames.drop_first().len() implies (#[trigger] frames.drop_first()[i]).event_type
            == "content_block_delta"@ && delta_text_of(frames.drop_first()[i]) == Some(
            texts.drop_first()[i],
        ) by {
            assert(frames.drop_first()[i] == frames[i + 1]);
            assert(texts.drop_first()[i] == texts[i + 1]);
        }
        lemma_token_run_uncorrected(SessionState::Streaming, frames.drop_first(), texts.drop_first());
        let run = dispatch_all(false, st, frames);
        let rest = dispatch_all(false, SessionState::Streaming, frames.drop_first());
        assert forall|i: int| 0 <= i < frames.len() implies run.events[i] == EventView::Token(
            texts[i],
        ) by {
            if i > 0 {
                assert(rest.events[i - 1] == EventView::Token(texts.drop_first()[i - 1]));
                assert(texts.drop_first()[i - 1] == texts[i]);
            }
        }
    }
}

/// First-token correction over a whole run: dispatching any sequence of
/// delta frames bearing `texts` from a fresh, non-terminal session emits
/// one token event per frame, the first text prefixed with `<` and every
/// later one verbatim.
pub proof fn lemma_first_token_correction_run(
    st: SessionState,
    frames: Seq<FrameView>,
    texts: Seq<Seq<char>>,
)
    requires
        !terminal(st),
        frames.len() == texts.len(),
        frames.len() > 0,
        forall|i: int|
            0 <= i < frames.len() ==> (#[trigger] frames[i]).event_type
                == "content_block_delta"@ && delta_text_of(frames[i]) == Some(texts[i]),
    ensures
        ({
            let run = dispatch_all(true, st, frames);
            &&& run.events.len() == frames.len()
            &&& run.events[0] == EventView::Token("<"@ + texts[0])
            &&& forall|i: int|
                1 <= i < frames.len() ==> run.events[i] == EventView::Token(texts[i])
            &&& run.first_token == false
            &&& run.state == SessionState::Streaming
        }),
{
    reveal_strlit("message_start");
    reveal_strlit("content_block_delta");
    assert("message_start"@.len() == 13);
    assert("content_block_delta"@.len() == 19);
    let s1 = dispatch_spec(true, st, frames.first());
    assert(s1.events == seq![EventView::Token("<"@ + texts[0])]);
    assert forall|i: int| 0 <= i < frames.drop_first().len() implies (#[trigger] frames.drop_first()[i]).event_type
        == "content_block_delta"@ && delta_text_of(frames.drop_first()[i]) == Some(
        texts.drop_first()[i],
    ) by {
        assert(frames.drop_first()[i] == frames[i + 1]);
        assert(texts.drop_first()[i] == texts[i + 1]);
    }
    lemma_token_run_uncorrected(SessionState::Streaming, frames.drop_first(), texts.drop_first());
    let run = dispatch_all(true, st, frames);
    let rest = dispatch_all(false, SessionState::Streaming, frames.drop_first());
    assert forall|i: int| 1 <= i < frames.len() implies run.events[i] == EventView::Token(
        texts[i],
    ) by {
        assert(rest.events[i - 1] == EventView::Token(texts.drop_first()[i - 1]));
        assert(texts.drop_first()[i - 1] == texts[i]);
    }
}

/// The terminal sentinel short-circuits parsing: a `[DONE]` line finishes
/// the session with the completion event, and every line still buffered
/// after it contributes nothing.
pub proof fn lemma_done_short_circuit(
    first_token: bool,
    st: SessionState,
    line: Seq<u8>,
    rest: Seq<Seq<u8>>,
)
    requires
        !terminal(st),
        classify_spec(line) == LineClassView::Done,
    ensures
        ({
            let fold = process_lines_spec(first_token, st, seq![line] + rest);
            &&& fold.events == seq![EventView::Complete("Generation complete!"@)]
            &&& fold.state == SessionState::Finished
            &&& fold.first_token == first_token
        }),
{
    let all = seq![line] + rest;
    assert(all.first() == line);
    assert(all.drop_first() =~= rest);
    let s1 = line_step_spec(first_token, st, line);
    assert(s1.state == SessionState::Finished);
    lemma_terminal_inert(s1.first_token, s1.state, rest);
    assert(s1.events + Seq::<EventView>::empty() =~= s1.events);
}

/// An unknown or malformed payload is inert: a data line whose payload does
/// not decode, or decodes to a frame of an unrecognized shape, produces no
/// outward event and leaves the session fields unchanged.
pub proof fn lemma_unknown_payload_inert(
    first_token: bool,
    st: SessionState,
    line: Seq<u8>,
    p: Seq<u8>,
)
    requires
        classify_spec(line) == LineClassView::Payload(p),
        decode_of(p) is None || (decode_of(p) matches Some(f) && frame_inert(f)),
    ensures
        line_step_spec(first_token, st, line) == inert_step(first_token, st),
{
}

/// Termination is idempotent: in a terminal state, no buffered line is
/// dispatched and nothing further is emitted.
pub proof fn lemma_terminal_inert(first_token: bool, st: SessionState, lines: Seq<Seq<u8>>)
    requires
        terminal(st),
    ensures
        process_lines_spec(first_token, st, lines) == inert_step(first_token, st),
{
}

/// Processing lines in two batches equals processing them all at once: the
/// second batch picks up exactly where the first left off, and the outward
/// events concatenate. With `lemma_line_reassembly`, a session fed chunk by
/// chunk behaves as one fed its whole input in a single chunk.
pub proof fn lemma_process_lines_append(
    first_token: bool,
    st: SessionState,
    a: Seq<Seq<u8>>,
    b: Seq<Seq<u8>>,
)
    ensures
        ({
            let sa = process_lines_spec(first_token, st, a);
            let sb = process_lines_spec(sa.first_token, sa.state, b);
            process_lines_spec(first_token, st, a + b) == StepOut {
                events: sa.events + sb.events,
                first_token: sb.first_token,
                state: sb.state,
            }
        }),
    decreases a.len(),
{
    let sa = process_lines_spec(first_token, st, a);
    let sb = process_lines_spec(sa.first_token, sa.state, b);
    if a.len() == 0 {
        assert(a + b =~= b);
        assert(Seq::<EventView>::empty() + sb.events =~= sb.events);
    } else if terminal(st) {
        assert((a + b).len() > 0);
        assert(Seq::<EventView>::empty() + sb.events =~= sb.events);
    } else {
        let s1 = line_step_spec(first_token, st, a.first());
        assert((a + b).first() == a.first());
        assert((a + b).drop_first() =~= a.drop_first() + b);
        lemma_process_lines_append(s1.first_token, s1.state, a.drop_first(), b);
        let ra = process_lines_spec(s1.first_token, s1.state, a.drop_first());
        assert(s1.events + (ra.events + sb.events) =~= (s1.events + ra.events) + sb.events);
    }
}

/// The informational status events the relay emits before contacting the
/// upstream service, in order.
pub fn pre_connect_events() -> (out: Vec<OutwardEvent>)
    ensures
        events_view(out@) == seq![
            EventView::Status("Starting generation..."@),
            EventView::Status("Preparing request to Anthropic API..."@),
            EventView::Status("Sending request to Anthropic API..."@),
        ],
{
    let mut out: Vec<OutwardEvent> = Vec::new();
    out.push(OutwardEvent::Status("Starting generation...".to_owned()));
    out.push(OutwardEvent::Status("Preparing request to Anthropic API...".to_owned()));
    out.push(OutwardEvent::Status("Sending request to Anthropic API...".to_owned()));
    proof {
        assert(events_view(out@) =~= seq![out@[0]@, out@[1]@, out@[2]@]);
    }
    out
}

/// The status event emitted once the upstream responds with success.
pub fn connected_event() -> (out: Vec<OutwardEvent>)
    ensures
        events_view(out@) == seq![EventView::Status("Streaming response from Anthropic API..."@)],
{
    let mut out: Vec<OutwardEvent> = Vec::new();
    out.push(OutwardEvent::Status("Streaming response from Anthropic API...".to_owned()));
    proof {
        assert(events_view(out@) =~= seq![out@[0]@]);
    }
    out
}

} // verus!
