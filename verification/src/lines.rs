//! Incremental splitting of a byte stream into newline-terminated lines.
//!
//! A `LineBuffer` accumulates raw upstream bytes and yields every complete
//! line (the bytes before a `\n`, which is consumed) while retaining the
//! trailing partial line for the next feed. Feeding a byte sequence in
//! arbitrary chunks yields exactly the lines of the whole sequence, in order;
//! `lemma_line_reassembly` states that law.

use vstd::prelude::*;
use vstd::slice::{slice_subrange, slice_to_vec};

verus! {

/// The newline byte that terminates a line.
pub open spec fn nl() -> u8 {
    10u8
}

/// Whether `s` contains a newline byte anywhere.
pub open spec fn has_newline(s: Seq<u8>) -> bool {
    exists|i: int| 0 <= i < s.len() && s[i] == nl()
}

/// Index of the first newline byte of `s`; `s.len()` when there is none.
pub open spec fn first_newline(s: Seq<u8>) -> int
    decreases s.len(),
{
    if s.len() == 0 {
        0
    } else if s[0] == nl() {
        0
    } else {
        1 + first_newline(s.skip(1))
    }
}

/// The complete lines of `s`: each maximal run of bytes before a newline,
/// newline bytes excluded, in order.
pub open spec fn complete_lines(s: Seq<u8>) -> Seq<Seq<u8>>
    decreases s.len(),
    via complete_lines_decreases
{
    if !has_newline(s) {
        Seq::empty()
    } else {
        let p = first_newline(s);
        seq![s.take(p)] + complete_lines(s.skip(p + 1))
    }
}

#[via_fn]
proof fn complete_lines_decreases(s: Seq<u8>) {
    if has_newline(s) {
        lemma_first_newline(s);
    }
}

/// The bytes of `s` after its last newline: the partial line that a feed
/// retains for the next chunk.
pub open spec fn line_tail(s: Seq<u8>) -> Seq<u8>
    decreases s.len(),
    via line_tail_decreases
{
    if !has_newline(s) {
        s
    } else {
        line_tail(s.skip(first_newline(s) + 1))
    }
}

#[via_fn]
proof fn line_tail_decreases(s: Seq<u8>) {
    if has_newline(s) {
        lemma_first_newline(s);
    }
}

/// `first_newline` points at a newline byte and nothing before it is one.
proof fn lemma_first_newline(s: Seq<u8>)
    requires
        has_newline(s),
    ensures
        0 <= first_newline(s) < s.len(),
        s[first_newline(s)] == nl(),
        forall|j: int| 0 <= j < first_newline(s) ==> s[j] != nl(),
    decreases s.len(),
{
    if s.len() == 0 {
    } else if s[0] == nl() {
    } else {
        assert(has_newline(s.skip(1))) by {
            let i = choose|i: int| 0 <= i < s.len() && s[i] == nl();
            assert(s.skip(1)[i - 1] == nl());
        }
        lemma_first_newline(s.skip(1));
        assert forall|j: int| 0 <= j < first_newline(s) implies s[j] != nl() by {
            if j > 0 {
                assert(s.skip(1)[j - 1] != nl());
            }
        }
    }
}

/// A position bearing a newline with none before it is the first newline.
proof fn lemma_first_newline_at(s: Seq<u8>, p: int)
    requires
        0 <= p < s.len(),
        s[p] == nl(),
        forall|j: int| 0 <= j < p ==> s[j] != nl(),
    ensures
        has_newline(s),
        first_newline(s) == p,
    decreases s.len(),
{
    if s[0] == nl() {
    } else {
        assert(s.skip(1)[p - 1] == nl());
        assert forall|j: int| 0 <= j < p - 1 implies s.skip(1)[j] != nl() by {
            assert(s[j + 1] != nl());
        }
        lemma_first_newline_at(s.skip(1), p - 1);
    }
}

/// Appending bytes to the right does not move an existing first newline.
proof fn lemma_first_newline_append(s: Seq<u8>, t: Seq<u8>)
    requires
        has_newline(s),
    ensures
        has_newline(s + t),
        first_newline(s + t) == first_newline(s),
{
    lemma_first_newline(s);
    let p = first_newline(s);
    assert((s + t)[p] == nl());
    assert forall|j: int| 0 <= j < p implies (s + t)[j] != nl() by {
        assert((s + t)[j] == s[j]);
    }
    lemma_first_newline_at(s + t, p);
}

/// Splitting the input at a chunk boundary changes no line: the lines of
/// `s + t` are the lines of `s` followed by the lines of the retained tail
/// of `s` joined with `t`, and the retained tails agree as well.
pub proof fn lemma_lines_split(s: Seq<u8>, t: Seq<u8>)
    ensures
        complete_lines(s + t) == complete_lines(s) + complete_lines(line_tail(s) + t),
        line_tail(s + t) == line_tail(line_tail(s) + t),
    decreases s.len(),
{
    if !has_newline(s) {
        assert(complete_lines(s) + complete_lines(s + t) =~= complete_lines(s + t));
        assert(line_tail(s) + t =~= s + t);
    } else {
        lemma_first_newline(s);
        lemma_first_newline_append(s, t);
        let p = first_newline(s);
        assert((s + t).take(p) =~= s.take(p));
        assert((s + t).skip(p + 1) =~= s.skip(p + 1) + t);
        lemma_lines_split(s.skip(p + 1), t);
        assert(seq![s.take(p)] + (complete_lines(s.skip(p + 1)) + complete_lines(
            line_tail(s.skip(p + 1)) + t,
        )) =~= (seq![s.take(p)] + complete_lines(s.skip(p + 1))) + complete_lines(
            line_tail(s.skip(p + 1)) + t,
        ));
    }
}

/// The lines yielded when `chunks` is fed one by one into a buffer whose
/// retained tail starts as `start`.
pub open spec fn fed_lines(start: Seq<u8>, chunks: Seq<Seq<u8>>) -> Seq<Seq<u8>>
    decreases chunks.len(),
{
    if chunks.len() == 0 {
        Seq::empty()
    } else {
        complete_lines(start + chunks.first()) + fed_lines(
            line_tail(start + chunks.first()),
            chunks.drop_first(),
        )
    }
}

/// The retained tail after `chunks` has been fed one by one.
pub open spec fn fed_tail(start: Seq<u8>, chunks: Seq<Seq<u8>>) -> Seq<u8>
    decreases chunks.len(),
{
    if chunks.len() == 0 {
        start
    } else {
        fed_tail(line_tail(start + chunks.first()), chunks.drop_first())
    }
}

/// Line reassembly: however a byte sequence is cut into chunks, feeding the
/// chunks in order yields exactly the lines of the whole sequence, and
/// retains exactly its trailing partial line.
pub proof fn lemma_line_reassembly(start: Seq<u8>, chunks: Seq<Seq<u8>>)
    requires
        !has_newline(start),
    ensures
        fed_lines(start, chunks) == complete_lines(start + chunks.flatten()),
        fed_tail(start, chunks) == line_tail(start + chunks.flatten()),
    decreases chunks.len(),
{
    if chunks.len() == 0 {
        assert(start + chunks.flatten() =~= start);
    } else {
        let c = chunks.first();
        let rest = chunks.drop_first();
        lemma_line_tail_wf(start + c);
        lemma_line_reassembly(line_tail(start + c), rest);
        lemma_lines_split(start + c, rest.flatten());
        assert(chunks.flatten() == c + rest.flatten());
        assert((start + c) + rest.flatten() =~= start + chunks.flatten());
        assert(fed_lines(start, chunks) == complete_lines(start + c) + fed_lines(
            line_tail(start + c),
            rest,
        ));
        assert(fed_lines(start, chunks) == complete_lines(start + c) + complete_lines(
            line_tail(start + c) + rest.flatten(),
        ));
        assert(fed_lines(start, chunks) == complete_lines((start + c) + rest.flatten()));
        assert(fed_tail(start, chunks) == fed_tail(line_tail(start + c), rest));
        assert(fed_tail(start, chunks) == line_tail(line_tail(start + c) + rest.flatten()));
        assert(fed_tail(start, chunks) == line_tail((start + c) + rest.flatten()));
    }
}

/// The retained tail never holds a newline.
pub proof fn lemma_line_tail_wf(s: Seq<u8>)
    ensures
        !has_newline(line_tail(s)),
    decreases s.len(),
{
    if has_newline(s) {
        lemma_first_newline(s);
        lemma_line_tail_wf(s.skip(first_newline(s) + 1));
    }
}

/// The byte sequences held by a sequence of byte vectors, in order.
pub open spec fn vecs_view(v: Seq<Vec<u8>>) -> Seq<Seq<u8>> {
    v.map_values(|x: Vec<u8>| x@)
}

/// Accumulates upstream bytes and yields complete newline-terminated lines,
/// keeping the trailing partial line across feeds.
pub struct LineBuffer {
    buf: Vec<u8>,
}

impl LineBuffer {
    /// The bytes currently retained: everything fed and not yet yielded.
    pub closed spec fn view(&self) -> Seq<u8> {
        self.buf@
    }

    /// The retained bytes never contain a complete line.
    pub closed spec fn wf(&self) -> bool {
        !has_newline(self.buf@)
    }

    /// An empty buffer.
    pub fn new() -> (r: LineBuffer)
        ensures
            r@ == Seq::<u8>::empty(),
            r.wf(),
    {
        LineBuffer { buf: Vec::new() }
    }

    /// Appends `chunk` and yields every complete line now available, in
    /// order, retaining the bytes after the last newline.
    pub fn feed(&mut self, chunk: &[u8]) -> (out: Vec<Vec<u8>>)
        requires
            old(self).wf(),
        ensures
            final(self).wf(),
            vecs_view(out@) == complete_lines(old(self)@ + chunk@),
            final(self)@ == line_tail(old(self)@ + chunk@),
    {
        let ghost total: Seq<u8> = self.buf@ + chunk@;
        let mut tmp = slice_to_vec(chunk);
        self.buf.append(&mut tmp);
        let mut out: Vec<Vec<u8>> = Vec::new();
        let mut done = false;
        proof {
            assert(vecs_view(out@) + complete_lines(self.buf@) =~= complete_lines(self.buf@));
        }
        while !done
            invariant
                complete_lines(total) == vecs_view(out@) + complete_lines(self.buf@),
                line_tail(total) == line_tail(self.buf@),
                done ==> !has_newline(self.buf@),
            decreases self.buf.len(), (if done { 0int } else { 1int }),
        {
            let n = self.buf.len();
            let mut j: usize = 0;
            while j < n && self.buf[j] != 10u8
                invariant
                    0 <= j <= n,
                    n == self.buf.len(),
                    forall|k: int| 0 <= k < j ==> self.buf@[k] != nl(),
                decreases n - j,
            {
                j = j + 1;
            }
            if j == n {
                done = true;
            } else {
                proof {
                    lemma_first_newline_at(self.buf@, j as int);
                }
                let line: Vec<u8> = slice_to_vec(slice_subrange(self.buf.as_slice(), 0, j));
                let rest: Vec<u8> = slice_to_vec(slice_subrange(self.buf.as_slice(), j + 1, n));
                let ghost prev: Seq<u8> = self.buf@;
                let ghost prev_out: Seq<Vec<u8>> = out@;
                self.buf = rest;
                out.push(line);
                proof {
                    assert(prev.take(j as int) =~= line@);
                    assert(prev.skip(j as int + 1) =~= self.buf@);
                    assert(complete_lines(prev) == seq![line@] + complete_lines(self.buf@));
                    assert(line_tail(prev) == line_tail(self.buf@));
                    assert(vecs_view(out@) =~= vecs_view(prev_out) + seq![line@]);
                    assert(vecs_view(prev_out) + (seq![line@] + complete_lines(self.buf@))
                        =~= vecs_view(out@) + complete_lines(self.buf@));
                }
            }
        }
        proof {
            assert(vecs_view(out@) + complete_lines(self.buf@) =~= vecs_view(out@));
            assert(old(self)@ + chunk@ == total);
        }
        out
    }
}

} // verus!
