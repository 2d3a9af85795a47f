//! Tailing of the frame stream: a file that the simulation appends to, one
//! JSON text per line, the run header first. The tailer is handed what the
//! file holds past the offset it has consumed, takes the complete lines in
//! it, and turns them into messages; a line still being written stays for
//! the next read.
use vstd::prelude::*;
use vstd::slice::slice_subrange;
use crate::json::{decode_grid, grid_from_json, metadata_from_json, parse_metadata};
use crate::store::{MsgView, SimulationFrameMsg};

verus! {

pub const NEWLINE: u8 = 10;

/// The index of the first newline of `s` at or after `k`, `s.len()` when
/// there is none.
pub open spec fn newline_from(s: Seq<u8>, k: int) -> int
    decreases s.len() - k,
{
    if k < 0 || k >= s.len() {
        s.len() as int
    } else if s[k] == NEWLINE {
        k
    } else {
        newline_from(s, k + 1)
    }
}

/// The complete lines of `s` from index `k` on, without their newlines.
pub open spec fn lines_from(s: Seq<u8>, k: int) -> Seq<Seq<u8>>
    decreases s.len() - k via lines_from_decreases
{
    if k < 0 || k >= s.len() {
        Seq::empty()
    } else {
        let j = newline_from(s, k);
        if j >= s.len() {
            Seq::empty()
        } else {
            seq![s.subrange(k, j)] + lines_from(s, j + 1)
        }
    }
}

/// The index just past the last newline of `s` at or after `k`; `k` when
/// there is none.
pub open spec fn consumed_from(s: Seq<u8>, k: int) -> int
    decreases s.len() - k via consumed_from_decreases
{
    if k < 0 || k >= s.len() {
        k
    } else {
        let j = newline_from(s, k);
        if j >= s.len() {
            k
        } else {
            consumed_from(s, j + 1)
        }
    }
}

#[via_fn]
proof fn lines_from_decreases(s: Seq<u8>, k: int) {
    if 0 <= k < s.len() {
        lemma_newline_bounds(s, k);
    }
}

#[via_fn]
proof fn consumed_from_decreases(s: Seq<u8>, k: int) {
    if 0 <= k < s.len() {
        lemma_newline_bounds(s, k);
    }
}

/// The messages that one line gives, and whether the header has been seen
/// after it. Before the header a line counts only as a header; after it,
/// only as a frame. A line that does not decode (blank, cut short, or
/// malformed) gives nothing.
pub open spec fn line_messages(run: u64, has_metadata: bool, line: Seq<u8>) -> (
    Seq<MsgView>,
    bool,
) {
    if !has_metadata {
        match metadata_from_json(line) {
            Some((width, height)) => (seq![MsgView::Metadata { run, width, height }], true),
            None => (Seq::empty(), false),
        }
    } else {
        match grid_from_json(line) {
            Some(grid) => (seq![MsgView::Frame { run, grid }], true),
            None => (Seq::empty(), true),
        }
    }
}

/// The messages that `lines` give in order, and whether the header has been
/// seen after them.
pub open spec fn lines_messages(run: u64, has_metadata: bool, lines: Seq<Seq<u8>>) -> (
    Seq<MsgView>,
    bool,
)
    decreases lines.len(),
{
    if lines.len() == 0 {
        (Seq::empty(), has_metadata)
    } else {
        let first = line_messages(run, has_metadata, lines[0]);
        let rest = lines_messages(run, first.1, lines.drop_first());
        (first.0 + rest.0, rest.1)
    }
}

proof fn lemma_newline_prefix(c: Seq<u8>, k: int, p: int)
    requires
        0 <= p <= k <= c.len(),
    ensures
        newline_from(c, p) < k ==> newline_from(c.take(k), p) == newline_from(c, p),
        newline_from(c, p) >= k ==> newline_from(c.take(k), p) == k,
    decreases k - p,
{
    lemma_newline_bounds(c, p);
    if p < k {
        assert(c.take(k)[p] == c[p]);
        lemma_newline_prefix(c, k, p + 1);
    }
}

proof fn lemma_newline_bounds(s: Seq<u8>, k: int)
    requires
        0 <= k,
    ensures
        k <= s.len() ==> k <= newline_from(s, k) <= s.len(),
        newline_from(s, k) < s.len() ==> s[newline_from(s, k)] == NEWLINE,
        forall|i: int| k <= i < newline_from(s, k) ==> s[i] != NEWLINE,
    decreases s.len() - k,
{
    if k < s.len() && s[k] != NEWLINE {
        lemma_newline_bounds(s, k + 1);
    }
}

proof fn lemma_consumed_bounds(s: Seq<u8>, k: int)
    requires
        0 <= k <= s.len(),
    ensures
        k <= consumed_from(s, k) <= s.len(),
    decreases s.len() - k,
{
    if k < s.len() {
        lemma_newline_bounds(s, k);
        let j = newline_from(s, k);
        if j < s.len() {
            lemma_consumed_bounds(s, j + 1);
        }
    }
}

proof fn lemma_prefix_lines(c: Seq<u8>, k: int, p: int)
    requires
        0 <= p <= k <= c.len(),
    ensures
        p <= consumed_from(c.take(k), p) <= k,
        lines_from(c.take(k), p) + lines_from(c, consumed_from(c.take(k), p)) == lines_from(c, p),
    decreases k - p,
{
    let t = c.take(k);
    lemma_newline_prefix(c, k, p);
    lemma_newline_bounds(c, p);
    if p < k {
        let j = newline_from(c, p);
        if j < k {
            lemma_prefix_lines(c, k, j + 1);
            assert(t.subrange(p, j) =~= c.subrange(p, j));
            let a = consumed_from(t, j + 1);
            assert(lines_from(t, p) == seq![c.subrange(p, j)] + lines_from(t, j + 1));
            assert(lines_from(c, p) == seq![c.subrange(p, j)] + lines_from(c, j + 1));
            assert(seq![c.subrange(p, j)] + lines_from(t, j + 1) + lines_from(c, a) =~= seq![
                c.subrange(p, j),
            ] + (lines_from(t, j + 1) + lines_from(c, a)));
        } else {
            assert(lines_from(t, p) =~= Seq::<Seq<u8>>::empty());
            assert(lines_from(t, p) + lines_from(c, p) =~= lines_from(c, p));
        }
    } else {
        assert(lines_from(t, p) + lines_from(c, p) =~= lines_from(c, p));
    }
}

proof fn lemma_shift(c: Seq<u8>, a: int, q: int)
    requires
        0 <= a <= c.len(),
        0 <= q,
    ensures
        newline_from(c.skip(a), q) + a == newline_from(c, q + a),
        lines_from(c.skip(a), q) == lines_from(c, q + a),
        consumed_from(c.skip(a), q) + a == consumed_from(c, q + a) || q + a > c.len(),
    decreases c.len() - (q + a),
{
    let s = c.skip(a);
    if q + a < c.len() {
        lemma_shift(c, a, q + 1);
        let j = newline_from(s, q);
        lemma_newline_bounds(s, q);
        lemma_newline_bounds(c, q + a);
        if j < s.len() {
            lemma_shift(c, a, j + 1);
            assert(s.subrange(q, j) =~= c.subrange(q + a, j + a));
        }
    }
}

proof fn lemma_messages_concat(run: u64, m: bool, l1: Seq<Seq<u8>>, l2: Seq<Seq<u8>>)
    ensures
        ({
            let first = lines_messages(run, m, l1);
            let second = lines_messages(run, first.1, l2);
            lines_messages(run, m, l1 + l2) == (first.0 + second.0, second.1)
        }),
    decreases l1.len(),
{
    if l1.len() == 0 {
        assert(l1 + l2 =~= l2);
        assert(Seq::<MsgView>::empty() + lines_messages(run, m, l2).0 =~= lines_messages(
            run,
            m,
            l2,
        ).0);
    } else {
        let head = line_messages(run, m, l1[0]);
        lemma_messages_concat(run, head.1, l1.drop_first(), l2);
        assert((l1 + l2).drop_first() =~= l1.drop_first() + l2);
        assert((l1 + l2)[0] == l1[0]);
        let a = lines_messages(run, head.1, l1.drop_first());
        let b = lines_messages(run, a.1, l2);
        assert(head.0 + (a.0 + b.0) =~= (head.0 + a.0) + b.0);
    }
}

/// Reading the stream in two bursts, the second from the offset the first
/// stopped at, gives the messages that one read of everything gives, in the
/// same order, none twice and none missing: whatever point `k` the file had
/// reached at the first read, even within a line. Applied burst after burst,
/// this holds for any number of reads.
pub proof fn resumed_read_matches_single_read(run: u64, has_metadata: bool, c: Seq<u8>, k: int)
    requires
        0 <= k <= c.len(),
    ensures
        ({
            let first_chunk = c.take(k);
            let offset = consumed_from(first_chunk, 0);
            let first = lines_messages(run, has_metadata, lines_from(first_chunk, 0));
            let second_chunk = c.skip(offset);
            let second = lines_messages(run, first.1, lines_from(second_chunk, 0));
            let whole = lines_messages(run, has_metadata, lines_from(c, 0));
            &&& 0 <= offset <= k
            &&& first.0 + second.0 == whole.0
            &&& second.1 == whole.1
            &&& offset + consumed_from(second_chunk, 0) == consumed_from(c, 0)
        }),
{
    let t = c.take(k);
    let offset = consumed_from(t, 0);
    lemma_prefix_lines(c, k, 0);
    lemma_shift(c, offset, 0);
    lemma_messages_concat(run, has_metadata, lines_from(t, 0), lines_from(c, offset));
    lemma_prefix_consumed(c, k, 0);
}

proof fn lemma_prefix_consumed(c: Seq<u8>, k: int, p: int)
    requires
        0 <= p <= k <= c.len(),
    ensures
        consumed_from(c, consumed_from(c.take(k), p)) == consumed_from(c, p),
    decreases k - p,
{
    let t = c.take(k);
    lemma_newline_prefix(c, k, p);
    lemma_newline_bounds(c, p);
    if p < k {
        let j = newline_from(c, p);
        if j < k {
            lemma_prefix_consumed(c, k, j + 1);
        }
    }
}

/// Once the header has been seen, lines that all decode as frames give one
/// frame message each, in their order.
pub proof fn frame_lines_give_one_frame_each(run: u64, lines: Seq<Seq<u8>>)
    requires
        forall|i: int| 0 <= i < lines.len() ==> (#[trigger] grid_from_json(lines[i])) is Some,
    ensures
        lines_messages(run, true, lines).0.len() == lines.len(),
        forall|i: int|
            0 <= i < lines.len() ==> (#[trigger] lines_messages(run, true, lines).0[i]) == (
            MsgView::Frame { run, grid: grid_from_json(lines[i])->Some_0 }),
    decreases lines.len(),
{
    if lines.len() > 0 {
        let rest = lines.drop_first();
        assert forall|i: int| 0 <= i < rest.len() implies (#[trigger] grid_from_json(
            rest[i],
        )) is Some by {
            assert(rest[i] == lines[i + 1]);
        }
        frame_lines_give_one_frame_each(run, rest);
        let head = line_messages(run, true, lines[0]);
        let all = lines_messages(run, true, lines).0;
        assert forall|i: int| 0 <= i < lines.len() implies (#[trigger] all[i]) == (MsgView::Frame {
            run,
            grid: grid_from_json(lines[i])->Some_0,
        }) by {
            if i > 0 {
                assert(all[i] == lines_messages(run, true, rest).0[i - 1]);
                assert(rest[i - 1] == lines[i]);
            }
        }
    }
}

/// The messages in order, as contracts see them.
pub open spec fn msgs_view(msgs: Seq<SimulationFrameMsg>) -> Seq<MsgView> {
    msgs.map_values(|m: SimulationFrameMsg| m@)
}

/// The reading side of one run's stream: how far it has consumed the file,
/// and whether the run header has been seen.
#[derive(Clone, Copy, Debug, PartialEq, Eq)]
pub struct StreamTailer {
    pub run: u64,
    pub has_metadata: bool,
    /// Bytes of the file consumed so far: always the end of a complete line.
    pub offset: u64,
}

impl StreamTailer {
    /// A tailer for run `run`, at the start of the file.
    pub fn new(run: u64) -> (r: StreamTailer)
        ensures
            r.run == run,
            !r.has_metadata,
            r.offset == 0,
    {
        StreamTailer { run, has_metadata: false, offset: 0 }
    }

    /// Takes `chunk`, what the file holds from `offset` to its end, and
    /// returns the messages its complete lines give. The offset moves past
    /// the last complete line; what follows it (a line still being written)
    /// is read again next time.
    pub fn drain(&mut self, chunk: &[u8]) -> (msgs: Vec<SimulationFrameMsg>)
        requires
            old(self).offset + chunk@.len() <= u64::MAX,
        ensures
            ({
                let out = lines_messages(
                    old(self).run,
                    old(self).has_metadata,
                    lines_from(chunk@, 0),
                );
                &&& msgs_view(msgs@) == out.0
                &&& final(self).has_metadata == out.1
            }),
            final(self).offset == old(self).offset + consumed_from(chunk@, 0),
            final(self).run == old(self).run,
    {
        let ghost c = chunk@;
        let ghost run = self.run;
        let ghost whole = lines_messages(run, self.has_metadata, lines_from(c, 0));
        let mut msgs: Vec<SimulationFrameMsg> = Vec::new();
        let mut start: usize = 0;
        let mut k: usize = 0;
        proof {
            assert(msgs_view(msgs@) + lines_messages(run, self.has_metadata, lines_from(c, 0)).0
                =~= whole.0);
        }
        while k < chunk.len()
            invariant
                c == chunk@,
                self.run == run,
                start <= k <= chunk.len(),
                newline_from(c, start as int) == newline_from(c, k as int),
                whole.0 == msgs_view(msgs@) + lines_messages(
                    run,
                    self.has_metadata,
                    lines_from(c, start as int),
                ).0,
                whole.1 == lines_messages(run, self.has_metadata, lines_from(c, start as int)).1,
                consumed_from(c, 0) == consumed_from(c, start as int),
                self.offset == old(self).offset + start,
                old(self).offset + c.len() <= u64::MAX,
            decreases chunk.len() - k,
        {
            if chunk[k] == NEWLINE {
                let line = slice_subrange(chunk, start, k);
                let ghost before = msgs_view(msgs@);
                let ghost m0 = self.has_metadata;
                let ghost rest = lines_from(c, k as int + 1);
                proof {
                    assert(newline_from(c, k as int) == k);
                    assert(lines_from(c, start as int) == seq![c.subrange(start as int, k as int)]
                        + rest);
                    assert((seq![c.subrange(start as int, k as int)] + rest).drop_first() =~= rest);
                    assert((seq![c.subrange(start as int, k as int)] + rest)[0] == line@);
                }
                if !self.has_metadata {
                    match parse_metadata(line) {
                        Some((width, height)) => {
                            msgs.push(SimulationFrameMsg::Metadata { run: self.run, width, height });
                            self.has_metadata = true;
                        },
                        None => {},
                    }
                } else {
                    match decode_grid(line) {
                        Some(grid) => {
                            msgs.push(SimulationFrameMsg::Frame { run: self.run, grid });
                        },
                        None => {},
                    }
                }
                proof {
                    let head = line_messages(run, m0, line@);
                    assert(msgs_view(msgs@) =~= before + head.0);
                    let tail = lines_messages(run, head.1, rest);
                    assert(before + (head.0 + tail.0) =~= (before + head.0) + tail.0);
                }
                self.offset = self.offset + (k + 1 - start) as u64;
                start = k + 1;
            }
            k = k + 1;
        }
        proof {
            assert(lines_from(c, start as int) =~= Seq::<Seq<u8>>::empty());
            assert(msgs_view(msgs@) + Seq::<MsgView>::empty() =~= msgs_view(msgs@));
        }
        msgs
    }

    /// The message that closes the run's stream.
    pub fn ended(&self) -> (r: SimulationFrameMsg)
        ensures
            r@ == (MsgView::SimulationEnded { run: self.run }),
    {
        SimulationFrameMsg::SimulationEnded { run: self.run }
    }
}

} // verus!
