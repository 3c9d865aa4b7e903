//! Newline-delimited framing of the inbound byte stream.
//!
//! Bytes arrive in reads of arbitrary size. A frame is a run of bytes ended by
//! a newline; bytes that are not yet followed by a newline are carried over to
//! the next read and are never lost.

use vstd::prelude::*;

verus! {

/// The byte that ends a frame.
pub const NEWLINE: u8 = 10;

/// Largest number of bytes taken from the connection in one read.
pub const READ_CHUNK: usize = 1024;

/// The bytes of each frame, in order.
pub open spec fn frames_view(v: Seq<Vec<u8>>) -> Seq<Seq<u8>> {
    v.map_values(|l: Vec<u8>| l@)
}

/// Scanning state: the frames completed so far and the unterminated tail.
pub type ScanState = (Seq<Seq<u8>>, Seq<u8>);

/// Feeds `bytes` one by one to the scanner: a newline closes the current
/// frame (the newline stays part of it), any other byte extends it.
pub open spec fn scan(st: ScanState, bytes: Seq<u8>) -> ScanState
    decreases bytes.len(),
{
    if bytes.len() == 0 {
        st
    } else {
        let prev = scan(st, bytes.drop_last());
        let b = bytes.last();
        if b == NEWLINE {
            (prev.0.push(prev.1.push(b)), Seq::empty())
        } else {
            (prev.0, prev.1.push(b))
        }
    }
}

/// The complete frames of a stream that starts with `carry` and goes on with
/// `bytes`.
pub open spec fn complete_frames(carry: Seq<u8>, bytes: Seq<u8>) -> Seq<Seq<u8>> {
    scan((Seq::empty(), carry), bytes).0
}

/// What is left over, unterminated, after `carry` followed by `bytes`.
pub open spec fn leftover(carry: Seq<u8>, bytes: Seq<u8>) -> Seq<u8> {
    scan((Seq::empty(), carry), bytes).1
}

/// Scanning a concatenation is scanning its two parts in turn.
pub proof fn lemma_scan_append(st: ScanState, x: Seq<u8>, y: Seq<u8>)
    ensures
        scan(st, x + y) == scan(scan(st, x), y),
    decreases y.len(),
{
    if y.len() == 0 {
        assert(x + y =~= x);
    } else {
        assert((x + y).drop_last() =~= x + y.drop_last());
        assert((x + y).last() == y.last());
        lemma_scan_append(st, x, y.drop_last());
    }
}

/// Frames already completed are only ever extended at the end.
pub proof fn lemma_scan_prefix(done: Seq<Seq<u8>>, carry: Seq<u8>, bytes: Seq<u8>)
    ensures
        scan((done, carry), bytes).0 == done + scan((Seq::empty(), carry), bytes).0,
        scan((done, carry), bytes).1 == scan((Seq::empty(), carry), bytes).1,
    decreases bytes.len(),
{
    if bytes.len() == 0 {
        assert(done + Seq::<Seq<u8>>::empty() =~= done);
    } else {
        lemma_scan_prefix(done, carry, bytes.drop_last());
        let p = scan((Seq::empty(), carry), bytes.drop_last());
        if bytes.last() == NEWLINE {
            assert((done + p.0).push(p.1.push(bytes.last())) =~= done + p.0.push(
                p.1.push(bytes.last()),
            ));
        }
    }
}

/// Every complete frame ends with a newline, and the leftover holds none.
pub proof fn lemma_scan_shape(carry: Seq<u8>, bytes: Seq<u8>)
    requires
        !carry.contains(NEWLINE),
    ensures
        forall|k: int|
            0 <= k < complete_frames(carry, bytes).len() ==> {
                let f = #[trigger] complete_frames(carry, bytes)[k];
                f.len() > 0 && f.last() == NEWLINE && !f.drop_last().contains(NEWLINE)
            },
        !leftover(carry, bytes).contains(NEWLINE),
    decreases bytes.len(),
{
    if bytes.len() > 0 {
        lemma_scan_shape(carry, bytes.drop_last());
        let p = scan((Seq::empty(), carry), bytes.drop_last());
        let b = bytes.last();
        let cur = complete_frames(carry, bytes);
        if b == NEWLINE {
            assert(cur == p.0.push(p.1.push(b)));
            assert(p.1.push(b).drop_last() =~= p.1);
            assert forall|k: int| 0 <= k < cur.len() implies {
                let f = #[trigger] cur[k];
                f.len() > 0 && f.last() == NEWLINE && !f.drop_last().contains(NEWLINE)
            } by {
                if k < p.0.len() {
                    let old_frames = complete_frames(carry, bytes.drop_last());
                    assert(cur[k] == old_frames[k]);
                }
            }
        } else {
            assert(cur == p.0);
            assert forall|k: int| 0 <= k < cur.len() implies {
                let f = #[trigger] cur[k];
                f.len() > 0 && f.last() == NEWLINE && !f.drop_last().contains(NEWLINE)
            } by {
                let old_frames = complete_frames(carry, bytes.drop_last());
                assert(cur[k] == old_frames[k]);
            }
            assert forall|j: int| 0 <= j < p.1.push(b).len() implies p.1.push(b)[j] != NEWLINE by {
                if j < p.1.len() {
                    assert(p.1[j] != NEWLINE);
                }
            }
        }
    }
}

/// Reassembles newline-terminated frames out of reads of arbitrary size.
pub struct FrameReader {
    pending: Vec<u8>,
}

impl FrameReader {
    /// The bytes received but not yet terminated by a newline.
    pub closed spec fn pending_view(&self) -> Seq<u8> {
        self.pending@
    }

    /// A reader that has seen nothing.
    pub fn new() -> (r: FrameReader)
        ensures
            r.pending_view() == Seq::<u8>::empty(),
    {
        FrameReader { pending: Vec::new() }
    }

    /// Number of carried-over bytes.
    pub fn pending_len(&self) -> (n: usize)
        ensures
            n == self.pending_view().len(),
    {
        self.pending.len()
    }

    /// Takes one read and returns the frames it completes, each with its
    /// newline; the unterminated rest is kept for the next read.
    pub fn feed(&mut self, buf: &[u8]) -> (lines: Vec<Vec<u8>>)
        ensures
            frames_view(lines@) == complete_frames(old(self).pending_view(), buf@),
            final(self).pending_view() == leftover(old(self).pending_view(), buf@),
    {
        let ghost carry = self.pending@;
        let mut lines: Vec<Vec<u8>> = Vec::new();
        let mut cur: Vec<u8> = Vec::new();
        std::mem::swap(&mut cur, &mut self.pending);
        let mut i: usize = 0;
        assert(buf@.subrange(0, 0) =~= Seq::<u8>::empty());
        while i < buf.len()
            invariant
                i <= buf@.len(),
                frames_view(lines@) == complete_frames(carry, buf@.subrange(0, i as int)),
                cur@ == leftover(carry, buf@.subrange(0, i as int)),
            decreases buf@.len() - i,
        {
            let b = buf[i];
            let ghost before = lines@;
            proof {
                assert(buf@.subrange(0, i + 1).drop_last() =~= buf@.subrange(0, i as int));
                assert(buf@.subrange(0, i + 1).last() == b);
            }
            if b == NEWLINE {
                cur.push(b);
                let mut done: Vec<u8> = Vec::new();
                std::mem::swap(&mut done, &mut cur);
                lines.push(done);
                assert(frames_view(lines@) =~= frames_view(before).push(done@));
            } else {
                cur.push(b);
            }
            i = i + 1;
        }
        assert(buf@.subrange(0, i as int) =~= buf@);
        self.pending = cur;
        lines
    }
}

/// Splitting a stream across reads changes nothing: feeding `a` and then `b`
/// yields, together, exactly the frames (and the leftover) of feeding `a + b`
/// in one read.
pub proof fn lemma_split_reads_agree(carry: Seq<u8>, a: Seq<u8>, b: Seq<u8>)
    ensures
        complete_frames(carry, a) + complete_frames(leftover(carry, a), b)
            == complete_frames(carry, a + b),
        leftover(leftover(carry, a), b) == leftover(carry, a + b),
{
    let st = (Seq::<Seq<u8>>::empty(), carry);
    lemma_scan_append(st, a, b);
    lemma_scan_prefix(scan(st, a).0, scan(st, a).1, b);
}

/// Appends the frame terminator to an encoded message.
pub fn frame_message(msg: Vec<u8>) -> (framed: Vec<u8>)
    ensures
        framed@ == msg@.push(NEWLINE),
{
    let mut framed = msg;
    framed.push(NEWLINE);
    framed
}

} // verus!
