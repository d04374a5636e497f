//! Framing: each message is a 4-byte big-endian payload length followed by
//! the payload; a payload is a run of fields, each ended by a NUL byte.

use vstd::prelude::*;
use crate::text::copy_range;

verus! {

/// The payload length announced by the first four bytes of `s`.
pub open spec fn be32(s: Seq<u8>) -> int {
    s[0] * 16777216 + s[1] * 65536 + s[2] * 256 + s[3]
}

/// Whether `s` starts with a whole frame.
pub open spec fn has_frame(s: Seq<u8>) -> bool {
    s.len() >= 4 && s.len() >= 4 + be32(s)
}

pub open spec fn frame_end(s: Seq<u8>) -> int {
    4 + be32(s)
}

/// The payloads of the whole frames at the start of a byte stream, in order.
pub open spec fn frames_of(s: Seq<u8>) -> Seq<Seq<u8>>
    decreases s.len(),
{
    if has_frame(s) {
        seq![s.subrange(4, frame_end(s))] + frames_of(s.subrange(frame_end(s), s.len() as int))
    } else {
        seq![]
    }
}

/// What is left of a byte stream after its whole frames: a partial frame.
pub open spec fn rest_of(s: Seq<u8>) -> Seq<u8>
    decreases s.len(),
{
    if has_frame(s) {
        rest_of(s.subrange(frame_end(s), s.len() as int))
    } else {
        s
    }
}

/// The four length bytes of a frame whose payload has `n` bytes.
pub open spec fn be32_bytes(n: nat) -> Seq<u8> {
    seq![(n / 16777216 % 256) as u8, (n / 65536 % 256) as u8, (n / 256 % 256) as u8, (n % 256) as u8]
}

/// A frame around `payload`.
pub open spec fn frame_bytes(payload: Seq<u8>) -> Seq<u8> {
    be32_bytes(payload.len()) + payload
}

pub open spec fn no_nul(f: Seq<u8>) -> bool {
    forall|i: int| 0 <= i < f.len() ==> #[trigger] f[i] != 0
}

/// Fields, each followed by its NUL terminator.
pub open spec fn join_fields(fs: Seq<Seq<u8>>) -> Seq<u8>
    decreases fs.len(),
{
    if fs.len() == 0 {
        seq![]
    } else {
        join_fields(fs.drop_last()) + fs.last().push(0)
    }
}

pub open spec fn fields_view(raw: Seq<Vec<u8>>) -> Seq<Seq<u8>> {
    raw.map_values(|f: Vec<u8>| f@)
}

/// A payload as its terminated form: a final field without its NUL is
/// closed, so that trailing bytes are not lost.
pub open spec fn terminated(p: Seq<u8>) -> Seq<u8> {
    if p.len() == 0 || p.last() == 0 {
        p
    } else {
        p.push(0)
    }
}

proof fn lemma_frames_append(c: Seq<u8>, s: Seq<u8>)
    requires
        rest_of(c) == Seq::<u8>::empty(),
    ensures
        frames_of(c + s) == frames_of(c) + frames_of(s),
        rest_of(c + s) == rest_of(s),
    decreases c.len(),
{
    if c.len() == 0 {
        assert(c + s =~= s);
        assert(frames_of(c) =~= Seq::<Seq<u8>>::empty());
        assert(frames_of(c) + frames_of(s) =~= frames_of(s));
    } else {
        assert(has_frame(c));
        let e = frame_end(c);
        let cs = c + s;
        assert(cs[0] == c[0] && cs[1] == c[1] && cs[2] == c[2] && cs[3] == c[3]);
        assert(has_frame(cs));
        let c2 = c.subrange(e, c.len() as int);
        lemma_frames_append(c2, s);
        assert(cs.subrange(e, cs.len() as int) =~= c2 + s);
        assert(cs.subrange(4, e) =~= c.subrange(4, e));
        assert(frames_of(cs) =~= frames_of(c) + frames_of(s));
    }
}

proof fn lemma_single_frame(p: Seq<u8>)
    requires
        p.len() < 0x1_0000_0000,
    ensures
        frames_of(frame_bytes(p)) == seq![p],
        rest_of(frame_bytes(p)) == Seq::<u8>::empty(),
{
    let f = frame_bytes(p);
    let n = p.len();
    assert(be32(f) == n) by {
        assert(f[0] == (n / 16777216 % 256) as u8);
        assert(f[1] == (n / 65536 % 256) as u8);
        assert(f[2] == (n / 256 % 256) as u8);
        assert(f[3] == (n % 256) as u8);
        assert((n / 16777216 % 256) * 16777216 + (n / 65536 % 256) * 65536 + (n / 256 % 256) * 256
            + n % 256 == n) by (nonlinear_arith)
            requires
                n < 0x1_0000_0000,
        ;
    }
    let t = f.subrange(frame_end(f), f.len() as int);
    assert(t =~= Seq::<u8>::empty());
    assert(!has_frame(t));
    assert(frames_of(t) =~= Seq::<Seq<u8>>::empty());
    assert(rest_of(t) == t);
    assert(f.subrange(4, frame_end(f)) =~= p);
    assert(frames_of(f) =~= seq![p]);
}

proof fn lemma_join_prefix_len(fs: Seq<Seq<u8>>, k: int)
    requires
        0 <= k < fs.len(),
    ensures
        join_fields(fs).len() >= join_fields(fs.subrange(0, k)).len() + fs[k].len() + 1,
    decreases fs.len(),
{
    assert(fs.drop_last() =~= fs.subrange(0, fs.len() - 1));
    if k < fs.len() - 1 {
        lemma_join_prefix_len(fs.drop_last(), k);
        assert(fs.drop_last().subrange(0, k) =~= fs.subrange(0, k));
    }
}

#[derive(Clone, Copy, Debug, PartialEq, Eq, Structural)]
pub enum DecodeError {
    /// The stream ended inside a frame.
    Truncated,
}

/// Reassembles frames from a byte stream that arrives in pieces of any size.
pub struct FrameDecoder {
    /// Received bytes not yet taken as frames.
    pub buf: Vec<u8>,
    /// The bytes already taken, whole frames only.
    pub consumed: Ghost<Seq<u8>>,
    /// The payloads already taken, in order.
    pub taken: Ghost<Seq<Seq<u8>>>,
}

impl FrameDecoder {
    /// Everything received so far.
    pub open spec fn received(&self) -> Seq<u8> {
        self.consumed@ + self.buf@
    }

    pub open spec fn wf(&self) -> bool {
        &&& rest_of(self.consumed@) == Seq::<u8>::empty()
        &&& frames_of(self.consumed@) == self.taken@
    }

    pub fn new() -> (r: Self)
        ensures
            r.wf(),
            r.received() == Seq::<u8>::empty(),
            r.taken@ == Seq::<Seq<u8>>::empty(),
    {
        let r = FrameDecoder {
            buf: Vec::new(),
            consumed: Ghost(Seq::empty()),
            taken: Ghost(Seq::empty()),
        };
        assert(r.received() =~= Seq::<u8>::empty());
        r
    }

    /// Appends a piece of the stream.
    pub fn push(&mut self, bytes: &Vec<u8>)
        requires
            old(self).wf(),
        ensures
            final(self).wf(),
            final(self).buf@ == old(self).buf@ + bytes@,
            final(self).received() == old(self).received() + bytes@,
            final(self).taken@ == old(self).taken@,
    {
        let mut i: usize = 0;
        let ghost b0 = self.buf@;
        while i < bytes.len()
            invariant
                self.wf(),
                i <= bytes.len(),
                self.buf@ == b0 + bytes@.subrange(0, i as int),
                self.consumed == old(self).consumed,
                self.taken == old(self).taken,
            decreases bytes.len() - i,
        {
            self.buf.push(bytes[i]);
            i = i + 1;
            assert(self.buf@ =~= b0 + bytes@.subrange(0, i as int));
        }
        assert(bytes@.subrange(0, i as int) =~= bytes@);
        assert(self.received() =~= old(self).received() + bytes@);
    }

    /// Takes the next whole frame's payload, if one has fully arrived.
    pub fn next_frame(&mut self) -> (r: Option<Vec<u8>>)
        requires
            old(self).wf(),
        ensures
            final(self).wf(),
            final(self).received() == old(self).received(),
            match r {
                Some(p) => {
                    &&& has_frame(old(self).buf@)
                    &&& p@ == old(self).buf@.subrange(4, frame_end(old(self).buf@))
                    &&& final(self).buf@ == old(self).buf@.subrange(
                        frame_end(old(self).buf@),
                        old(self).buf@.len() as int,
                    )
                    &&& final(self).taken@ == old(self).taken@.push(p@)
                },
                None => !has_frame(old(self).buf@) && *final(self) == *old(self),
            },
    {
        let n: usize = self.buf.len();
        if n < 4 {
            return None;
        }
        let len: u64 = (self.buf[0] as u64) * 16777216 + (self.buf[1] as u64) * 65536 + (
        self.buf[2] as u64) * 256 + (self.buf[3] as u64);
        if len > (n - 4) as u64 {
            return None;
        }
        let e: usize = 4 + len as usize;
        let ghost old_buf = self.buf@;
        let rest = self.buf.split_off(e);
        let payload = copy_range(&self.buf, 4, e);
        proof {
            let head = old_buf.subrange(0, e as int);
            assert(self.buf@ =~= head);
            assert(head.subrange(4, e as int) =~= old_buf.subrange(4, e as int));
            assert(be32(head) == be32(old_buf));
            let t = head.subrange(frame_end(head), head.len() as int);
            assert(t =~= Seq::<u8>::empty());
            assert(!has_frame(t));
            assert(frames_of(t) =~= Seq::<Seq<u8>>::empty());
            assert(rest_of(t) == t);
            assert(frames_of(head) =~= seq![payload@]);
            assert(rest_of(head) =~= Seq::<u8>::empty());
            lemma_frames_append(self.consumed@, head);
            self.consumed@ = self.consumed@ + head;
            self.taken@ = self.taken@.push(payload@);
            assert(frames_of(self.consumed@) =~= self.taken@);
            assert(old_buf =~= head + rest@);
        }
        self.buf = rest;
        proof {
            assert(self.received() =~= old(self).received());
        }
        Some(payload)
    }
}

impl FrameDecoder {
    /// Whether the stream may end here: every byte received belongs to a
    /// whole frame. Otherwise a message was cut off.
    pub fn end_of_stream(&self) -> (r: Result<(), DecodeError>)
        ensures
            r is Ok <==> rest_of(self.buf@) == Seq::<u8>::empty(),
    {
        let n: usize = self.buf.len();
        let mut off: usize = 0;
        assert(self.buf@.subrange(0, n as int) =~= self.buf@);
        while off < n
            invariant
                off <= n == self.buf.len(),
                rest_of(self.buf@) == rest_of(self.buf@.subrange(off as int, n as int)),
            decreases n - off,
        {
            let ghost sub = self.buf@.subrange(off as int, n as int);
            if n - off < 4 {
                assert(!has_frame(sub));
                return Err(DecodeError::Truncated);
            }
            let len: u64 = (self.buf[off] as u64) * 16777216 + (self.buf[off + 1] as u64) * 65536 + (
            self.buf[off + 2] as u64) * 256 + (self.buf[off + 3] as u64);
            assert(be32(sub) == len);
            if len > (n - off - 4) as u64 {
                assert(!has_frame(sub));
                return Err(DecodeError::Truncated);
            }
            let e: usize = 4 + len as usize;
            assert(sub.subrange(e as int, sub.len() as int) =~= self.buf@.subrange(off + e, n as int));
            off = off + e;
        }
        let ghost t = self.buf@.subrange(off as int, n as int);
        assert(t =~= Seq::<u8>::empty());
        assert(!has_frame(t));
        Ok(())
    }
}

/// The frames that a decoder has handed out, followed by those still
/// buffered, are the frames of everything received, in stream order; so the
/// order of delivery does not depend on how the stream was cut into pieces.
pub proof fn frames_follow_stream_order(d: FrameDecoder)
    requires
        d.wf(),
    ensures
        frames_of(d.received()) == d.taken@ + frames_of(d.buf@),
        rest_of(d.received()) == rest_of(d.buf@),
{
    lemma_frames_append(d.consumed@, d.buf@);
}

/// A message framed and sent whole comes out of the stream as exactly one
/// frame, whose payload is already in terminated form: splitting it sees the
/// fields that were joined, and nothing is left over.
pub proof fn framing_round_trip(fs: Seq<Seq<u8>>)
    requires
        join_fields(fs).len() < 0x1_0000_0000,
    ensures
        frames_of(frame_bytes(join_fields(fs))) == seq![join_fields(fs)],
        rest_of(frame_bytes(join_fields(fs))) == Seq::<u8>::empty(),
        terminated(join_fields(fs)) == join_fields(fs),
{
    lemma_single_frame(join_fields(fs));
}

/// Splits a payload into its fields.
pub fn split_fields(p: &Vec<u8>) -> (r: Vec<Vec<u8>>)
    ensures
        join_fields(fields_view(r@)) == terminated(p@),
        forall|i: int| 0 <= i < r.len() ==> no_nul(#[trigger] r@[i]@),
{
    let mut r: Vec<Vec<u8>> = Vec::new();
    let mut start: usize = 0;
    let mut i: usize = 0;
    let n: usize = p.len();
    while i < n
        invariant
            start <= i <= n == p.len(),
            start > 0 ==> p@[start - 1] == 0,
            join_fields(fields_view(r@)) == p@.subrange(0, start as int),
            no_nul(p@.subrange(start as int, i as int)),
            forall|k: int| 0 <= k < r.len() ==> no_nul(#[trigger] r@[k]@),
        decreases n - i,
    {
        if p[i] == 0 {
            let f = copy_range(p, start, i);
            let ghost before = r@;
            r.push(f);
            proof {
                assert(fields_view(r@).drop_last() =~= fields_view(before));
                assert(fields_view(r@).last() == f@);
                assert(p@.subrange(0, i + 1) =~= p@.subrange(0, start as int) + f@.push(0));
            }
            start = i + 1;
        } else {
            assert(p@.subrange(start as int, i + 1).drop_last() =~= p@.subrange(start as int, i as int));
        }
        i = i + 1;
    }
    if start < n {
        let f = copy_range(p, start, n);
        let ghost before = r@;
        r.push(f);
        proof {
            assert(fields_view(r@).drop_last() =~= fields_view(before));
            assert(p@.push(0) =~= p@.subrange(0, start as int) + f@.push(0));
            assert(f@[f@.len() - 1] != 0);
            assert(p@.last() != 0);
        }
    } else {
        assert(p@.subrange(0, start as int) =~= p@);
    }
    r
}

/// Frames a message, unless a field holds a NUL byte or the payload is too
/// long for its length prefix.
pub fn encode_frame(fields: &Vec<Vec<u8>>) -> (r: Option<Vec<u8>>)
    ensures
        match r {
            Some(b) => b@ == frame_bytes(join_fields(fields_view(fields@))),
            None => join_fields(fields_view(fields@)).len() >= 0x1_0000_0000 || exists|k: int|
                0 <= k < fields.len() && !no_nul(#[trigger] fields@[k]@),
        },
{
    let mut payload: Vec<u8> = Vec::new();
    let mut k: usize = 0;
    while k < fields.len()
        invariant
            k <= fields.len(),
            payload@ == join_fields(fields_view(fields@.subrange(0, k as int))),
            payload@.len() <= 0xffff_ffff,
            forall|j: int| 0 <= j < k ==> no_nul(#[trigger] fields@[j]@),
        decreases fields.len() - k,
    {
        let f = &fields[k];
        let ghost p0 = payload@;
        let mut i: usize = 0;
        while i < f.len()
            invariant
                k < fields.len(),
                f@ == fields@[k as int]@,
                i <= f.len(),
                payload@ == p0 + f@.subrange(0, i as int),
                payload@.len() <= 0xffff_ffff,
                no_nul(f@.subrange(0, i as int)),
                p0 == join_fields(fields_view(fields@.subrange(0, k as int))),
            decreases f.len() - i,
        {
            if f[i] == 0 {
                assert(!no_nul(fields@[k as int]@));
                return None;
            }
            if payload.len() >= 0xffff_fffe {
                proof {
                    let fv = fields_view(fields@);
                    lemma_join_prefix_len(fv, k as int);
                    assert(fv.subrange(0, k as int) =~= fields_view(fields@.subrange(0, k as int)));
                }
                return None;
            }
            payload.push(f[i]);
            i = i + 1;
            assert(payload@ =~= p0 + f@.subrange(0, i as int));
            assert(no_nul(f@.subrange(0, i as int))) by {
                assert forall|j: int| 0 <= j < i implies #[trigger] f@.subrange(0, i as int)[j] != 0 by {
                    if j < i - 1 {
                        assert(f@.subrange(0, i as int)[j] == f@.subrange(0, i - 1)[j]);
                    }
                }
            }
        }
        if payload.len() >= 0xffff_ffff {
            proof {
                let fv = fields_view(fields@);
                lemma_join_prefix_len(fv, k as int);
                assert(fv.subrange(0, k as int) =~= fields_view(fields@.subrange(0, k as int)));
                assert(f@.subrange(0, i as int) =~= f@);
            }
            return None;
        }
        payload.push(0);
        proof {
            let s = fields@.subrange(0, k + 1);
            assert(fields_view(s).drop_last() =~= fields_view(fields@.subrange(0, k as int)));
            assert(f@.subrange(0, i as int) =~= f@);
            assert(payload@ =~= join_fields(fields_view(s)));
            assert(no_nul(fields@[k as int]@));
        }
        k = k + 1;
    }
    assert(fields@.subrange(0, k as int) =~= fields@);
    let n: usize = payload.len();
    let mut b: Vec<u8> = vec![
        (n / 16777216 % 256) as u8,
        (n / 65536 % 256) as u8,
        (n / 256 % 256) as u8,
        (n % 256) as u8,
    ];
    b.append(&mut payload);
    assert(b@ =~= frame_bytes(join_fields(fields_view(fields@))));
    Some(b)
}

} // verus!
