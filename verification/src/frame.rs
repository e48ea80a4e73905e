//! Incremental decoder for length-prefixed frames.
//!
//! A frame is a length prefix followed by that many payload bytes.  The prefix
//! is an unsigned integer in base 128, least significant group first: each
//! byte carries seven bits of the number, and a set top bit says that another
//! prefix byte follows.

use vstd::prelude::*;
use vstd::slice::slice_subrange;
use vstd::slice::slice_to_vec;

verus! {

/// Number of bytes of the length prefix at the front of `s`: everything up to
/// and including the first byte whose top bit is clear.  `None` while no such
/// byte has arrived.
pub open spec fn prefix_len(s: Seq<u8>) -> Option<nat>
    decreases s.len(),
{
    if s.len() == 0 {
        None
    } else if s[0] < 128 {
        Some(1)
    } else {
        match prefix_len(s.skip(1)) {
            Some(n) => Some(n + 1),
            None => None,
        }
    }
}

/// The number that the bytes of `s` spell when each is read as one base-128
/// digit (its low seven bits), least significant digit first.
pub open spec fn prefix_value(s: Seq<u8>) -> nat
    decreases s.len(),
{
    if s.len() == 0 {
        0
    } else {
        (s[0] % 128) as nat + 128 * prefix_value(s.skip(1))
    }
}

/// The frame at the front of `s`, as the pair of its prefix length and its
/// total length (prefix and payload).  `None` while the prefix or the payload
/// is incomplete.
pub open spec fn next_frame(s: Seq<u8>) -> Option<(nat, nat)> {
    match prefix_len(s) {
        Some(n) => {
            let total = n + prefix_value(s.take(n as int));
            if total <= s.len() {
                Some((n, total))
            } else {
                None
            }
        },
        None => None,
    }
}

/// Payloads of the complete frames at the front of `s`, in stream order.
pub open spec fn frames(s: Seq<u8>) -> Seq<Seq<u8>>
    decreases s.len(),
{
    match next_frame(s) {
        Some((n, total)) => seq![s.subrange(n as int, total as int)] + frames(
            s.skip(total as int),
        ),
        None => Seq::empty(),
    }
}

/// What is left of `s` once its complete frames are taken off the front.
pub open spec fn remainder(s: Seq<u8>) -> Seq<u8>
    decreases s.len(),
{
    match next_frame(s) {
        Some((n, total)) => remainder(s.skip(total as int)),
        None => s,
    }
}

/// What a decoder holding `pending` hands out when the chunks arrive one by
/// one and every complete frame is taken after each: the payloads in order,
/// and the bytes still waiting at the end.
pub open spec fn feed(pending: Seq<u8>, chunks: Seq<Seq<u8>>) -> (Seq<Seq<u8>>, Seq<u8>)
    decreases chunks.len(),
{
    if chunks.len() == 0 {
        (Seq::empty(), pending)
    } else {
        let filled = pending + chunks[0];
        let later = feed(remainder(filled), chunks.skip(1));
        (frames(filled) + later.0, later.1)
    }
}

/// The chunks joined into one stream.
pub open spec fn joined(chunks: Seq<Seq<u8>>) -> Seq<u8>
    decreases chunks.len(),
{
    if chunks.len() == 0 {
        Seq::empty()
    } else {
        chunks[0] + joined(chunks.skip(1))
    }
}

/// The length prefix that stands for `n`, in its shortest form.
pub open spec fn encode_len(n: nat) -> Seq<u8>
    decreases n,
{
    if n < 128 {
        seq![n as u8]
    } else {
        seq![(128 + n % 128) as u8] + encode_len(n / 128)
    }
}

/// One frame: the prefix for the payload's length, then the payload.
pub open spec fn encode_frame(payload: Seq<u8>) -> Seq<u8> {
    encode_len(payload.len()) + payload
}

/// The frames of the payloads, one after the other.
pub open spec fn encode_stream(payloads: Seq<Seq<u8>>) -> Seq<u8>
    decreases payloads.len(),
{
    if payloads.len() == 0 {
        Seq::empty()
    } else {
        encode_frame(payloads[0]) + encode_stream(payloads.skip(1))
    }
}

/// Where the prefix ends: at the first byte below 128, and nowhere before it.
pub proof fn lemma_prefix_len_bounds(s: Seq<u8>)
    ensures
        match prefix_len(s) {
            Some(n) => 1 <= n <= s.len() && s[n - 1] < 128 && forall|j: int|
                0 <= j < n - 1 ==> s[j] >= 128,
            None => forall|j: int| 0 <= j < s.len() ==> s[j] >= 128,
        },
    decreases s.len(),
{
    if s.len() != 0 && s[0] >= 128 {
        let t = s.skip(1);
        lemma_prefix_len_bounds(t);
        match prefix_len(t) {
            Some(m) => {
                assert forall|j: int| 0 <= j < m implies s[j] >= 128 by {
                    if j > 0 {
                        assert(s[j] == t[j - 1]);
                    }
                }
            },
            None => {
                assert forall|j: int| 0 <= j < s.len() implies s[j] >= 128 by {
                    if j > 0 {
                        assert(s[j] == t[j - 1]);
                    }
                }
            },
        }
    }
}

/// The first byte with a clear top bit ends the prefix.
pub proof fn lemma_prefix_len_at(s: Seq<u8>, n: int)
    requires
        1 <= n <= s.len(),
        s[n - 1] < 128,
        forall|j: int| 0 <= j < n - 1 ==> s[j] >= 128,
    ensures
        prefix_len(s) == Some(n as nat),
    decreases n,
{
    if n > 1 {
        lemma_prefix_len_at(s.skip(1), n - 1);
    }
}

/// Digits that follow only add to the number: the value of a tail of the
/// prefix never exceeds the value of the whole.
proof fn lemma_value_of_tail(s: Seq<u8>, k: int, n: int)
    requires
        0 <= k <= n <= s.len(),
    ensures
        prefix_value(s.subrange(k, n)) <= prefix_value(s.take(n)),
    decreases k,
{
    if k > 0 {
        lemma_value_of_tail(s, k - 1, n);
        assert(s.subrange(k - 1, n).skip(1) =~= s.subrange(k, n));
    }
}

/// Bytes that arrive later change neither the prefix at the front nor the
/// frame that was already complete.
pub proof fn lemma_next_frame_extends(a: Seq<u8>, b: Seq<u8>)
    requires
        next_frame(a) is Some,
    ensures
        next_frame(a + b) == next_frame(a),
        ({
            let (n, total) = next_frame(a)->0;
            &&& 1 <= n <= total <= a.len()
            &&& (a + b).subrange(n as int, total as int) == a.subrange(n as int, total as int)
            &&& (a + b).skip(total as int) == a.skip(total as int) + b
        }),
{
    let (n, total) = next_frame(a)->0;
    lemma_prefix_len_bounds(a);
    lemma_prefix_len_at(a + b, n as int);
    assert((a + b).take(n as int) =~= a.take(n as int));
}

/// Once every complete frame is taken, the front holds no complete frame.
pub proof fn lemma_remainder_is_drained(s: Seq<u8>)
    ensures
        next_frame(remainder(s)) is None,
        frames(remainder(s)) == Seq::<Seq<u8>>::empty(),
        remainder(remainder(s)) == remainder(s),
    decreases s.len(),
{
    match next_frame(s) {
        Some((n, total)) => {
            lemma_prefix_len_bounds(s);
            lemma_remainder_is_drained(s.skip(total as int));
        },
        None => {},
    }
}

/// Taking the frames of `a` first and the frames of what is left plus `b`
/// afterwards gives the frames of `a + b`.
pub proof fn lemma_frames_of_concat(a: Seq<u8>, b: Seq<u8>)
    ensures
        frames(a + b) == frames(a) + frames(remainder(a) + b),
        remainder(a + b) == remainder(remainder(a) + b),
    decreases a.len(),
{
    match next_frame(a) {
        Some((n, total)) => {
            lemma_next_frame_extends(a, b);
            lemma_frames_of_concat(a.skip(total as int), b);
        },
        None => {},
    }
}

/// The prefix written for `n` is read back as `n`, whatever follows it.
pub proof fn lemma_encode_len_reads_back(n: nat, rest: Seq<u8>)
    ensures
        prefix_len(encode_len(n) + rest) == Some(encode_len(n).len()),
        prefix_value(encode_len(n)) == n,
        encode_len(n).len() >= 1,
    decreases n,
{
    let e = encode_len(n);
    if n < 128 {
        assert(prefix_value(e.skip(1)) == 0);
    } else {
        let later = encode_len(n / 128);
        lemma_encode_len_reads_back(n / 128, rest);
        assert((e + rest).skip(1) =~= later + rest);
        assert(e.skip(1) =~= later);
    }
}

/// A written frame at the front of a stream is the next frame read from it.
pub proof fn lemma_encode_frame_reads_back(payload: Seq<u8>, rest: Seq<u8>)
    ensures
        next_frame(encode_frame(payload) + rest) == Some(
            (encode_len(payload.len()).len(), encode_frame(payload).len()),
        ),
        frames(encode_frame(payload) + rest) == seq![payload] + frames(rest),
        remainder(encode_frame(payload) + rest) == remainder(rest),
{
    let e = encode_len(payload.len());
    let s = encode_frame(payload) + rest;
    lemma_encode_len_reads_back(payload.len(), payload + rest);
    assert(s =~= e + (payload + rest));
    assert(s.take(e.len() as int) =~= e);
    assert(s.subrange(e.len() as int, encode_frame(payload).len() as int) =~= payload);
    assert(s.skip(encode_frame(payload).len() as int) =~= rest);
}

/// Reading a written stream gives back the payloads, in order, and leaves nothing.
pub proof fn law_stream_round_trip(payloads: Seq<Seq<u8>>)
    ensures
        frames(encode_stream(payloads)) == payloads,
        remainder(encode_stream(payloads)) == Seq::<u8>::empty(),
    decreases payloads.len(),
{
    if payloads.len() > 0 {
        let rest = encode_stream(payloads.skip(1));
        law_stream_round_trip(payloads.skip(1));
        lemma_encode_frame_reads_back(payloads[0], rest);
    }
}

/// Chunk boundaries do not matter: a decoder that holds no complete frame and
/// is fed the chunks one by one hands out what it would hand out if the whole
/// stream had arrived at once.
pub proof fn law_chunk_boundaries(pending: Seq<u8>, chunks: Seq<Seq<u8>>)
    requires
        next_frame(pending) is None,
    ensures
        feed(pending, chunks) == (
            frames(pending + joined(chunks)),
            remainder(pending + joined(chunks)),
        ),
    decreases chunks.len(),
{
    if chunks.len() > 0 {
        let filled = pending + chunks[0];
        let later = joined(chunks.skip(1));
        lemma_remainder_is_drained(filled);
        law_chunk_boundaries(remainder(filled), chunks.skip(1));
        lemma_frames_of_concat(filled, later);
        assert(pending + joined(chunks) =~= filled + later);
    }
}

/// Any two ways of cutting one stream into chunks give the same frames and
/// leave the same bytes.
pub proof fn law_chunking_is_irrelevant(first: Seq<Seq<u8>>, second: Seq<Seq<u8>>)
    requires
        joined(first) == joined(second),
    ensures
        feed(Seq::empty(), first) == feed(Seq::empty(), second),
{
    law_chunk_boundaries(Seq::empty(), first);
    law_chunk_boundaries(Seq::empty(), second);
}

/// Frames that were written one after the other and arrive cut at arbitrary
/// places come out as the payloads that went in, in order, and nothing is left.
pub proof fn law_frames_survive_chunking(payloads: Seq<Seq<u8>>, chunks: Seq<Seq<u8>>)
    requires
        joined(chunks) == encode_stream(payloads),
    ensures
        feed(Seq::empty(), chunks) == (payloads, Seq::<u8>::empty()),
{
    law_chunk_boundaries(Seq::empty(), chunks);
    law_stream_round_trip(payloads);
}

/// The buffer of one channel: the bytes that have arrived and have not yet
/// left as frames.
pub struct Buffer {
    data: Vec<u8>,
}

impl View for Buffer {
    type V = Seq<u8>;

    closed spec fn view(&self) -> Seq<u8> {
        self.data@
    }
}

/// Finds the frame at the front of `data`.  The result gives where its payload
/// begins and where the frame ends.
fn scan_frame(data: &[u8]) -> (r: Option<(usize, usize)>)
    ensures
        match next_frame(data@) {
            Some((n, total)) => r matches Some((start, end)) && start == n && end == total,
            None => r is None,
        },
{
    let len: usize = data.len();
    // The prefix runs up to the first byte whose top bit is clear.
    let mut n: usize = 0;
    while n < len && data[n] >= 128
        invariant
            n <= len,
            len == data@.len(),
            forall|j: int| 0 <= j < n ==> data@[j] >= 128,
        decreases len - n,
    {
        n += 1;
    }
    proof {
        lemma_prefix_len_bounds(data@);
    }
    if n >= len {
        return None;
    }
    n += 1;
    proof {
        lemma_prefix_len_at(data@, n as int);
    }
    // The digits are read from the most significant down: the number then
    // only grows, and the frame is known to be incomplete as soon as the
    // number passes what the buffer holds behind the prefix.
    let limit: usize = len - n;
    let mut value: usize = 0;
    let mut k: usize = n;
    while k > 0
        invariant
            k <= n <= len,
            len == data@.len(),
            limit == len - n,
            value <= limit,
            value == prefix_value(data@.subrange(k as int, n as int)),
            prefix_len(data@) == Some(n as nat),
        decreases k,
    {
        let digit: usize = (data[k - 1] % 128) as usize;
        proof {
            lemma_value_of_tail(data@, k - 1, n as int);
            let tail = data@.subrange(k - 1, n as int);
            assert(tail.skip(1) =~= data@.subrange(k as int, n as int));
        }
        if value > limit / 128 {
            assert(value * 128 > limit) by (nonlinear_arith)
                requires
                    value > limit / 128,
            ;
            return None;
        }
        assert(value * 128 <= limit) by (nonlinear_arith)
            requires
                value <= limit / 128,
        ;
        if digit > limit - value * 128 {
            return None;
        }
        value = value * 128 + digit;
        k -= 1;
    }
    Some((n, n + value))
}

impl Buffer {
    /// An empty buffer.
    pub fn new() -> (r: Self)
        ensures
            r@ == Seq::<u8>::empty(),
    {
        Buffer { data: Vec::new() }
    }

    /// Number of bytes waiting in the buffer.
    pub fn len(&self) -> (n: usize)
        ensures
            n == self@.len(),
    {
        self.data.len()
    }

    /// Appends a chunk that the network delivered.
    pub fn extend_from_slice(&mut self, other: &[u8])
        ensures
            final(self)@ == old(self)@ + other@,
    {
        self.data.extend_from_slice(other);
    }

    /// Takes the next frame off the front of the buffer and returns its
    /// payload.  While the frame at the front is incomplete nothing is
    /// consumed and the result is `None`.
    pub fn decode_next(&mut self) -> (r: Option<Vec<u8>>)
        ensures
            match next_frame(old(self)@) {
                Some((n, total)) => r matches Some(payload) && payload@ == old(self)@.subrange(
                    n as int,
                    total as int,
                ) && final(self)@ == old(self)@.skip(total as int),
                None => r is None && final(self)@ == old(self)@,
            },
    {
        match scan_frame(self.data.as_slice()) {
            Some((start, end)) => {
                let payload = slice_to_vec(slice_subrange(self.data.as_slice(), start, end));
                let rest = self.data.split_off(end);
                self.data = rest;
                Some(payload)
            },
            None => None,
        }
    }

    /// Takes every complete frame off the front of the buffer and returns
    /// the payloads in stream order.  An incomplete frame at the end stays.
    pub fn decode_all(&mut self) -> (out: Vec<Vec<u8>>)
        ensures
            out.deep_view() == frames(old(self)@),
            final(self)@ == remainder(old(self)@),
    {
        let mut out: Vec<Vec<u8>> = Vec::new();
        let len: usize = self.data.len();
        let mut pos: usize = 0;
        assert(self@.skip(0) =~= self@);
        loop
            invariant
                pos <= len,
                len == self@.len(),
                *self == *old(self),
                frames(self@) == out.deep_view() + frames(self@.skip(pos as int)),
                remainder(self@) == remainder(self@.skip(pos as int)),
            ensures
                next_frame(self@.skip(pos as int)) is None,
            decreases len - pos,
        {
            let waiting = slice_subrange(self.data.as_slice(), pos, len);
            match scan_frame(waiting) {
                Some((start, end)) => {
                    proof {
                        lemma_prefix_len_bounds(waiting@);
                    }
                    let payload = slice_to_vec(slice_subrange(waiting, start, end));
                    let ghost before = out.deep_view();
                    out.push(payload);
                    assert(out.deep_view() =~= before.push(payload@)) by {
                        assert(payload.deep_view() =~= payload@);
                    }
                    assert(before + (seq![payload@] + frames(waiting@.skip(end as int)))
                        =~= before.push(payload@) + frames(waiting@.skip(end as int)));
                    assert(waiting@.skip(end as int) =~= self@.skip(pos + end));
                    pos += end;
                },
                None => {
                    break ;
                },
            }
        }
        let rest = self.data.split_off(pos);
        self.data = rest;
        out
    }

    /// Appends a chunk and takes every frame that it completed: one step of
    /// `feed`.
    pub fn push_chunk(&mut self, chunk: &[u8]) -> (out: Vec<Vec<u8>>)
        ensures
            out.deep_view() == frames(old(self)@ + chunk@),
            final(self)@ == remainder(old(self)@ + chunk@),
    {
        self.extend_from_slice(chunk);
        self.decode_all()
    }
}

} // verus!
