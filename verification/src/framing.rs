//! Wire framing for the Studio RPC byte stream.
//!
//! A frame is a start marker, the payload with every marker byte escaped, and
//! an end marker. The decoder is incremental: it accepts arbitrary chunks and
//! emits each payload whose frame completed inside the chunk. Bytes outside a
//! frame are noise and are dropped; a start marker always begins a fresh
//! frame, discarding any partial one, so the stream self-heals after
//! corruption; a completed empty frame is dropped rather than emitted.

use vstd::prelude::*;

verus! {

/// Start-of-frame marker byte.
pub const SOF: u8 = 0xAB;
/// Escape byte: the next byte is payload data even if it is a marker.
pub const ESC: u8 = 0xAC;
/// End-of-frame marker byte.
pub const EOF_BYTE: u8 = 0xAD;

/// The three reserved byte values that may not stand bare inside a frame body.
pub open spec fn is_marker(b: u8) -> bool {
    b == SOF || b == ESC || b == EOF_BYTE
}

/// The wire bytes that one payload byte contributes to a frame body.
pub open spec fn escape_byte(b: u8) -> Seq<u8> {
    if is_marker(b) {
        seq![ESC, b]
    } else {
        seq![b]
    }
}

/// The wire bytes of a frame body: each payload byte, escaped where needed.
pub open spec fn encode_body(p: Seq<u8>) -> Seq<u8>
    decreases p.len(),
{
    if p.len() == 0 {
        Seq::empty()
    } else {
        escape_byte(p[0]) + encode_body(p.drop_first())
    }
}

/// The complete frame for a payload.
pub open spec fn encoded_frame(p: Seq<u8>) -> Seq<u8> {
    seq![SOF] + encode_body(p) + seq![EOF_BYTE]
}

proof fn lemma_encode_body_push(s: Seq<u8>, b: u8)
    ensures
        encode_body(s.push(b)) == encode_body(s) + escape_byte(b),
    decreases s.len(),
{
    if s.len() == 0 {
        assert(s.push(b).drop_first() =~= Seq::<u8>::empty());
        assert(encode_body(s.push(b)) =~= encode_body(s) + escape_byte(b)) by {
            reveal_with_fuel(encode_body, 2);
        }
    } else {
        assert(s.push(b).drop_first() =~= s.drop_first().push(b));
        lemma_encode_body_push(s.drop_first(), b);
        assert(encode_body(s.push(b)) =~= encode_body(s) + escape_byte(b));
    }
}

/// Frame a payload for the wire.
pub fn encode(payload: &[u8]) -> (out: Vec<u8>)
    ensures
        out@ == encoded_frame(payload@),
{
    let n = payload.len();
    let mut out: Vec<u8> = Vec::new();
    out.push(SOF);
    let mut i: usize = 0;
    while i < n
        invariant
            i <= n,
            n == payload@.len(),
            out@ == seq![SOF] + encode_body(payload@.take(i as int)),
        decreases n - i,
    {
        let b = payload[i];
        if b == SOF || b == ESC || b == EOF_BYTE {
            out.push(ESC);
        }
        out.push(b);
        proof {
            lemma_encode_body_push(payload@.take(i as int), b);
            assert(payload@.take(i as int + 1) =~= payload@.take(i as int).push(b));
            assert(out@ =~= seq![SOF] + encode_body(payload@.take(i as int + 1)));
        }
        i = i + 1;
    }
    out.push(EOF_BYTE);
    proof {
        assert(payload@.take(n as int) =~= payload@);
        assert(out@ =~= encoded_frame(payload@));
    }
    out
}

/// The abstract state of an incremental decoder.
#[verifier::ext_equal]
pub struct DecoderModel {
    pub in_frame: bool,
    pub escaped: bool,
    pub buf: Seq<u8>,
}

/// The state of a decoder that has seen no bytes yet.
pub open spec fn initial_decoder() -> DecoderModel {
    DecoderModel { in_frame: false, escaped: false, buf: Seq::empty() }
}

/// One step of the per-byte decoding algorithm: the successor state, and the
/// payload completed by this byte, if any.
pub open spec fn decode_step(s: DecoderModel, b: u8) -> (DecoderModel, Option<Seq<u8>>) {
    if s.escaped {
        (
            DecoderModel {
                in_frame: s.in_frame,
                escaped: false,
                buf: if s.in_frame {
                    s.buf.push(b)
                } else {
                    s.buf
                },
            },
            None,
        )
    } else if b == SOF {
        (DecoderModel { in_frame: true, escaped: false, buf: Seq::empty() }, None)
    } else if b == ESC {
        (DecoderModel { in_frame: s.in_frame, escaped: true, buf: s.buf }, None)
    } else if b == EOF_BYTE {
        if s.in_frame && s.buf.len() > 0 {
            (DecoderModel { in_frame: false, escaped: false, buf: Seq::empty() }, Some(s.buf))
        } else {
            (DecoderModel { in_frame: false, escaped: false, buf: s.buf }, None)
        }
    } else {
        (
            DecoderModel {
                in_frame: s.in_frame,
                escaped: false,
                buf: if s.in_frame {
                    s.buf.push(b)
                } else {
                    s.buf
                },
            },
            None,
        )
    }
}

/// The decoder state and the emitted payloads, in order, after feeding a
/// byte sequence.
pub open spec fn decode_feed(s: DecoderModel, data: Seq<u8>) -> (DecoderModel, Seq<Seq<u8>>)
    decreases data.len(),
{
    if data.len() == 0 {
        (s, Seq::empty())
    } else {
        let first = decode_step(s, data[0]);
        let rest = decode_feed(first.0, data.drop_first());
        (
            rest.0,
            match first.1 {
                Some(f) => seq![f] + rest.1,
                None => rest.1,
            },
        )
    }
}

/// Feeding a concatenation is feeding the parts in turn; the emitted payloads
/// concatenate in order.
pub proof fn lemma_decode_feed_append(s: DecoderModel, a: Seq<u8>, b: Seq<u8>)
    ensures
        decode_feed(s, a + b).0 == decode_feed(decode_feed(s, a).0, b).0,
        decode_feed(s, a + b).1 =~= decode_feed(s, a).1 + decode_feed(decode_feed(s, a).0, b).1,
    decreases a.len(),
{
    if a.len() == 0 {
        assert(a + b =~= b);
        assert(decode_feed(s, a).1 + decode_feed(s, b).1 =~= decode_feed(s, b).1);
    } else {
        let s1 = decode_step(s, a[0]).0;
        assert((a + b)[0] == a[0]);
        assert((a + b).drop_first() =~= a.drop_first() + b);
        lemma_decode_feed_append(s1, a.drop_first(), b);
        assert(decode_feed(s, a + b).1 =~= decode_feed(s, a).1 + decode_feed(
            decode_feed(s, a).0,
            b,
        ).1);
    }
}

/// Feeding an encoded frame body to a decoder that is inside a frame and not
/// mid-escape appends exactly the payload bytes to its buffer and emits
/// nothing.
proof fn lemma_feed_body(buf: Seq<u8>, p: Seq<u8>)
    ensures
        decode_feed(DecoderModel { in_frame: true, escaped: false, buf }, encode_body(p)).0
            =~= (DecoderModel { in_frame: true, escaped: false, buf: buf + p }),
        decode_feed(DecoderModel { in_frame: true, escaped: false, buf }, encode_body(p)).1
            =~= Seq::<Seq<u8>>::empty(),
    decreases p.len(),
{
    let s = DecoderModel { in_frame: true, escaped: false, buf };
    if p.len() == 0 {
        assert(buf + p =~= buf);
    } else {
        let b = p[0];
        let e0 = escape_byte(b);
        let s1 = DecoderModel { in_frame: true, escaped: false, buf: buf.push(b) };
        assert(decode_feed(s, e0).0 =~= s1 && decode_feed(s, e0).1 =~= Seq::<Seq<u8>>::empty())
            by {
            reveal_with_fuel(decode_feed, 3);
            if is_marker(b) {
                assert(e0 =~= seq![ESC, b]);
                assert(e0.drop_first() =~= seq![b]);
                assert(e0.drop_first().drop_first() =~= Seq::<u8>::empty());
            } else {
                assert(e0 =~= seq![b]);
                assert(e0.drop_first() =~= Seq::<u8>::empty());
            }
        }
        lemma_decode_feed_append(s, e0, encode_body(p.drop_first()));
        lemma_feed_body(buf.push(b), p.drop_first());
        assert(buf.push(b) + p.drop_first() =~= buf + p);
    }
}

/// A complete frame fed to a decoder that is not mid-escape yields exactly
/// its payload and leaves the decoder idle. In particular the frame's start
/// marker discards whatever partial frame the decoder held before.
pub proof fn lemma_feed_whole_frame(s: DecoderModel, p: Seq<u8>)
    requires
        !s.escaped,
        p.len() > 0,
    ensures
        decode_feed(s, encoded_frame(p)).0 =~= initial_decoder(),
        decode_feed(s, encoded_frame(p)).1 =~= seq![p],
{
    let in_frame = DecoderModel { in_frame: true, escaped: false, buf: Seq::empty() };
    assert(decode_feed(s, seq![SOF]).0 =~= in_frame && decode_feed(s, seq![SOF]).1
        =~= Seq::<Seq<u8>>::empty()) by {
        reveal_with_fuel(decode_feed, 2);
        assert(seq![SOF].drop_first() =~= Seq::<u8>::empty());
    }
    let loaded = DecoderModel { in_frame: true, escaped: false, buf: p };
    lemma_feed_body(Seq::empty(), p);
    assert(Seq::<u8>::empty() + p =~= p);
    assert(decode_feed(loaded, seq![EOF_BYTE]).0 =~= initial_decoder() && decode_feed(
        loaded,
        seq![EOF_BYTE],
    ).1 =~= seq![p]) by {
        reveal_with_fuel(decode_feed, 2);
        assert(seq![EOF_BYTE].drop_first() =~= Seq::<u8>::empty());
        assert(seq![p] + Seq::<Seq<u8>>::empty() =~= seq![p]);
    }
    lemma_decode_feed_append(s, seq![SOF], encode_body(p) + seq![EOF_BYTE]);
    lemma_decode_feed_append(in_frame, encode_body(p), seq![EOF_BYTE]);
    assert(encoded_frame(p) =~= seq![SOF] + (encode_body(p) + seq![EOF_BYTE]));
    assert(decode_feed(s, encoded_frame(p)).1 =~= seq![p]);
}

/// Round trip: the frame for a payload, fed to a fresh decoder as one chunk,
/// yields exactly that payload. (An empty payload is the one excluded input:
/// its completed frame is dropped by the decoder, not emitted.)
pub proof fn lemma_encode_decode_round_trip(p: Seq<u8>)
    requires
        p.len() > 0,
    ensures
        decode_feed(initial_decoder(), encoded_frame(p)).1 =~= seq![p],
{
    lemma_feed_whole_frame(initial_decoder(), p);
}

/// The decoder never emits an empty payload, whatever state it starts in and
/// whatever bytes it is fed: a completed empty frame is dropped.
pub proof fn lemma_no_empty_payloads(s: DecoderModel, data: Seq<u8>)
    ensures
        forall|k: int|
            0 <= k < decode_feed(s, data).1.len() ==> #[trigger] decode_feed(s, data).1[k].len()
                > 0,
    decreases data.len(),
{
    if data.len() > 0 {
        let first = decode_step(s, data[0]);
        let rest = decode_feed(first.0, data.drop_first());
        lemma_no_empty_payloads(first.0, data.drop_first());
        match first.1 {
            Some(f) => {
                assert(f.len() > 0);
                assert(decode_feed(s, data).1 == seq![f] + rest.1);
                assert forall|k: int| 0 <= k < decode_feed(s, data).1.len() implies #[trigger]
                decode_feed(s, data).1[k].len() > 0 by {
                    if k > 0 {
                        assert(decode_feed(s, data).1[k] == rest.1[k - 1]);
                    }
                }
            },
            None => {
                assert(decode_feed(s, data).1 == rest.1);
            },
        }
    }
}

/// Every prefix of an encoded body is the body of some payload prefix,
/// possibly followed by a lone escape byte. Returns that payload length and
/// whether the escape byte trails.
proof fn lemma_body_prefix_shape(p: Seq<u8>, j: int) -> (r: (int, bool))
    requires
        0 <= j <= encode_body(p).len(),
    ensures
        0 <= r.0 <= p.len(),
        !r.1 ==> encode_body(p).take(j) =~= encode_body(p.take(r.0)),
        r.1 ==> encode_body(p).take(j) =~= encode_body(p.take(r.0)) + seq![ESC],
    decreases p.len(),
{
    if j == 0 {
        assert(p.take(0) =~= Seq::<u8>::empty());
        assert(encode_body(p).take(0) =~= encode_body(p.take(0)));
        (0, false)
    } else {
        let b = p[0];
        let e0 = escape_byte(b);
        assert(encode_body(p) == e0 + encode_body(p.drop_first()));
        if is_marker(b) && j == 1 {
            assert(p.take(0) =~= Seq::<u8>::empty());
            assert(encode_body(p).take(1) =~= encode_body(p.take(0)) + seq![ESC]);
            (0, true)
        } else {
            let (k, trailing) = lemma_body_prefix_shape(p.drop_first(), j - e0.len());
            assert(encode_body(p).take(j) =~= e0 + encode_body(p.drop_first()).take(
                j - e0.len() as int,
            ));
            assert(p.take(k + 1).drop_first() =~= p.drop_first().take(k));
            assert(p.take(k + 1)[0] == b);
            assert(encode_body(p.take(k + 1)) == e0 + encode_body(p.drop_first().take(k)));
            if trailing {
                assert(encode_body(p).take(j) =~= encode_body(p.take(k + 1)) + seq![ESC]);
            } else {
                assert(encode_body(p).take(j) =~= encode_body(p.take(k + 1)));
            }
            (k + 1, trailing)
        }
    }
}

/// A frame split at any byte boundary and fed to a fresh decoder in two
/// chunks: the first chunk emits nothing (unless it already is the whole
/// frame), and the two chunks together emit exactly the payload.
pub proof fn lemma_split_feed(p: Seq<u8>, i: int)
    requires
        p.len() > 0,
        0 <= i <= encoded_frame(p).len(),
    ensures
        ({
            let e = encoded_frame(p);
            let first = decode_feed(initial_decoder(), e.take(i));
            let second = decode_feed(first.0, e.skip(i));
            &&& (i < e.len() ==> first.1 =~= Seq::<Seq<u8>>::empty())
            &&& first.1 + second.1 =~= seq![p]
        }),
{
    let e = encoded_frame(p);
    let first = decode_feed(initial_decoder(), e.take(i));
    assert(e.take(i) + e.skip(i) =~= e);
    lemma_decode_feed_append(initial_decoder(), e.take(i), e.skip(i));
    lemma_feed_whole_frame(initial_decoder(), p);
    if 0 < i < e.len() {
        let body = encode_body(p);
        assert(e.take(i) =~= seq![SOF] + body.take(i - 1));
        let in_frame = DecoderModel { in_frame: true, escaped: false, buf: Seq::empty() };
        assert(decode_feed(initial_decoder(), seq![SOF]).0 =~= in_frame && decode_feed(
            initial_decoder(),
            seq![SOF],
        ).1 =~= Seq::<Seq<u8>>::empty()) by {
            reveal_with_fuel(decode_feed, 2);
            assert(seq![SOF].drop_first() =~= Seq::<u8>::empty());
        }
        lemma_decode_feed_append(initial_decoder(), seq![SOF], body.take(i - 1));
        let (k, trailing) = lemma_body_prefix_shape(p, i - 1);
        lemma_feed_body(Seq::empty(), p.take(k));
        assert(Seq::<u8>::empty() + p.take(k) =~= p.take(k));
        let loaded = DecoderModel { in_frame: true, escaped: false, buf: p.take(k) };
        if trailing {
            lemma_decode_feed_append(in_frame, encode_body(p.take(k)), seq![ESC]);
            assert(decode_feed(loaded, seq![ESC]).1 =~= Seq::<Seq<u8>>::empty()) by {
                reveal_with_fuel(decode_feed, 2);
                assert(seq![ESC].drop_first() =~= Seq::<u8>::empty());
            }
        } else {
            lemma_decode_feed_append(in_frame, encode_body(p.take(k)), Seq::empty());
            assert(encode_body(p.take(k)) + Seq::<u8>::empty() =~= encode_body(p.take(k)));
        }
        assert(first.1 =~= Seq::<Seq<u8>>::empty());
    }
}

/// Accumulates raw wire bytes and extracts the payloads of completed frames.
pub struct FrameDecoder {
    in_frame: bool,
    escaped: bool,
    payload: Vec<u8>,
}

impl View for FrameDecoder {
    type V = DecoderModel;

    closed spec fn view(&self) -> DecoderModel {
        DecoderModel { in_frame: self.in_frame, escaped: self.escaped, buf: self.payload@ }
    }
}

impl FrameDecoder {
    /// A decoder that has seen no bytes yet.
    pub fn new() -> (d: FrameDecoder)
        ensures
            d@ == initial_decoder(),
    {
        let d = FrameDecoder { in_frame: false, escaped: false, payload: Vec::new() };
        proof {
            assert(d@ =~= initial_decoder());
        }
        d
    }

    /// Feed raw bytes from the transport; returns the payloads of every frame
    /// that completed within this chunk, in wire order.
    pub fn feed(&mut self, data: &[u8]) -> (frames: Vec<Vec<u8>>)
        ensures
            final(self)@ == decode_feed(old(self)@, data@).0,
            frames.deep_view() == decode_feed(old(self)@, data@).1,
    {
        let ghost s0 = self@;
        let mut frames: Vec<Vec<u8>> = Vec::new();
        let n = data.len();
        let mut i: usize = 0;
        while i < n
            invariant
                i <= n,
                n == data@.len(),
                self@ == decode_feed(s0, data@.take(i as int)).0,
                frames.deep_view() == decode_feed(s0, data@.take(i as int)).1,
            decreases n - i,
        {
            let b = data[i];
            let ghost st = self@;
            let ghost frames_before = frames.deep_view();
            proof {
                assert(data@.take(i as int + 1) =~= data@.take(i as int) + seq![b]);
                lemma_decode_feed_append(s0, data@.take(i as int), seq![b]);
                reveal_with_fuel(decode_feed, 2);
                assert(seq![b].drop_first() =~= Seq::<u8>::empty());
                assert(decode_feed(st, seq![b]).0 == decode_step(st, b).0);
                assert(decode_feed(st, seq![b]).1 =~= match decode_step(st, b).1 {
                    Some(f) => seq![f],
                    None => Seq::<Seq<u8>>::empty(),
                });
            }
            if self.escaped {
                self.escaped = false;
                if self.in_frame {
                    self.payload.push(b);
                }
            } else if b == SOF {
                // A new frame begins; any partial one is discarded.
                self.in_frame = true;
                self.escaped = false;
                self.payload.clear();
            } else if b == ESC {
                self.escaped = true;
            } else if b == EOF_BYTE {
                if self.in_frame && self.payload.len() > 0 {
                    let mut done: Vec<u8> = Vec::new();
                    core::mem::swap(&mut done, &mut self.payload);
                    proof {
                        assert(done.deep_view() =~= done@);
                    }
                    frames.push(done);
                }
                self.in_frame = false;
                self.escaped = false;
            } else {
                if self.in_frame {
                    self.payload.push(b);
                }
            }
            proof {
                assert(self@ =~= decode_step(st, b).0);
                assert(frames.deep_view() =~= match decode_step(st, b).1 {
                    Some(f) => frames_before.push(f),
                    None => frames_before,
                });
                assert(frames.deep_view() =~= decode_feed(s0, data@.take(i as int + 1)).1);
            }
            i = i + 1;
        }
        proof {
            assert(data@.take(n as int) =~= data@);
        }
        frames
    }
}

} // verus!
