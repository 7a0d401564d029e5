//! Framing on the serial line: frames end with a single zero byte (the
//! sentinel that terminates a COBS-encoded message), and long messages leave
//! the device in fixed-size USB packets.
use vstd::prelude::*;

verus! {

#[verifier::external_type_specification]
#[verifier::external_body]
pub struct ExBytesMut(bytes::BytesMut);

/// The bytes held by a receive or send buffer, in order.
pub uninterp spec fn buffer_bytes(b: bytes::BytesMut) -> Seq<u8>;

/// `<BytesMut as AsRef<[u8]>>::as_ref`: the bytes held, as a slice.
#[verifier::external_body]
fn buffer_as_slice(b: &bytes::BytesMut) -> (r: &[u8])
    ensures
        r@ == buffer_bytes(*b),
{
    b.as_ref()
}

/// `BytesMut::split_to`: hands out the first `at` bytes and keeps the rest.
/// It panics when `at` exceeds the length, which `requires` leaves out.
#[verifier::external_body]
fn buffer_split_to(b: &mut bytes::BytesMut, at: usize) -> (r: bytes::BytesMut)
    requires
        at <= buffer_bytes(*old(b)).len(),
    ensures
        buffer_bytes(r) == buffer_bytes(*old(b)).take(at as int),
        buffer_bytes(*final(b)) == buffer_bytes(*old(b)).skip(at as int),
{
    b.split_to(at)
}

/// `<Vec<u8> as From<BytesMut>>::from`: the same bytes in a vector.
#[verifier::external_body]
fn buffer_into_vec(b: bytes::BytesMut) -> (r: Vec<u8>)
    ensures
        r@ == buffer_bytes(b),
{
    b.into()
}

/// `BytesMut::extend_from_slice`: appends the bytes of `s`. Growing past
/// `isize::MAX` bytes panics in the allocator, which `requires` leaves out.
#[verifier::external_body]
fn buffer_extend_from_slice(b: &mut bytes::BytesMut, s: &[u8])
    requires
        buffer_bytes(*old(b)).len() + s@.len() <= isize::MAX,
    ensures
        buffer_bytes(*final(b)) == buffer_bytes(*old(b)) + s@,
{
    b.extend_from_slice(s)
}

/// `BytesMut::len`: how many bytes are held.
#[verifier::external_body]
fn buffer_len(b: &bytes::BytesMut) -> (r: usize)
    ensures
        r == buffer_bytes(*b).len(),
{
    b.len()
}

/// Whether `extra` more bytes can be appended to the buffer: the total stays
/// within `isize::MAX`, the most a buffer can hold.
pub fn fits_in_buffer(b: &bytes::BytesMut, extra: usize) -> (r: bool)
    ensures
        r == (buffer_bytes(*b).len() + extra <= isize::MAX),
{
    let n = buffer_len(b);
    n <= isize::MAX as usize && extra <= isize::MAX as usize - n
}

/// The byte that ends every frame.
pub const FRAME_END: u8 = 0;

/// `s` holds a frame end somewhere.
pub open spec fn holds_frame_end(s: Seq<u8>) -> bool {
    exists|i: int| 0 <= i < s.len() && s[i] == FRAME_END
}

/// `f` is one whole frame: it ends with the frame end and holds no other.
pub open spec fn is_frame(f: Seq<u8>) -> bool {
    &&& f.len() > 0
    &&& f.last() == FRAME_END
    &&& forall|i: int| 0 <= i < f.len() - 1 ==> f[i] != FRAME_END
}

/// Splits a byte stream into frames that each end with a zero byte.
pub struct NullSepCodec;

impl NullSepCodec {
    /// Takes the first whole frame, frame end included, off the front of
    /// `src`, or leaves `src` as it is when no frame is complete yet.
    pub fn decode(&mut self, src: &mut bytes::BytesMut) -> (r: Option<Vec<u8>>)
        ensures
            r is Some <==> holds_frame_end(buffer_bytes(*old(src))),
            r matches Some(f) ==> is_frame(f@) && buffer_bytes(*old(src)) == f@ + buffer_bytes(*final(src)),
            r is None ==> buffer_bytes(*final(src)) == buffer_bytes(*old(src)),
    {
        let ghost before = buffer_bytes(*src);
        let mut found: Option<usize> = None;
        let bytes = buffer_as_slice(src);
        {
            let mut i: usize = 0;
            while i < bytes.len()
                invariant_except_break
                    found is None,
                invariant
                    bytes@ == before,
                    i <= bytes@.len(),
                    forall|j: int| 0 <= j < i ==> bytes@[j] != FRAME_END,
                ensures
                    found matches Some(n) ==> n < bytes.len() && n < before.len() && before[n as int] == FRAME_END
                        && forall|j: int| 0 <= j < n ==> before[j] != FRAME_END,
                    found is None ==> forall|j: int| 0 <= j < before.len() ==> before[j] != FRAME_END,
                decreases bytes@.len() - i,
            {
                if bytes[i] == FRAME_END {
                    found = Some(i);
                    break;
                }
                i = i + 1;
            }
            proof {
                if found is None {
                    assert(!holds_frame_end(before));
                }
            }
        }
        match found {
            Some(n) => {
                let chunk = buffer_split_to(src, n + 1);
                let v = buffer_into_vec(chunk);
                assert(before =~= v@ + buffer_bytes(*src));
                Some(v)
            },
            None => None,
        }
    }

    /// Appends an outgoing frame to the send buffer, unchanged.
    pub fn encode(&mut self, item: Vec<u8>, dst: &mut bytes::BytesMut)
        requires
            buffer_bytes(*old(dst)).len() + item@.len() <= isize::MAX,
        ensures
            buffer_bytes(*final(dst)) == buffer_bytes(*old(dst)) + item@,
    {
        buffer_extend_from_slice(dst, item.as_slice());
    }
}

/// A stream that starts with a frame splits into that frame and the rest in
/// one way only: the frame a reader takes off is determined by the bytes.
pub proof fn lemma_frame_split_unique(f1: Seq<u8>, r1: Seq<u8>, f2: Seq<u8>, r2: Seq<u8>)
    requires
        is_frame(f1),
        is_frame(f2),
        f1 + r1 == f2 + r2,
    ensures
        f1 == f2,
        r1 == r2,
{
    let s = f1 + r1;
    if f1.len() < f2.len() {
        assert(s[f1.len() - 1] == f1.last());
        assert(s[f1.len() - 1] == f2[f1.len() - 1]);
    } else if f2.len() < f1.len() {
        assert(s[f2.len() - 1] == f2.last());
        assert(s[f2.len() - 1] == f1[f2.len() - 1]);
    }
    assert(f1 =~= s.take(f1.len() as int));
    assert(f2 =~= s.take(f2.len() as int));
    assert(r1 =~= s.skip(f1.len() as int));
    assert(r2 =~= s.skip(f2.len() as int));
}

/// Bytes that hold no frame end, followed by a terminated payload that holds
/// none either, form exactly one frame: a reader that kept an incomplete
/// frame gets it back whole once the rest arrives.
pub proof fn lemma_incomplete_then_terminated(pending: Seq<u8>, payload: Seq<u8>)
    requires
        !holds_frame_end(pending),
        !holds_frame_end(payload),
    ensures
        is_frame(pending + payload.push(FRAME_END)),
        holds_frame_end(pending + payload.push(FRAME_END)),
{
    let f = pending + payload.push(FRAME_END);
    assert forall|i: int| 0 <= i < f.len() - 1 implies f[i] != FRAME_END by {
        if i < pending.len() {
            assert(f[i] == pending[i]);
        } else {
            assert(f[i] == payload[i - pending.len()]);
        }
    }
    assert(f[f.len() - 1] == FRAME_END);
}

/// Ends a serialized message with the frame end, as the JSON flavour of the
/// wire format sends it.
pub fn append_terminator(payload: Vec<u8>) -> (r: Vec<u8>)
    ensures
        r@ == payload@.push(FRAME_END),
{
    let mut r = payload;
    r.push(FRAME_END);
    r
}

/// The message inside a received JSON frame: everything but its last byte.
/// An empty frame has no message; callers must not pass one.
pub fn strip_terminator(s: &[u8]) -> (r: &[u8])
    requires
        s@.len() >= 1,
    ensures
        r@ == s@.drop_last(),
{
    vstd::slice::slice_subrange(s, 0, s.len() - 1)
}

/// A whole frame, alone in a buffer, is read back whole and leaves the
/// buffer empty: decoding undoes encoding into an empty buffer.
pub proof fn lemma_single_frame_read_back(item: Seq<u8>, f: Seq<u8>, rest: Seq<u8>)
    requires
        is_frame(item),
        is_frame(f),
        f + rest == item,
    ensures
        holds_frame_end(item),
        f == item,
        rest == Seq::<u8>::empty(),
{
    assert(item[item.len() - 1] == FRAME_END);
    assert(item + Seq::<u8>::empty() =~= item);
    lemma_frame_split_unique(f, rest, item, Seq::<u8>::empty());
}

/// Frames written one after the other are read back one by one, neither
/// split nor merged: a stream made of frames `fs` followed by bytes `rest`
/// holds a frame end, and its first frame is `fs[0]`, followed by the other
/// frames and `rest`.
pub proof fn lemma_frames_read_in_order(fs: Seq<Seq<u8>>, rest: Seq<u8>, f: Seq<u8>, r: Seq<u8>)
    requires
        forall|i: int| 0 <= i < fs.len() ==> is_frame(#[trigger] fs[i]),
        fs.len() > 0,
        is_frame(f),
        f + r == fs.flatten() + rest,
    ensures
        holds_frame_end(fs.flatten() + rest),
        f == fs[0],
        r == fs.drop_first().flatten() + rest,
{
    let s = fs.flatten() + rest;
    let first = fs[0];
    assert(fs.flatten() == first + fs.drop_first().flatten());
    assert(s =~= first + (fs.drop_first().flatten() + rest));
    assert(s[first.len() - 1] == first[first.len() - 1]);
    lemma_frame_split_unique(f, r, first, fs.drop_first().flatten() + rest);
}

/// Stripping the last byte of a terminated message gives the message back.
pub proof fn lemma_strip_undoes_append(payload: Seq<u8>)
    ensures
        payload.push(FRAME_END).drop_last() == payload,
{
    assert(payload.push(FRAME_END).drop_last() =~= payload);
}

/// Size of a full-speed USB packet on the device's serial class.
pub const USB_PACKET_SIZE: usize = 64;

/// How the device cuts a message into packets: full packets of 64 bytes, then
/// one packet with what is left, which may be empty and then marks the end.
pub open spec fn packet_split(data: Seq<u8>) -> Seq<Seq<u8>> {
    Seq::new(
        (data.len() / 64 + 1) as nat,
        |i: int| data.subrange(64 * i, if 64 * i + 64 <= data.len() { 64 * i + 64 } else { data.len() as int }),
    )
}

/// The packets a message is written in, in order.
pub fn usb_packets(data: &[u8]) -> (r: Vec<Vec<u8>>)
    ensures
        r@.map_values(|p: Vec<u8>| p@) == packet_split(data@),
{
    let full = data.len() / USB_PACKET_SIZE;
    assert(full * 64 <= data@.len()) by (nonlinear_arith)
        requires
            full == data@.len() / 64,
    ;
    let mut r: Vec<Vec<u8>> = Vec::new();
    let mut i: usize = 0;
    while i < full
        invariant
            full == data@.len() / 64,
            full * 64 <= data@.len(),
            i <= full,
            r@.len() == i,
            forall|j: int| 0 <= j < i ==> #[trigger] r@[j]@ == packet_split(data@)[j],
        decreases full - i,
    {
        assert(i * 64 + 64 <= full * 64) by (nonlinear_arith)
            requires
                i < full,
        ;
        assert(data@.len() == data.len());
        let start = i * USB_PACKET_SIZE;
        let chunk = vstd::slice::slice_to_vec(vstd::slice::slice_subrange(data, start, start + USB_PACKET_SIZE));
        r.push(chunk);
        i = i + 1;
    }
    let rest = vstd::slice::slice_to_vec(vstd::slice::slice_subrange(data, full * USB_PACKET_SIZE, data.len()));
    r.push(rest);
    assert(r@.map_values(|p: Vec<u8>| p@) =~= packet_split(data@));
    r
}

/// The first `k` packets of a message, put back together, are its first
/// `64 * k` bytes (or all of it).
proof fn lemma_packet_prefix(data: Seq<u8>, k: int)
    requires
        0 <= k <= data.len() / 64 + 1,
    ensures
        packet_split(data).take(k).flatten() == data.take(if 64 * k <= data.len() { 64 * k } else { data.len() as int }),
    decreases k,
{
    broadcast use Seq::lemma_flatten_push;

    let ps = packet_split(data);
    if k == 0 {
        assert(ps.take(0) =~= Seq::<Seq<u8>>::empty());
        assert(data.take(0) =~= Seq::<u8>::empty());
    } else {
        lemma_packet_prefix(data, k - 1);
        assert(ps.take(k) =~= ps.take(k - 1).push(ps[k - 1]));
        let lo = 64 * (k - 1);
        let hi = if 64 * k <= data.len() { 64 * k } else { data.len() as int };
        assert(lo <= data.len());
        assert(data.take(hi) =~= data.take(lo) + data.subrange(lo, hi));
    }
}

/// Putting the packets of a message back together gives the message; every
/// packet holds at most 64 bytes and the last fewer than 64.
pub proof fn lemma_packets_reassemble(data: Seq<u8>)
    ensures
        packet_split(data).flatten() == data,
        forall|i: int| 0 <= i < packet_split(data).len() ==> #[trigger] packet_split(data)[i].len() <= 64,
        packet_split(data).last().len() < 64,
{
    let ps = packet_split(data);
    lemma_packet_prefix(data, ps.len() as int);
    assert(ps.take(ps.len() as int) =~= ps);
    assert(data.take(data.len() as int) =~= data);
}

} // verus!
