//! Wire protocol: one encoded image becomes an ordered packet sequence
//! `[BEGIN, CHUNK(1), .., CHUNK(n), END]`. Each packet is a fixed-layout
//! record: a 16-byte header (sequence marker, payload size and two reserved
//! words, little-endian) followed by the payload. The BEGIN payload carries
//! width, height and bits-per-pixel as big-endian 32-bit values.

use vstd::prelude::*;

verus! {

/// Greatest number of payload bytes one CHUNK packet may carry.
pub const MAX_DATA_LENGTH: usize = 1000;

/// Sequence marker of the BEGIN packet.
pub const BEGIN_MARKER: u32 = 0xFEED_FEED;

/// Sequence marker of the END packet.
pub const END_MARKER: u32 = 0xCAFE_CAFE;

/// The four bytes of `x` in big-endian order.
pub open spec fn u32_be_bytes(x: u32) -> Seq<u8> {
    seq![
        ((x >> 24) & 0xff) as u8,
        ((x >> 16) & 0xff) as u8,
        ((x >> 8) & 0xff) as u8,
        (x & 0xff) as u8,
    ]
}

/// The four bytes of `x` in little-endian order.
pub open spec fn u32_le_bytes(x: u32) -> Seq<u8> {
    seq![
        (x & 0xff) as u8,
        ((x >> 8) & 0xff) as u8,
        ((x >> 16) & 0xff) as u8,
        ((x >> 24) & 0xff) as u8,
    ]
}

/// The value read back from four big-endian bytes.
pub open spec fn u32_from_be_bytes(b: Seq<u8>) -> u32
    recommends
        b.len() == 4,
{
    (((b[0] as u32) << 24) | ((b[1] as u32) << 16) | ((b[2] as u32) << 8) | (b[3] as u32)) as u32
}

/// Reading back the big-endian bytes of `x` yields `x` again.
pub proof fn lemma_u32_be_round_trip(x: u32)
    ensures
        u32_from_be_bytes(u32_be_bytes(x)) == x,
{
    assert(((((((x >> 24) & 0xff) as u8) as u32) << 24) | (((((x >> 16) & 0xff) as u8) as u32)
        << 16) | (((((x >> 8) & 0xff) as u8) as u32) << 8) | (((x & 0xff) as u8) as u32)) as u32
        == x) by (bit_vector);
}

/// The 12-byte BEGIN payload: big-endian width, height and bits-per-pixel.
pub open spec fn begin_payload(width: u32, height: u32, bpp: u32) -> Seq<u8> {
    u32_be_bytes(width) + u32_be_bytes(height) + u32_be_bytes(bpp)
}

/// Appends the big-endian bytes of `x`.
fn push_be_u32(out: &mut Vec<u8>, x: u32)
    ensures
        final(out)@ == old(out)@ + u32_be_bytes(x),
{
    out.push(((x >> 24) & 0xff) as u8);
    out.push(((x >> 16) & 0xff) as u8);
    out.push(((x >> 8) & 0xff) as u8);
    out.push((x & 0xff) as u8);
    proof {
        assert(out@ =~= old(out)@ + u32_be_bytes(x));
    }
}

/// Appends the little-endian bytes of `x`.
fn push_le_u32(out: &mut Vec<u8>, x: u32)
    ensures
        final(out)@ == old(out)@ + u32_le_bytes(x),
{
    out.push((x & 0xff) as u8);
    out.push(((x >> 8) & 0xff) as u8);
    out.push(((x >> 16) & 0xff) as u8);
    out.push(((x >> 24) & 0xff) as u8);
    proof {
        assert(out@ =~= old(out)@ + u32_le_bytes(x));
    }
}

/// One fixed-layout record of the wire protocol.
pub struct PacketData {
    /// BEGIN or END marker, or the CHUNK index.
    pub order: u32,
    /// Number of payload bytes.
    pub size: u32,
    /// Reserved, always zero.
    pub unused0: u32,
    /// Reserved, always zero.
    pub unused1: u32,
    /// The payload.
    pub data: Vec<u8>,
}

impl PacketData {
    /// The record is internally consistent: the size field counts the
    /// payload bytes and the reserved words are zero.
    pub open spec fn wf(self) -> bool {
        &&& self.size == self.data@.len()
        &&& self.unused0 == 0
        &&& self.unused1 == 0
    }

    /// A BEGIN record announcing the given geometry.
    pub open spec fn is_begin_packet(self, width: u32, height: u32, bpp: u32) -> bool {
        &&& self.wf()
        &&& self.order == BEGIN_MARKER
        &&& self.size == 12
        &&& self.data@ == begin_payload(width, height, bpp)
    }

    /// A CHUNK record carrying `payload` at position `order` (1-based).
    pub open spec fn is_chunk_packet(self, order: u32, payload: Seq<u8>) -> bool {
        &&& self.wf()
        &&& self.order == order
        &&& self.data@ == payload
    }

    /// An END record.
    pub open spec fn is_end_packet(self) -> bool {
        &&& self.wf()
        &&& self.order == END_MARKER
        &&& self.size == 0
        &&& self.data@ == Seq::<u8>::empty()
    }

    /// The serialized form: 16-byte header then the payload.
    pub open spec fn wire_bytes(self) -> Seq<u8> {
        u32_le_bytes(self.order) + u32_le_bytes(self.size) + u32_le_bytes(self.unused0)
            + u32_le_bytes(self.unused1) + self.data@
    }

    /// Builds the BEGIN packet for one image's geometry.
    pub fn begin(width: u32, height: u32, bpp: u32) -> (p: PacketData)
        ensures
            p.is_begin_packet(width, height, bpp),
    {
        let mut data: Vec<u8> = Vec::new();
        push_be_u32(&mut data, width);
        push_be_u32(&mut data, height);
        push_be_u32(&mut data, bpp);
        PacketData { order: BEGIN_MARKER, size: 12, unused0: 0, unused1: 0, data }
    }

    /// Builds the CHUNK packet at position `order` (1-based) carrying `chunk`.
    pub fn chunk(order: u32, chunk: &[u8]) -> (p: PacketData)
        requires
            chunk@.len() <= MAX_DATA_LENGTH,
            1 <= order < END_MARKER,
        ensures
            p.is_chunk_packet(order, chunk@),
            p.size == chunk@.len(),
    {
        let data = vstd::slice::slice_to_vec(chunk);
        let size: u32 = data.len() as u32;
        PacketData { order, size, unused0: 0, unused1: 0, data }
    }

    /// Builds the END packet.
    pub fn end() -> (p: PacketData)
        ensures
            p.is_end_packet(),
    {
        PacketData { order: END_MARKER, size: 0, unused0: 0, unused1: 0, data: Vec::new() }
    }

    /// Serializes the record for the wire: the header words little-endian,
    /// then the payload bytes unchanged.
    pub fn get_data(&self) -> (r: Vec<u8>)
        ensures
            r@ == self.wire_bytes(),
    {
        let mut out: Vec<u8> = Vec::new();
        push_le_u32(&mut out, self.order);
        push_le_u32(&mut out, self.size);
        push_le_u32(&mut out, self.unused0);
        push_le_u32(&mut out, self.unused1);
        let mut i: usize = 0;
        while i < self.data.len()
            invariant
                i <= self.data@.len(),
                out@ == u32_le_bytes(self.order) + u32_le_bytes(self.size) + u32_le_bytes(
                    self.unused0,
                ) + u32_le_bytes(self.unused1) + self.data@.subrange(0, i as int),
            decreases self.data@.len() - i,
        {
            out.push(self.data[i]);
            proof {
                assert(self.data@.subrange(0, i as int).push(self.data@[i as int]) =~= self.data@
                    .subrange(0, i + 1));
            }
            i = i + 1;
        }
        proof {
            assert(self.data@.subrange(0, self.data@.len() as int) =~= self.data@);
            assert(out@ =~= self.wire_bytes());
        }
        out
    }
}

/// Number of CHUNK packets needed for `len` payload bytes:
/// the least `n` with `n * 1000 >= len` (zero for an empty image).
pub open spec fn chunk_count(len: nat) -> nat {
    ((len + (MAX_DATA_LENGTH - 1) as nat) / (MAX_DATA_LENGTH as nat)) as nat
}

/// The payload of the CHUNK at 0-based position `i`: the next up-to-1000-byte
/// slice of the encoded image.
pub open spec fn chunk_payload(data: Seq<u8>, i: int) -> Seq<u8> {
    let lo = i * (MAX_DATA_LENGTH as int);
    let hi = if lo + (MAX_DATA_LENGTH as int) <= data.len() {
        lo + (MAX_DATA_LENGTH as int)
    } else {
        data.len() as int
    };
    data.subrange(lo, hi)
}

/// A position strictly inside the data starts a further chunk.
proof fn lemma_chunk_count_lower(len: nat, k: nat)
    requires
        k * 1000 < len,
    ensures
        k + 1 <= chunk_count(len),
{
    assert(k * 1000 < len ==> k + 1 <= (len + 999) / 1000) by (nonlinear_arith);
}

/// Data that fits in `k` chunks needs no more than `k`.
proof fn lemma_chunk_count_upper(len: nat, k: nat)
    requires
        len <= k * 1000,
    ensures
        chunk_count(len) <= k,
{
    assert(len <= k * 1000 ==> (len + 999) / 1000 <= k) by (nonlinear_arith);
}

/// The ordered packet sequence for exactly one encoded image.
pub struct Frame {
    /// `[BEGIN, CHUNK(1), .., CHUNK(n), END]`.
    pub packets: Vec<PacketData>,
}

impl Frame {
    /// The frame is the packet sequence the protocol prescribes for an image
    /// of the given geometry whose encoded bytes are `data`: BEGIN first,
    /// then one CHUNK per consecutive slice with gapless 1-based indices,
    /// END last.
    pub open spec fn is_frame_for(self, width: u32, height: u32, bpp: u32, data: Seq<u8>) -> bool {
        let n = chunk_count(data.len()) as int;
        &&& self.packets@.len() == n + 2
        &&& self.packets@[0].is_begin_packet(width, height, bpp)
        &&& self.packets@[n + 1].is_end_packet()
        &&& forall|i: int|
            0 <= i < n ==> (#[trigger] self.packets@[i + 1]).is_chunk_packet(
                (i + 1) as u32,
                chunk_payload(data, i),
            )
    }

    /// Packetizes one encoded image: emits BEGIN with the 12-byte big-endian
    /// geometry payload, splits `data` into consecutive slices of at most
    /// 1000 bytes (never an empty trailing slice), numbers them from 1, and
    /// emits END. An empty image yields `[BEGIN, END]`.
    ///
    /// The sequence marker is a 32-bit field, so the chunk indices must stay
    /// below the END marker value; that bounds the accepted image size.
    pub fn from(width: u32, height: u32, bpp: u32, data: Vec<u8>) -> (f: Frame)
        requires
            chunk_count(data@.len()) < END_MARKER,
        ensures
            f.is_frame_for(width, height, bpp, data@),
    {
        let ghost len = data@.len() as int;
        let mut packets: Vec<PacketData> = Vec::new();
        packets.push(PacketData::begin(width, height, bpp));

        let mut offset: usize = 0;
        let mut counter: u32 = 1;
        while offset < data.len()
            invariant
                chunk_count(data@.len()) < END_MARKER,
                len == data@.len() as int,
                1 <= counter,
                counter <= chunk_count(data@.len()) + 1,
                offset == if (counter - 1) * 1000 <= len {
                    (counter - 1) * 1000
                } else {
                    len
                },
                counter >= 2 ==> (counter - 2) * 1000 < len,
                packets@.len() == counter,
                packets@[0].is_begin_packet(width, height, bpp),
                forall|i: int|
                    0 <= i < counter - 1 ==> (#[trigger] packets@[i + 1]).is_chunk_packet(
                        (i + 1) as u32,
                        chunk_payload(data@, i),
                    ),
            decreases len - offset,
        {
            proof {
                lemma_chunk_count_lower(data@.len(), (counter - 1) as nat);
            }
            let remaining: usize = data.len() - offset;
            let take: usize = if remaining > MAX_DATA_LENGTH {
                MAX_DATA_LENGTH
            } else {
                remaining
            };
            let piece = vstd::slice::slice_subrange(data.as_slice(), offset, offset + take);
            packets.push(PacketData::chunk(counter, piece));
            proof {
                assert(piece@ =~= chunk_payload(data@, counter - 1));
            }
            counter = counter + 1;
            offset = offset + take;
        }

        proof {
            lemma_chunk_count_upper(data@.len(), (counter - 1) as nat);
            assert(counter - 1 == chunk_count(data@.len()));
        }
        packets.push(PacketData::end());
        let f = Frame { packets };
        proof {
            let n = chunk_count(data@.len()) as int;
            assert(forall|i: int|
                0 <= i < n ==> (#[trigger] f.packets@[i + 1]).is_chunk_packet(
                    (i + 1) as u32,
                    chunk_payload(data@, i),
                ));
        }
        f
    }

    /// The packets, BEGIN first and END last.
    pub fn packets(&self) -> (r: &Vec<PacketData>)
        ensures
            r@ == self.packets@,
    {
        &self.packets
    }
}

/// Concatenation of the payloads of the first `k` CHUNK packets of `f`
/// (the packets at positions 1 through `k`), in sequence-number order.
pub open spec fn chunks_payload(f: Frame, k: int) -> Seq<u8>
    decreases k,
{
    if k <= 0 {
        Seq::<u8>::empty()
    } else {
        chunks_payload(f, k - 1) + f.packets@[k].data@
    }
}

/// A prefix of the chunk slices concatenates back to a prefix of the data.
proof fn lemma_chunks_payload_prefix(f: Frame, data: Seq<u8>, n: int, k: int)
    requires
        n == chunk_count(data.len()) as int,
        0 <= k <= n,
        forall|i: int|
            0 <= i < n ==> (#[trigger] f.packets@[i + 1]).is_chunk_packet(
                (i + 1) as u32,
                chunk_payload(data, i),
            ),
    ensures
        chunks_payload(f, k) == data.subrange(
            0,
            if k * 1000 <= data.len() {
                k * 1000
            } else {
                data.len() as int
            },
        ),
    decreases k,
{
    if k <= 0 {
        assert(chunks_payload(f, 0) =~= data.subrange(0, 0));
    } else {
        lemma_chunks_payload_prefix(f, data, n, k - 1);
        assert(f.packets@[(k - 1) + 1].is_chunk_packet(((k - 1) + 1) as u32, chunk_payload(
            data,
            k - 1,
        )));
        if k < n {
            lemma_chunk_count_lower_inv(data.len(), k);
        } else {
            lemma_chunk_count_upper_inv(data.len(), k);
        }
        assert(chunks_payload(f, k) =~= data.subrange(
            0,
            if k * 1000 <= data.len() {
                k * 1000
            } else {
                data.len() as int
            },
        ));
    }
}

/// Before the last chunk index, a full 1000-byte slice is available.
proof fn lemma_chunk_count_lower_inv(len: nat, k: int)
    requires
        0 < k < chunk_count(len) as int,
    ensures
        k * 1000 <= len,
        (k - 1) * 1000 <= len,
{
    assert(0 < k < (len + 999) / 1000 ==> k * 1000 <= len && (k - 1) * 1000 <= len)
        by (nonlinear_arith);
}

/// The last chunk index reaches the end of the data.
proof fn lemma_chunk_count_upper_inv(len: nat, k: int)
    requires
        0 < k,
        k == chunk_count(len) as int,
    ensures
        len <= k * 1000,
        (k - 1) * 1000 <= len,
{
    assert(0 < k && k == (len + 999) / 1000 ==> len <= k * 1000 && (k - 1) * 1000 <= len)
        by (nonlinear_arith);
}

/// Chunk-count law: `chunk_count` is the ceiling of `len / 1000` — an empty
/// image needs no chunk, and otherwise the chunks cover the data with every
/// chunk but possibly the last one full.
pub proof fn lemma_chunk_count_is_ceil(len: nat)
    ensures
        len == 0 ==> chunk_count(len) == 0,
        chunk_count(len) * 1000 >= len,
        len > 0 ==> (chunk_count(len) - 1) * 1000 < len,
{
    if len > 0 {
        lemma_chunk_count_upper_inv(len, chunk_count(len) as int);
        assert(len > 0 ==> (len + 999) / 1000 > 0) by (nonlinear_arith);
        assert(((len + 999) / 1000 - 1) * 1000 < len) by (nonlinear_arith);
    }
}

/// Round-trip law: for a frame packetized from `data`, the CHUNK payloads
/// concatenated in ascending sequence-number order reproduce `data` exactly,
/// so their lengths also sum to the length of `data`.
pub proof fn lemma_frame_round_trip(f: Frame, width: u32, height: u32, bpp: u32, data: Seq<u8>)
    requires
        f.is_frame_for(width, height, bpp, data),
    ensures
        chunks_payload(f, chunk_count(data.len()) as int) == data,
        chunks_payload(f, chunk_count(data.len()) as int).len() == data.len(),
{
    let n = chunk_count(data.len()) as int;
    if n > 0 {
        lemma_chunk_count_upper_inv(data.len(), n);
    }
    lemma_chunks_payload_prefix(f, data, n, n);
    assert(data.subrange(0, data.len() as int) =~= data);
}

/// BEGIN decodes back: the three big-endian fields of the BEGIN payload are
/// exactly the width, height and bits-per-pixel that were packetized.
pub proof fn lemma_begin_payload_decodes(width: u32, height: u32, bpp: u32)
    ensures
        begin_payload(width, height, bpp).len() == 12,
        u32_from_be_bytes(begin_payload(width, height, bpp).subrange(0, 4)) == width,
        u32_from_be_bytes(begin_payload(width, height, bpp).subrange(4, 8)) == height,
        u32_from_be_bytes(begin_payload(width, height, bpp).subrange(8, 12)) == bpp,
{
    let p = begin_payload(width, height, bpp);
    assert(p.subrange(0, 4) =~= u32_be_bytes(width));
    assert(p.subrange(4, 8) =~= u32_be_bytes(height));
    assert(p.subrange(8, 12) =~= u32_be_bytes(bpp));
    lemma_u32_be_round_trip(width);
    lemma_u32_be_round_trip(height);
    lemma_u32_be_round_trip(bpp);
}

/// The serialized packets of the frame for an image of the given geometry
/// whose encoded bytes are `enc`: one byte sequence per datagram, in send
/// order.
pub open spec fn frame_wire(width: u32, height: u32, bpp: u32, enc: Seq<u8>) -> Seq<Seq<u8>> {
    let n = chunk_count(enc.len()) as int;
    Seq::new(
        (n + 2) as nat,
        |i: int|
            if i == 0 {
                u32_le_bytes(BEGIN_MARKER) + u32_le_bytes(12) + u32_le_bytes(0) + u32_le_bytes(0)
                    + begin_payload(width, height, bpp)
            } else if i == n + 1 {
                u32_le_bytes(END_MARKER) + u32_le_bytes(0) + u32_le_bytes(0) + u32_le_bytes(0)
            } else {
                u32_le_bytes((i) as u32) + u32_le_bytes(chunk_payload(enc, i - 1).len() as u32)
                    + u32_le_bytes(0) + u32_le_bytes(0) + chunk_payload(enc, i - 1)
            },
    )
}

} // verus!
