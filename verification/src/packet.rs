//! Logical packets and their split into fixed-size HID report frames.

use crate::wire::write_u16_be;
use vstd::prelude::*;

verus! {

/// Bytes of one frame on the wire: the report selector and 64 data bytes.
pub const FRAME_SIZE: usize = 65;

/// Data bytes carried by the first frame of a packet.
pub const FRAME_CAPACITY: usize = 64;

/// Data bytes carried by every later frame, whose first data slot holds the marker.
pub const CONTINUATION_CAPACITY: usize = 63;

/// Value of the first data slot of every frame that continues a packet.
pub const CONTINUATION_MARKER: u8 = 0xFE;

/// Largest payload that the 16-bit length field can announce.
pub const MAX_PAYLOAD: usize = 65535;

/// Shortest body that the padded form of a packet announces.
pub const LARGE_BODY_MIN: usize = 62;

/// A logical message: a one-byte identifier and its payload.
#[derive(Clone, Debug, PartialEq, Eq)]
pub struct Packet {
    pub id: u8,
    pub data: Vec<u8>,
}

/// The mathematical value of a [`Packet`].
pub ghost struct PacketModel {
    pub id: u8,
    pub data: Seq<u8>,
}

impl View for Packet {
    type V = PacketModel;

    open spec fn view(&self) -> PacketModel {
        PacketModel { id: self.id, data: self.data@ }
    }
}

/// High byte of a 16-bit big-endian length.
pub open spec fn length_hi(n: int) -> u8 {
    ((n / 256) % 256) as u8
}

/// Low byte of a 16-bit big-endian length.
pub open spec fn length_lo(n: int) -> u8 {
    (n % 256) as u8
}

/// The byte string of a packet: identifier, payload length as big-endian
/// 16 bits, then the payload.
pub open spec fn linearize(p: PacketModel) -> Seq<u8> {
    seq![p.id, length_hi(p.data.len() as int), length_lo(p.data.len() as int)] + p.data
}

/// Length of the body that the padded form announces.
pub open spec fn large_body_len(p: PacketModel) -> int {
    if p.data.len() >= LARGE_BODY_MIN as int {
        p.data.len() as int
    } else {
        LARGE_BODY_MIN as int
    }
}

/// The padded byte string of a packet: the announced length is at least
/// [`LARGE_BODY_MIN`], and zeros follow a shorter payload up to that length.
pub open spec fn linearize_large(p: PacketModel) -> Seq<u8> {
    seq![p.id, length_hi(large_body_len(p)), length_lo(large_body_len(p))] + p.data + Seq::new(
        (large_body_len(p) - p.data.len()) as nat,
        |i: int| 0u8,
    )
}

/// The byte at `i`, or zero past either end.
pub open spec fn byte_or_zero(bytes: Seq<u8>, i: int) -> u8 {
    if 0 <= i < bytes.len() {
        bytes[i]
    } else {
        0u8
    }
}

/// Offset in the byte string at which frame `k` starts.
pub open spec fn frame_start(k: int) -> int {
    if k <= 0 {
        0
    } else {
        FRAME_CAPACITY as int + CONTINUATION_CAPACITY as int * (k - 1)
    }
}

/// Number of frames that carry a byte string of `n` bytes.
pub open spec fn frame_count(n: int) -> int {
    if n <= 0 {
        0
    } else if n <= FRAME_CAPACITY as int {
        1
    } else {
        1 + (n - FRAME_CAPACITY as int + CONTINUATION_CAPACITY as int - 1)
            / (CONTINUATION_CAPACITY as int)
    }
}

/// The frame that carries the bytes from offset `start` on: the report
/// selector, the marker if the frame continues a packet, the bytes that
/// fit, and zeros after the last of them.
pub open spec fn frame_at(bytes: Seq<u8>, start: int) -> Seq<u8> {
    Seq::new(
        FRAME_SIZE as nat,
        |j: int|
            if j == 0 {
                0u8
            } else if start >= FRAME_CAPACITY as int {
                if j == 1 {
                    CONTINUATION_MARKER
                } else {
                    byte_or_zero(bytes, start + j - 2)
                }
            } else {
                byte_or_zero(bytes, start + j - 1)
            },
    )
}

/// The frames of a byte string, in the order in which they are written.
pub open spec fn to_frames(bytes: Seq<u8>) -> Seq<Seq<u8>> {
    Seq::new(frame_count(bytes.len() as int) as nat, |k: int| frame_at(bytes, frame_start(k)))
}

/// The character of a decimal digit.
pub open spec fn digit_char(d: nat) -> char {
    if d == 0 {
        '0'
    } else if d == 1 {
        '1'
    } else if d == 2 {
        '2'
    } else if d == 3 {
        '3'
    } else if d == 4 {
        '4'
    } else if d == 5 {
        '5'
    } else if d == 6 {
        '6'
    } else if d == 7 {
        '7'
    } else if d == 8 {
        '8'
    } else {
        '9'
    }
}

/// A number in decimal, without leading zeros.
pub open spec fn decimal(n: nat) -> Seq<char>
    decreases n,
{
    if n < 10 {
        seq![digit_char(n)]
    } else {
        decimal(n / 10).push(digit_char(n % 10))
    }
}

/// The line of text that describes a packet with this identifier and
/// payload length: `Packet (id: 6, len: 12)`.
pub open spec fn packet_text(id: u8, len: nat) -> Seq<char> {
    "Packet (id: "@ + decimal(id as nat) + ", len: "@ + decimal(len) + ")"@
}

/// The quotient of `a` by `b`, rounded up.
pub open spec fn ceil_div(a: int, b: int) -> int {
    (a + b - 1) / b
}

/// A packet of payload length `L` takes as many frames as its `3 + L` bytes
/// and the markers of its later frames fill: never fewer than
/// `ceil((3 + L) / 64)`, exactly that many while one frame is enough, and
/// in general the least number whose capacity holds the bytes.
pub proof fn lemma_frame_count(p: PacketModel)
    ensures
        to_frames(linearize(p)).len() == frame_count(3 + p.data.len() as int),
        ({
            let n = 3 + p.data.len() as int;
            let c = frame_count(n);
            &&& c >= 1
            &&& c >= ceil_div(n, FRAME_CAPACITY as int)
            &&& n <= FRAME_CAPACITY ==> c == ceil_div(n, FRAME_CAPACITY as int)
            &&& c == ceil_div(n + (c - 1), FRAME_CAPACITY as int)
            &&& frame_start(c - 1) < n <= frame_start(c)
        }),
{
}

/// The byte strings of a sequence of frames.
pub open spec fn frames_view(frames: Seq<[u8; 65]>) -> Seq<Seq<u8>> {
    Seq::new(frames.len(), |k: int| frames[k]@)
}

impl Packet {
    /// Whether the payload fits the 16-bit length field.
    pub open spec fn wf(&self) -> bool {
        self.data@.len() <= MAX_PAYLOAD
    }

    pub fn new(packet_id: u8, data: Vec<u8>) -> (r: Packet)
        requires
            data@.len() <= MAX_PAYLOAD,
        ensures
            r@ == (PacketModel { id: packet_id, data: data@ }),
            r.wf(),
    {
        Packet { id: packet_id, data }
    }

    /// A packet of any payload that fits the length field; `None` for a longer one.
    pub fn try_new(packet_id: u8, data: Vec<u8>) -> (r: Option<Packet>)
        ensures
            data@.len() <= MAX_PAYLOAD ==> (r matches Some(p) && p.wf() && p@ == (PacketModel {
                id: packet_id,
                data: data@,
            })),
            data@.len() > MAX_PAYLOAD ==> r is None,
    {
        if data.len() <= MAX_PAYLOAD {
            Some(Packet { id: packet_id, data })
        } else {
            None
        }
    }

    /// Describes the packet by identifier and payload length. Calls
    /// `format!`, which renders both numbers in decimal.
    #[verifier::external_body]
    pub fn to_string(&self) -> (text: String)
        ensures
            text@ == packet_text(self.id, self.data@.len()),
    {
        format!("Packet (id: {}, len: {})", self.id, self.data.len())
    }

    pub fn len(&self) -> (n: usize)
        ensures
            n == self@.data.len(),
    {
        self.data.len()
    }

    /// The byte string of the packet.
    pub fn build_vec(&self) -> (out: Vec<u8>)
        requires
            self.wf(),
        ensures
            out@ == linearize(self@),
    {
        let body_len: usize = self.data.len();
        let mut field = [0u8; 2];
        write_u16_be(&mut field, body_len as u16);
        let mut out: Vec<u8> = Vec::with_capacity(3 + body_len);
        out.push(self.id);
        out.push(field[0]);
        out.push(field[1]);
        let mut i: usize = 0;
        while i < body_len
            invariant
                body_len == self.data@.len(),
                i <= body_len,
                out@ == linearize(self@).subrange(0, 3 + i),
            decreases body_len - i,
        {
            out.push(self.data[i]);
            i += 1;
        }
        assert(out@ == linearize(self@));
        out
    }

    /// The padded byte string of the packet.
    pub fn build_vec_large(&self) -> (out: Vec<u8>)
        requires
            self.wf(),
        ensures
            out@ == linearize_large(self@),
    {
        let data_len: usize = self.data.len();
        let body_len: usize = if data_len >= LARGE_BODY_MIN {
            data_len
        } else {
            LARGE_BODY_MIN
        };
        let mut field = [0u8; 2];
        write_u16_be(&mut field, body_len as u16);
        let mut out: Vec<u8> = Vec::with_capacity(3 + body_len);
        out.push(self.id);
        out.push(field[0]);
        out.push(field[1]);
        let mut i: usize = 0;
        while i < body_len
            invariant
                data_len == self.data@.len(),
                body_len == large_body_len(self@),
                i <= body_len,
                out@ == linearize_large(self@).subrange(0, 3 + i),
            decreases body_len - i,
        {
            if i < data_len {
                out.push(self.data[i]);
            } else {
                out.push(0u8);
            }
            i += 1;
        }
        assert(out@ == linearize_large(self@));
        out
    }

    /// The frames of the packet, ready to be taken one by one.
    pub fn build_packets(self) -> (b: PacketBuilder)
        requires
            self.wf(),
        ensures
            b.wf(),
            b.bytes() == linearize(self@),
            b.emitted() == 0,
    {
        let vec = self.build_vec();
        PacketBuilder { len: vec.len(), inner: vec, pos: 0 }
    }

    /// The frames of the padded form of the packet.
    pub fn build_packets_large(self) -> (b: PacketBuilder)
        requires
            self.wf(),
        ensures
            b.wf(),
            b.bytes() == linearize_large(self@),
            b.emitted() == 0,
    {
        let vec = self.build_vec_large();
        PacketBuilder { len: vec.len(), inner: vec, pos: 0 }
    }

    /// All frames of the packet, in the order in which they are written.
    pub fn to_frames(&self) -> (out: Vec<[u8; 65]>)
        requires
            self.wf(),
        ensures
            frames_view(out@) == to_frames(linearize(self@)),
    {
        let vec = self.build_vec();
        let mut builder = PacketBuilder { len: vec.len(), inner: vec, pos: 0 };
        builder.collect()
    }
}

/// Number of whole frames that end at or before offset `pos`.
pub open spec fn frames_before(pos: int) -> int {
    if pos < FRAME_CAPACITY as int {
        0
    } else {
        (pos - FRAME_CAPACITY as int) / (CONTINUATION_CAPACITY as int) + 1
    }
}

/// Hands out the frames of one byte string in order.
#[derive(Clone, Debug, PartialEq, Eq)]
pub struct PacketBuilder {
    inner: Vec<u8>,
    len: usize,
    pos: usize,
}

impl PacketBuilder {
    /// The byte string being framed.
    pub closed spec fn bytes(&self) -> Seq<u8> {
        self.inner@
    }

    /// The read position stands at the end of the bytes or where a frame starts.
    pub closed spec fn wf(&self) -> bool {
        &&& self.len == self.inner@.len()
        &&& self.pos <= self.len
        &&& (self.pos == self.len || self.pos == frame_start(frames_before(self.pos as int)))
    }

    /// Number of frames handed out so far.
    pub closed spec fn emitted(&self) -> int {
        if self.pos >= self.len {
            frame_count(self.len as int)
        } else {
            frames_before(self.pos as int)
        }
    }

    /// The next frame, or `None` once every byte has been handed out.
    pub fn next(&mut self) -> (r: Option<[u8; 65]>)
        requires
            old(self).wf(),
        ensures
            final(self).wf(),
            final(self).bytes() == old(self).bytes(),
            0 <= old(self).emitted() <= frame_count(old(self).bytes().len() as int),
            old(self).emitted() < frame_count(old(self).bytes().len() as int) ==> (r matches Some(f)
                && f@ == to_frames(old(self).bytes())[old(self).emitted()] && final(self).emitted()
                == old(self).emitted() + 1),
            old(self).emitted() == frame_count(old(self).bytes().len() as int) ==> r is None
                && final(self).emitted() == old(self).emitted(),
    {
        if self.len > self.pos {
            let ghost start = self.pos as int;
            let mut arr = [0u8; 65];
            let mut j: usize = 1;
            if self.pos >= FRAME_CAPACITY {
                arr[1] = CONTINUATION_MARKER;
                j = 2;
            }
            let ghost first = j as int;
            while j < FRAME_SIZE && self.pos < self.len
                invariant
                    self.len == self.inner@.len(),
                    self.inner@ == old(self).inner@,
                    first == (if start >= FRAME_CAPACITY as int { 2int } else { 1int }),
                    first <= j <= FRAME_SIZE,
                    self.pos == start + (j - first),
                    self.pos <= self.len,
                    forall|i: int| 0 <= i < j ==> arr@[i] == frame_at(self.inner@, start)[i],
                    forall|i: int| j <= i < FRAME_SIZE ==> arr@[i] == 0,
                decreases FRAME_SIZE - j,
            {
                arr[j] = self.inner[self.pos];
                self.pos += 1;
                j += 1;
            }
            assert(arr@ =~= frame_at(self.inner@, start));
            Some(arr)
        } else {
            None
        }
    }

    /// Every frame not yet handed out, in order.
    pub fn collect(&mut self) -> (out: Vec<[u8; 65]>)
        requires
            old(self).wf(),
        ensures
            final(self).wf(),
            final(self).bytes() == old(self).bytes(),
            final(self).emitted() == frame_count(old(self).bytes().len() as int),
            frames_view(out@) == to_frames(old(self).bytes()).skip(old(self).emitted()),
    {
        let mut out: Vec<[u8; 65]> = Vec::new();
        let ghost from = self.emitted();
        let ghost frames = to_frames(self.bytes());
        loop
            invariant
                self.wf(),
                self.bytes() == old(self).bytes(),
                frames == to_frames(old(self).bytes()),
                from == old(self).emitted(),
                from <= self.emitted() <= frames.len(),
                out@.len() == self.emitted() - from,
                forall|k: int| 0 <= k < out@.len() ==> (#[trigger] out@[k])@ == frames[from + k],
            ensures
                self.emitted() == frames.len(),
            decreases frames.len() - self.emitted(),
        {
            match self.next() {
                Some(f) => {
                    out.push(f);
                },
                None => {
                    break ;
                },
            }
        }
        assert(frames_view(out@) =~= frames.skip(from));
        out
    }
}

} // verus!
