//! Rebuilding a packet from the reports that carry it.

use crate::error::Error;
use crate::packet::{
    byte_or_zero, frame_count, frame_start, frames_view, length_hi, length_lo, linearize,
    to_frames, Packet, PacketModel, FRAME_SIZE, MAX_PAYLOAD,
};
use crate::wire::{read_u16_be, u16_from_be};
use vstd::prelude::*;
use vstd::slice::slice_subrange;

verus! {

/// Bytes of one report as it is read: a frame without its report selector.
pub const REPORT_SIZE: usize = 64;

/// Bytes of the packet header at the start of the first report.
pub const HEADER_SIZE: usize = 3;

/// Payload bytes that the first report can hold.
pub const FIRST_ROOM: usize = 61;

/// Offset of the first payload byte in a report after the first, whose
/// first byte holds the continuation marker.
pub const LATER_SKIP: usize = 1;

/// Payload bytes that a report after the first can hold.
pub const LATER_ROOM: usize = 63;

/// Payload bytes that the first report and `later` further ones can hold.
pub open spec fn capacity(later: int) -> int {
    FIRST_ROOM as int + LATER_ROOM as int * later
}

/// The mathematical state of a reassembly in progress.
pub ghost struct Assembly {
    pub id: u8,
    pub declared: int,
    pub data: Seq<u8>,
    pub absorbed: int,
}

pub open spec fn min_int(a: int, b: int) -> int {
    if a <= b {
        a
    } else {
        b
    }
}

impl Assembly {
    /// The state after the first report: its header read, and as much
    /// payload taken from it as is declared and fits.
    pub open spec fn begin(report: Seq<u8>) -> Assembly {
        let declared = u16_from_be(report[1], report[2]);
        Assembly {
            id: report[0],
            declared,
            data: report.subrange(
                HEADER_SIZE as int,
                HEADER_SIZE as int + min_int(declared, FIRST_ROOM as int),
            ),
            absorbed: 1,
        }
    }

    /// Every declared byte has been collected.
    pub open spec fn complete(self) -> bool {
        self.data.len() == self.declared
    }

    /// Payload bytes still missing.
    pub open spec fn missing(self) -> int {
        self.declared - self.data.len()
    }

    /// The state after one more report: as much payload taken from it as
    /// is still missing and fits.
    pub open spec fn absorb(self, report: Seq<u8>) -> Assembly {
        Assembly {
            data: self.data + report.subrange(
                LATER_SKIP as int,
                LATER_SKIP as int + min_int(self.missing(), LATER_ROOM as int),
            ),
            absorbed: self.absorbed + 1,
            ..self
        }
    }

    /// The state after the given reports, taken in order until the packet is complete.
    pub open spec fn feed(self, reports: Seq<Seq<u8>>) -> Assembly
        decreases reports.len(),
    {
        if reports.len() == 0 || self.complete() {
            self
        } else {
            self.absorb(reports[0]).feed(reports.drop_first())
        }
    }

    /// The packet that a complete state holds.
    pub open spec fn packet(self) -> PacketModel {
        PacketModel { id: self.id, data: self.data }
    }

    /// The state is one that reports can lead to.
    pub open spec fn wf(self) -> bool {
        &&& 0 <= self.declared <= MAX_PAYLOAD
        &&& self.absorbed >= 1
        &&& self.data.len() == min_int(self.declared, capacity(self.absorbed - 1))
    }
}

/// Reports after the first that a payload of `declared` bytes needs.
pub open spec fn continuations_needed(declared: int) -> int {
    if declared <= FIRST_ROOM as int {
        0
    } else {
        (declared - FIRST_ROOM as int + LATER_ROOM as int - 1) / (LATER_ROOM as int)
    }
}

/// The packet that a sequence of reports carries, if they carry a whole one.
pub open spec fn from_reports(reports: Seq<Seq<u8>>) -> Option<PacketModel> {
    if reports.len() == 0 {
        None
    } else {
        let end = Assembly::begin(reports[0]).feed(reports.drop_first());
        if end.complete() {
            Some(end.packet())
        } else {
            None
        }
    }
}

/// The report inside a frame: the frame without its report selector.
pub open spec fn report_of(frame: Seq<u8>) -> Seq<u8> {
    frame.subrange(1, FRAME_SIZE as int)
}

/// The reports inside a sequence of frames.
pub open spec fn reports_of(frames: Seq<Seq<u8>>) -> Seq<Seq<u8>> {
    Seq::new(frames.len(), |k: int| report_of(frames[k]))
}

/// The packet that a sequence of written frames carries, if they carry a whole one.
pub open spec fn from_frames(frames: Seq<Seq<u8>>) -> Option<PacketModel> {
    from_reports(reports_of(frames))
}

/// The byte strings of a sequence of reports.
pub open spec fn reports_view(reports: Seq<[u8; 64]>) -> Seq<Seq<u8>> {
    Seq::new(reports.len(), |k: int| reports[k]@)
}

/// Taking one more report after a run of reports: nothing changes once the
/// packet is complete, and otherwise the report is absorbed.
pub proof fn lemma_feed_push(a: Assembly, reports: Seq<Seq<u8>>, report: Seq<u8>)
    ensures
        a.feed(reports.push(report)) == (if a.feed(reports).complete() {
            a.feed(reports)
        } else {
            a.feed(reports).absorb(report)
        }),
    decreases reports.len(),
{
    if reports.len() == 0 {
        assert(reports.push(report).drop_first() =~= Seq::<Seq<u8>>::empty());
        assert(reports.push(report)[0] == report);
        if !a.complete() {
            assert(a.absorb(report).feed(Seq::<Seq<u8>>::empty()) == a.absorb(report));
        }
    } else if a.complete() {
    } else {
        assert(reports.push(report).drop_first() =~= reports.drop_first().push(report));
        lemma_feed_push(a.absorb(reports[0]), reports.drop_first(), report);
    }
}

/// A reassembly collects exactly the declared number of bytes: after the
/// first report and `k` more it holds the lesser of the declared length and
/// what those reports can carry, so it is complete after exactly
/// [`continuations_needed`] further reports, not before, and takes none after.
pub proof fn lemma_collects_declared(first: Seq<u8>, rest: Seq<Seq<u8>>)
    requires
        first.len() == REPORT_SIZE,
        forall|k: int| 0 <= k < rest.len() ==> (#[trigger] rest[k]).len() == REPORT_SIZE,
    ensures
        ({
            let start = Assembly::begin(first);
            let end = start.feed(rest);
            let needed = continuations_needed(start.declared);
            &&& end.wf()
            &&& end.id == start.id
            &&& end.declared == start.declared
            &&& end.data.len() <= end.declared
            &&& end.absorbed == 1 + min_int(rest.len() as int, needed)
            &&& end.complete() <==> rest.len() >= needed
        }),
    decreases rest.len(),
{
    let start = Assembly::begin(first);
    lemma_begin_wf(first);
    if rest.len() == 0 {
    } else {
        let init = rest.drop_last();
        let last = rest.last();
        assert(rest =~= init.push(last));
        lemma_collects_declared(first, init);
        lemma_feed_push(start, init, last);
        let mid = start.feed(init);
        if !mid.complete() {
            lemma_absorb_wf(mid, last);
        }
    }
}

/// The state after the first report is well formed.
pub proof fn lemma_begin_wf(first: Seq<u8>)
    requires
        first.len() == REPORT_SIZE,
    ensures
        Assembly::begin(first).wf(),
        Assembly::begin(first).complete() <==> continuations_needed(Assembly::begin(first).declared)
            <= 0,
{
}

/// Absorbing a report keeps a state well formed, and completes it exactly
/// when the reports taken reach the number needed.
pub proof fn lemma_absorb_wf(a: Assembly, report: Seq<u8>)
    requires
        a.wf(),
        !a.complete(),
        report.len() == REPORT_SIZE,
    ensures
        a.absorb(report).wf(),
        a.absorb(report).complete() <==> a.absorbed >= continuations_needed(a.declared),
        a.absorbed - 1 < continuations_needed(a.declared),
{
}

/// Reading the frames of a packet from frame `k + 1` on completes the
/// packet, given that the frames up to `k` gave its first bytes.
proof fn lemma_feed_frames(p: PacketModel, a: Assembly, k: int)
    requires
        p.data.len() <= MAX_PAYLOAD,
        0 <= k < frame_count(3 + p.data.len() as int),
        a.id == p.id,
        a.declared == p.data.len(),
        a.data == p.data.subrange(0, min_int(p.data.len() as int, capacity(k))),
    ensures
        ({
            let reports = reports_of(to_frames(linearize(p)));
            let end = a.feed(reports.subrange(k + 1, reports.len() as int));
            end.complete() && end.packet() == p
        }),
    decreases frame_count(3 + p.data.len() as int) - k,
{
    let bytes = linearize(p);
    let frames = to_frames(bytes);
    let reports = reports_of(frames);
    let rest = reports.subrange(k + 1, reports.len() as int);
    if a.complete() {
        assert(a.data =~= p.data);
    } else {
        let next = reports[k + 1];
        let b = a.absorb(next);
        let taken = min_int(a.missing(), 63);
        assert(rest[0] == next);
        assert(rest.drop_first() =~= reports.subrange(k + 2, reports.len() as int));
        assert(frame_start(k + 1) == 64 + 63 * k);
        assert forall|j: int| 0 <= j < taken implies #[trigger] next[1 + j] == p.data[61 + 63 * k
            + j] by {
            assert(next[1 + j] == frames[k + 1][2 + j]);
            assert(bytes[64 + 63 * k + j] == p.data[61 + 63 * k + j]);
        }
        assert(b.data =~= p.data.subrange(
            0,
            min_int(p.data.len() as int, capacity(k + 1)),
        ));
        lemma_feed_frames(p, b, k + 1);
    }
}

/// Reassembling the frames of a packet gives the packet back.
pub proof fn lemma_round_trip(p: PacketModel)
    requires
        p.data.len() <= MAX_PAYLOAD,
    ensures
        from_frames(to_frames(linearize(p))) == Some(p),
{
    let bytes = linearize(p);
    let frames = to_frames(bytes);
    let reports = reports_of(frames);
    let len = p.data.len() as int;
    let start = Assembly::begin(reports[0]);
    assert forall|j: int| 0 <= j < 64 implies #[trigger] reports[0][j] == byte_or_zero(bytes, j) by {
        assert(reports[0][j] == frames[0][j + 1]);
    }
    assert(start.id == p.id);
    assert(start.declared == len) by {
        assert(bytes[1] == length_hi(len));
        assert(bytes[2] == length_lo(len));
    }
    assert(start.data =~= p.data.subrange(0, min_int(len, FIRST_ROOM as int)));
    assert(reports.drop_first() =~= reports.subrange(1, reports.len() as int));
    lemma_feed_frames(p, start, 0);
}

/// Collects the payload of one packet from the reports that arrive.
pub struct Reassembler {
    id: u8,
    declared: usize,
    data: Vec<u8>,
    absorbed: usize,
}

impl View for Reassembler {
    type V = Assembly;

    closed spec fn view(&self) -> Assembly {
        Assembly {
            id: self.id,
            declared: self.declared as int,
            data: self.data@,
            absorbed: self.absorbed as int,
        }
    }
}

impl Reassembler {
    /// Starts on the first report of a reply.
    pub fn begin(report: &[u8; 64]) -> (r: Reassembler)
        ensures
            r@ == Assembly::begin(report@),
            r@.wf(),
    {
        let declared: usize = read_u16_be(slice_subrange(report.as_slice(), 1, 3)) as usize;
        let take: usize = if declared <= FIRST_ROOM {
            declared
        } else {
            FIRST_ROOM
        };
        let mut data: Vec<u8> = Vec::with_capacity(declared);
        let mut i: usize = 0;
        while i < take
            invariant
                i <= take <= FIRST_ROOM,
                data@ == report@.subrange(HEADER_SIZE as int, HEADER_SIZE as int + i),
            decreases take - i,
        {
            data.push(report[HEADER_SIZE + i]);
            i += 1;
        }
        Reassembler { id: report[0], declared, data, absorbed: 1 }
    }

    /// Whether every declared byte has been collected.
    pub fn is_complete(&self) -> (b: bool)
        ensures
            b == self@.complete(),
    {
        self.data.len() == self.declared
    }

    /// Identifier of the packet being collected.
    pub fn id(&self) -> (r: u8)
        ensures
            r == self@.id,
    {
        self.id
    }

    /// Payload length that the header declares.
    pub fn declared_len(&self) -> (r: usize)
        ensures
            r == self@.declared,
    {
        self.declared
    }

    /// Number of reports taken so far, which is the index of the next one.
    pub fn chunk_index(&self) -> (r: usize)
        ensures
            r == self@.absorbed,
    {
        self.absorbed
    }

    /// Takes the payload of one more report.
    pub fn absorb(&mut self, report: &[u8; 64])
        requires
            old(self)@.wf(),
            !old(self)@.complete(),
        ensures
            final(self)@ == old(self)@.absorb(report@),
            final(self)@.wf(),
    {
        let skip: usize = LATER_SKIP;
        let room: usize = REPORT_SIZE - skip;
        let missing: usize = self.declared - self.data.len();
        let take: usize = if missing <= room {
            missing
        } else {
            room
        };
        let ghost before = self.data@;
        let mut i: usize = 0;
        while i < take
            invariant
                i <= take <= room,
                skip + room == REPORT_SIZE,
                self.data@ == before + report@.subrange(skip as int, skip + i),
                self.id == old(self).id,
                self.declared == old(self).declared,
                self.absorbed == old(self).absorbed,
            decreases take - i,
        {
            self.data.push(report[skip + i]);
            i += 1;
        }
        self.absorbed = self.absorbed + 1;
    }

    /// The packet, once every declared byte has been collected.
    pub fn finish(self) -> (p: Packet)
        requires
            self@.wf(),
            self@.complete(),
        ensures
            p@ == self@.packet(),
            p.wf(),
    {
        Packet { id: self.id, data: self.data }
    }
}

impl Packet {
    /// The packet that the reports carry, read in order until it is complete.
    pub fn from_reports(reports: &Vec<[u8; 64]>) -> (r: Result<Packet, Error>)
        ensures
            match from_reports(reports_view(reports@)) {
                Some(m) => r matches Ok(p) && p@ == m && p.wf(),
                None => r == Err::<Packet, Error>(Error::InvalidPacket),
            },
    {
        if reports.len() == 0 {
            return Err(Error::InvalidPacket);
        }
        let ghost all = reports_view(reports@);
        let ghost start = Assembly::begin(all[0]);
        let mut state = Reassembler::begin(&reports[0]);
        let mut k: usize = 1;
        proof {
            assert(all.subrange(1, 1) =~= Seq::<Seq<u8>>::empty());
        }
        while k < reports.len()
            invariant
                1 <= k <= reports.len(),
                all == reports_view(reports@),
                start == Assembly::begin(all[0]),
                state@.wf(),
                state@ == start.feed(all.subrange(1, k as int)),
            decreases reports.len() - k,
        {
            proof {
                lemma_feed_push(start, all.subrange(1, k as int), all[k as int]);
                assert(all.subrange(1, k as int).push(all[k as int]) =~= all.subrange(
                    1,
                    k + 1,
                ));
            }
            if !state.is_complete() {
                state.absorb(&reports[k]);
            }
            k += 1;
        }
        proof {
            assert(all.subrange(1, k as int) =~= all.drop_first());
        }
        if state.is_complete() {
            Ok(state.finish())
        } else {
            Err(Error::InvalidPacket)
        }
    }

    /// The packet that written frames carry: the inverse of [`Packet::to_frames`].
    pub fn from_frames(frames: &Vec<[u8; 65]>) -> (r: Result<Packet, Error>)
        ensures
            match from_frames(frames_view(frames@)) {
                Some(m) => r matches Ok(p) && p@ == m && p.wf(),
                None => r == Err::<Packet, Error>(Error::InvalidPacket),
            },
    {
        let mut reports: Vec<[u8; 64]> = Vec::with_capacity(frames.len());
        let mut k: usize = 0;
        while k < frames.len()
            invariant
                k <= frames.len(),
                reports@.len() == k,
                forall|i: int| 0 <= i < k ==> (#[trigger] reports@[i])@ == report_of(frames@[i]@),
            decreases frames.len() - k,
        {
            reports.push(strip_selector(&frames[k]));
            k += 1;
        }
        proof {
            assert(reports_view(reports@) =~= reports_of(frames_view(frames@)));
        }
        Packet::from_reports(&reports)
    }
}

/// The report inside a frame.
pub fn strip_selector(frame: &[u8; 65]) -> (report: [u8; 64])
    ensures
        report@ == report_of(frame@),
{
    let mut report = [0u8; 64];
    let mut j: usize = 0;
    while j < REPORT_SIZE
        invariant
            j <= REPORT_SIZE,
            forall|i: int| 0 <= i < j ==> report@[i] == frame@[i + 1],
        decreases REPORT_SIZE - j,
    {
        report[j] = frame[j + 1];
        j += 1;
    }
    assert(report@ =~= report_of(frame@));
    report
}

} // verus!
