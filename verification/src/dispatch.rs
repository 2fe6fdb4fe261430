//! One command exchange: the request written frame by frame, the reply
//! read and reassembled, and the rule that ties both to the calls made on
//! the device.

use crate::device::{events_since, Device, IoEvent, ReadOutcome, Transport};
use crate::error::Error;
use crate::meowboard;
use crate::meowpad4k;
use crate::packet::{frames_view, linearize, to_frames, Packet, PacketModel, MAX_PAYLOAD};
use crate::reassembler::{
    continuations_needed, lemma_collects_declared, lemma_feed_push, lemma_round_trip, reports_of,
    Assembly, Reassembler, REPORT_SIZE,
};
use vstd::prelude::*;

verus! {

/// The identifier that marks a reply as a success, in every family.
pub const OK: u8 = 1;

/// Largest index that a continuation request can carry.
pub const MAX_CHUNK_INDEX: usize = 255;

/// The device families, each with its own table of identifiers.
#[derive(Clone, Copy, Debug, PartialEq, Eq, Structural)]
pub enum Family {
    Meowboard,
    Meowpad4k,
}

impl Family {
    /// Whether the family's table holds the identifier.
    pub open spec fn knows(self, id: u8) -> bool {
        match self {
            Family::Meowboard => meowboard::packet_id::PacketID::of_code(id) is Some,
            Family::Meowpad4k => meowpad4k::packet_id::PacketID::of_code(id) is Some,
        }
    }

    pub fn is_known(self, id: u8) -> (b: bool)
        ensures
            b == self.knows(id),
    {
        match self {
            Family::Meowboard => meowboard::packet_id::PacketID::from_u8(id).is_some(),
            Family::Meowpad4k => meowpad4k::packet_id::PacketID::from_u8(id).is_some(),
        }
    }
}

/// What one exchange is about: the family, the bound on each read
/// (`None`: unbounded, and later reports are asked for one by one), and the
/// request (`None`: a reply is read without one).
pub ghost struct Rule {
    pub family: Family,
    pub wait: Option<i32>,
    pub request: Option<PacketModel>,
}

/// How far an exchange has come.
pub ghost enum Phase {
    /// This many frames of the request have been written.
    Sending { sent: int },
    /// The request is out and the first report of the reply is awaited.
    Awaiting,
    /// The reply is partly collected; `asked` says whether the next report
    /// has been asked for.
    Collecting { assembly: Assembly, asked: bool },
    /// The exchange has ended with this result.
    Done(Result<PacketModel, Error>),
    /// A call was made that no exchange makes.
    Stray,
}

/// The frame that asks for the report with the given index of a reply.
pub open spec fn continuation_frame(id: u8, index: int) -> Seq<u8> {
    to_frames(linearize(PacketModel { id, data: seq![index as u8] }))[0]
}

impl Rule {
    /// The frames of the request.
    pub open spec fn frames(self) -> Seq<Seq<u8>> {
        match self.request {
            Some(request) => to_frames(linearize(request)),
            None => Seq::empty(),
        }
    }

    /// The phase before any call.
    pub open spec fn start(self) -> Phase {
        if self.frames().len() == 0 {
            Phase::Awaiting
        } else {
            Phase::Sending { sent: 0 }
        }
    }

    /// Where the exchange stands once a report has been taken: done if
    /// the reply is complete, failed if the next report cannot be asked for,
    /// else collecting.
    pub open spec fn settle(self, assembly: Assembly) -> Phase {
        if assembly.complete() {
            Phase::Done(Ok(assembly.packet()))
        } else if self.wait is None && assembly.absorbed > MAX_CHUNK_INDEX {
            Phase::Done(Err(Error::InvalidPacket))
        } else {
            Phase::Collecting { assembly, asked: false }
        }
    }

    /// Where an awaited read leaves the exchange, given what a report leads to.
    pub open spec fn after_read(self, event: IoEvent, on_report: spec_fn(Seq<u8>) -> Phase) -> Phase {
        match event {
            IoEvent::Read { wait, outcome } => if wait != self.wait {
                Phase::Stray
            } else {
                match outcome {
                    ReadOutcome::Report(report) => if report.len() != REPORT_SIZE {
                        Phase::Stray
                    } else {
                        on_report(report)
                    },
                    ReadOutcome::Nothing => Phase::Done(Err(Error::Timeout)),
                    ReadOutcome::Failed => Phase::Done(Err(Error::Disconnect)),
                }
            },
            _ => Phase::Stray,
        }
    }

    /// Where a write of `frame` leaves the exchange, given where it stands if accepted.
    pub open spec fn after_write(self, event: IoEvent, frame: Seq<u8>, accepted: Phase) -> Phase {
        match event {
            IoEvent::Write { data, ok } => if data != frame {
                Phase::Stray
            } else if ok {
                accepted
            } else {
                Phase::Done(Err(Error::Disconnect))
            },
            _ => Phase::Stray,
        }
    }

    /// The phase after one more call on the device.
    pub open spec fn step(self, phase: Phase, event: IoEvent) -> Phase {
        match phase {
            Phase::Sending { sent } => self.after_write(
                event,
                self.frames()[sent],
                if sent + 1 == self.frames().len() {
                    Phase::Awaiting
                } else {
                    Phase::Sending { sent: sent + 1 }
                },
            ),
            Phase::Awaiting => self.after_read(
                event,
                |report: Seq<u8>|
                    if self.family.knows(report[0]) {
                        self.settle(Assembly::begin(report))
                    } else {
                        Phase::Done(Err(Error::InvalidPacket))
                    },
            ),
            Phase::Collecting { assembly, asked } => if self.wait is None && !asked {
                self.after_write(
                    event,
                    continuation_frame(assembly.id, assembly.absorbed),
                    Phase::Collecting { assembly, asked: true },
                )
            } else {
                self.after_read(event, |report: Seq<u8>| self.settle(assembly.absorb(report)))
            },
            Phase::Done(_) => Phase::Stray,
            Phase::Stray => Phase::Stray,
        }
    }

    /// The phase that a sequence of calls leads to.
    pub open spec fn run(self, events: Seq<IoEvent>) -> Phase
        decreases events.len(),
    {
        if events.len() == 0 {
            self.start()
        } else {
            self.step(self.run(events.drop_last()), events.last())
        }
    }
}

/// The result of an exchange with the packet taken by its value.
pub open spec fn outcome_view(r: Result<Packet, Error>) -> Result<PacketModel, Error> {
    match r {
        Ok(p) => Ok(p@),
        Err(e) => Err(e),
    }
}

/// One more call moves the exchange by one step.
pub proof fn lemma_run_push(rule: Rule, before: Seq<IoEvent>, trace: Seq<IoEvent>, event: IoEvent)
    requires
        before.is_prefix_of(trace),
    ensures
        before.is_prefix_of(trace.push(event)),
        events_since(before, trace.push(event)) == events_since(before, trace).push(event),
        rule.run(events_since(before, trace.push(event))) == rule.step(
            rule.run(events_since(before, trace)),
            event,
        ),
{
    let since = events_since(before, trace);
    assert(events_since(before, trace.push(event)) =~= since.push(event));
    assert(since.push(event).drop_last() =~= since);
}

/// The calls of a reply that arrives in the given reports and is read to
/// its end: a read for each report and, where the wait has no bound, before
/// each report after the first the accepted write that asks for it.
pub open spec fn reply_events(rule: Rule, reports: Seq<Seq<u8>>) -> Seq<IoEvent>
    decreases reports.len(),
{
    if reports.len() == 0 {
        Seq::empty()
    } else {
        let earlier = reply_events(rule, reports.drop_last());
        let asked = if rule.wait is None && reports.len() > 1 {
            earlier.push(
                IoEvent::Write {
                    data: continuation_frame(reports[0][0], reports.len() - 1),
                    ok: true,
                },
            )
        } else {
            earlier
        };
        asked.push(IoEvent::Read { wait: rule.wait, outcome: ReadOutcome::Report(reports.last()) })
    }
}

/// Once the request is out, a reply that arrives in reports of a known
/// identifier, no more of them than its declared length needs, leaves the
/// exchange where the reassembly of those reports stands.
pub proof fn lemma_reply_run(rule: Rule, sent: Seq<IoEvent>, reports: Seq<Seq<u8>>)
    requires
        rule.run(sent) == Phase::Awaiting,
        reports.len() >= 1,
        forall|k: int| 0 <= k < reports.len() ==> (#[trigger] reports[k]).len() == REPORT_SIZE,
        rule.family.knows(reports[0][0]),
        reports.len() <= 1 + continuations_needed(Assembly::begin(reports[0]).declared),
        rule.wait is None ==> reports.len() <= MAX_CHUNK_INDEX + 1,
    ensures
        rule.run(sent + reply_events(rule, reports)) == rule.settle(
            Assembly::begin(reports[0]).feed(reports.drop_first()),
        ),
    decreases reports.len(),
{
    let first = reports[0];
    let begun = Assembly::begin(first);
    let last = reports.last();
    let read = IoEvent::Read { wait: rule.wait, outcome: ReadOutcome::Report(last) };
    if reports.len() == 1 {
        assert(reports.drop_last() =~= Seq::<Seq<u8>>::empty());
        assert(reply_events(rule, reports.drop_last()) =~= Seq::<IoEvent>::empty());
        assert(reply_events(rule, reports) =~= seq![read]);
        assert((sent + seq![read]).drop_last() =~= sent);
        assert(reports.drop_first() =~= Seq::<Seq<u8>>::empty());
    } else {
        let init = reports.drop_last();
        let earlier = reply_events(rule, init);
        lemma_reply_run(rule, sent, init);
        assert(init[0] == first);
        assert forall|k: int| 0 <= k < init.drop_first().len() implies (#[trigger] init.drop_first()[k]).len()
            == REPORT_SIZE by {
            assert(init.drop_first()[k] == reports[k + 1]);
        }
        lemma_collects_declared(first, init.drop_first());
        let mid = begun.feed(init.drop_first());
        assert(reports.drop_first() =~= init.drop_first().push(last));
        lemma_feed_push(begun, init.drop_first(), last);
        assert(rule.settle(mid) == Phase::Collecting { assembly: mid, asked: false });
        if rule.wait is None {
            let ask = IoEvent::Write {
                data: continuation_frame(first[0], reports.len() - 1),
                ok: true,
            };
            assert(reply_events(rule, reports) =~= earlier.push(ask).push(read));
            assert(sent + earlier.push(ask).push(read) =~= (sent + earlier).push(ask).push(read));
            assert((sent + earlier).push(ask).push(read).drop_last() =~= (sent + earlier).push(ask));
            assert((sent + earlier).push(ask).drop_last() =~= sent + earlier);
            assert(rule.run((sent + earlier).push(ask)) == Phase::Collecting {
                assembly: mid,
                asked: true,
            });
        } else {
            assert(reply_events(rule, reports) =~= earlier.push(read));
            assert(sent + earlier.push(read) =~= (sent + earlier).push(read));
            assert((sent + earlier).push(read).drop_last() =~= sent + earlier);
        }
    }
}

/// Reading the frames of a packet, as they are written, gives the packet
/// back: once the request is out, the reads of the reports inside the
/// frames end the exchange with the packet itself.
pub proof fn lemma_read_round_trip(rule: Rule, sent: Seq<IoEvent>, p: PacketModel)
    requires
        rule.run(sent) == Phase::Awaiting,
        rule.family.knows(p.id),
        p.data.len() <= MAX_PAYLOAD,
        rule.wait is None ==> continuations_needed(p.data.len() as int) <= MAX_CHUNK_INDEX,
    ensures
        rule.run(sent + reply_events(rule, reports_of(to_frames(linearize(p))))) == Phase::Done(
            Ok(p),
        ),
{
    let frames = to_frames(linearize(p));
    let reports = reports_of(frames);
    crate::packet::lemma_frame_count(p);
    lemma_round_trip(p);
    assert forall|k: int| 0 <= k < reports.len() implies (#[trigger] reports[k]).len()
        == REPORT_SIZE by {
        assert(frames[k].len() == 65);
    }
    assert forall|k: int| 0 <= k < reports.drop_first().len() implies (#[trigger] reports.drop_first()[k]).len()
        == REPORT_SIZE by {
        assert(reports.drop_first()[k] == reports[k + 1]);
    }
    lemma_collects_declared(reports[0], reports.drop_first());
    let end = Assembly::begin(reports[0]).feed(reports.drop_first());
    assert(end.packet() == p);
    assert(end.declared == p.data.len());
    lemma_reply_run(rule, sent, reports);
}

/// The request by its value.
pub open spec fn request_view(request: Option<&Packet>) -> Option<PacketModel> {
    match request {
        Some(p) => Some(p@),
        None => None,
    }
}

/// Writes the request, if there is one, and reads the reply. With no
/// bound on the wait, every report after the first is asked for by a packet
/// that carries the identifier of the reply and the index of the report.
pub fn exchange<D: Device>(
    link: &mut Transport<D>,
    family: Family,
    wait: Option<i32>,
    request: Option<&Packet>,
) -> (r: Result<Packet, Error>)
    requires
        request matches Some(p) ==> p.wf(),
    ensures
        old(link).trace().is_prefix_of(final(link).trace()),
        (Rule { family, wait, request: request_view(request) }).run(
            events_since(old(link).trace(), final(link).trace()),
        ) == Phase::Done(outcome_view(r)),
        r matches Ok(p) ==> p.wf(),
{
    let ghost rule = Rule { family, wait, request: request_view(request) };
    let ghost before = link.trace();
    let frames = match request {
        Some(p) => {
            proof {
                crate::packet::lemma_frame_count(p@);
            }
            p.to_frames()
        },
        None => Vec::new(),
    };
    proof {
        assert(events_since(before, link.trace()) =~= Seq::<IoEvent>::empty());
        assert(frames_view(frames@) =~= rule.frames());
    }
    let mut k: usize = 0;
    while k < frames.len()
        invariant
            k <= frames.len(),
            frames_view(frames@) == rule.frames(),
            rule == (Rule { family, wait, request: request_view(request) }),
            before == old(link).trace(),
            before.is_prefix_of(link.trace()),
            k < frames.len() ==> rule.run(events_since(before, link.trace())) == (Phase::Sending {
                sent: k as int,
            }),
            k == frames.len() ==> rule.run(events_since(before, link.trace())) == Phase::Awaiting,
        decreases frames.len() - k,
    {
        let ghost trace = link.trace();
        let sent = link.send(frames[k].as_slice());
        proof {
            lemma_run_push(rule, before, trace, IoEvent::Write { data: frames@[k as int]@, ok: sent is Ok });
            assert(frames_view(frames@)[k as int] == frames@[k as int]@);
        }
        if sent.is_err() {
            return Err(Error::Disconnect);
        }
        k += 1;
    }
    let ghost trace = link.trace();
    let got = link.receive(wait);
    proof {
        lemma_run_push(
            rule,
            before,
            trace,
            IoEvent::Read { wait, outcome: crate::device::read_outcome(got) },
        );
    }
    let first = match got {
        Ok(report) => report,
        Err(e) => {
            return Err(e);
        },
    };
    if !family.is_known(first[0]) {
        return Err(Error::InvalidPacket);
    }
    let mut state = Reassembler::begin(&first);
    loop
        invariant
            state@.wf(),
            rule == (Rule { family, wait, request: request_view(request) }),
            before == old(link).trace(),
            before.is_prefix_of(link.trace()),
            rule.run(events_since(before, link.trace())) == rule.settle(state@),
        decreases state@.missing(),
    {
        if state.is_complete() {
            return Ok(state.finish());
        }
        if wait.is_none() {
            let index = state.chunk_index();
            if index > MAX_CHUNK_INDEX {
                return Err(Error::InvalidPacket);
            }
            let ask = Packet::new(state.id(), vec![index as u8]);
            let ask_frames = ask.to_frames();
            proof {
                crate::packet::lemma_frame_count(ask@);
                assert(ask@.data =~= seq![index as u8]);
                assert(frames_view(ask_frames@)[0] == ask_frames@[0]@);
            }
            let ghost trace = link.trace();
            let sent = link.send(ask_frames[0].as_slice());
            proof {
                lemma_run_push(
                    rule,
                    before,
                    trace,
                    IoEvent::Write { data: ask_frames@[0]@, ok: sent is Ok },
                );
            }
            if sent.is_err() {
                return Err(Error::Disconnect);
            }
        }
        let ghost trace = link.trace();
        let got = link.receive(wait);
        proof {
            lemma_run_push(
                rule,
                before,
                trace,
                IoEvent::Read { wait, outcome: crate::device::read_outcome(got) },
            );
        }
        match got {
            Ok(report) => {
                state.absorb(&report);
            },
            Err(e) => {
                return Err(e);
            },
        }
    }
}

/// What a command expects of the payload of its reply.
#[derive(Clone, Copy, Debug, PartialEq, Eq, Structural)]
pub enum Shape {
    /// At least this many bytes.
    AtLeast(usize),
    /// Live readings of this many keys, six bytes each, the last a key state.
    Readings(usize),
    /// Live readings of this many keys in the wide form, eight bytes each,
    /// the last two a key state.
    WideReadings(usize),
    /// A key state for each of this many keys, one byte each.
    States(usize),
}

impl Shape {
    /// The payload is long enough and every key state in it is one.
    pub open spec fn holds(self, data: Seq<u8>) -> bool {
        match self {
            Shape::AtLeast(n) => data.len() >= n,
            Shape::Readings(keys) => data.len() >= 6 * keys && forall|i: int|
                0 <= i < keys ==> (#[trigger] crate::replies::status_at(data, 6 * i)) is Some,
            Shape::WideReadings(keys) => data.len() >= 8 * keys && forall|i: int|
                0 <= i < keys ==> (#[trigger] crate::replies::wide_status_at(data, 8 * i)) is Some,
            Shape::States(keys) => data.len() >= keys && forall|i: int|
                0 <= i < keys ==> (#[trigger] crate::models::KeyState::of_code(data[i] as int))
                    is Some,
        }
    }

    /// The reply carries the success marker and a payload of this shape.
    pub open spec fn fits(self, reply: PacketModel) -> bool {
        reply.id == OK && self.holds(reply.data)
    }

    /// Whether the payload has this shape.
    pub fn check(self, data: &Vec<u8>) -> (b: bool)
        ensures
            b == self.holds(data@),
    {
        match self {
            Shape::AtLeast(n) => data.len() >= n,
            Shape::Readings(keys) => {
                if keys > data.len() / 6 {
                    return false;
                }
                let mut i: usize = 0;
                while i < keys
                    invariant
                        i <= keys,
                        6 * keys <= data.len(),
                        self == Shape::Readings(keys),
                        forall|j: int|
                            0 <= j < i ==> (#[trigger] crate::replies::status_at(data@, 6 * j))
                                is Some,
                    decreases keys - i,
                {
                    if crate::replies::read_status(data, 6 * i).is_none() {
                        assert(crate::replies::status_at(data@, 6 * (i as int)) is None);
                        return false;
                    }
                    i += 1;
                }
                true
            },
            Shape::WideReadings(keys) => {
                if keys > data.len() / 8 {
                    return false;
                }
                let mut i: usize = 0;
                while i < keys
                    invariant
                        i <= keys,
                        8 * keys <= data.len(),
                        self == Shape::WideReadings(keys),
                        forall|j: int|
                            0 <= j < i ==> (#[trigger] crate::replies::wide_status_at(data@, 8 * j))
                                is Some,
                    decreases keys - i,
                {
                    if crate::replies::read_wide_status(data, 8 * i).is_none() {
                        assert(crate::replies::wide_status_at(data@, 8 * (i as int)) is None);
                        return false;
                    }
                    i += 1;
                }
                true
            },
            Shape::States(keys) => {
                if keys > data.len() {
                    return false;
                }
                let mut i: usize = 0;
                while i < keys
                    invariant
                        i <= keys,
                        keys <= data.len(),
                        self == Shape::States(keys),
                        forall|j: int|
                            0 <= j < i ==> (#[trigger] crate::models::KeyState::of_code(
                                data@[j] as int,
                            )) is Some,
                    decreases keys - i,
                {
                    if crate::models::KeyState::from_u8(data[i]).is_none() {
                        assert(crate::models::KeyState::of_code(data@[i as int] as int) is None);
                        return false;
                    }
                    i += 1;
                }
                true
            },
        }
    }
}

/// `r` is the failure that a reply of the wrong kind gives: the reply as
/// an unexpected response if it lacks the success marker, else an invalid packet.
pub open spec fn rejected<T>(reply: PacketModel, r: Result<T, Error>) -> bool {
    if reply.id != OK {
        r matches Err(Error::UnexceptedResponse(p)) && p@ == reply
    } else {
        r == Err::<T, Error>(Error::InvalidPacket)
    }
}

/// `r` is what an exchange that ended in `phase` gives to a command that
/// expects a reply of `shape` and reads a value from it as `reads` says.
pub open spec fn answers<T>(
    phase: Phase,
    shape: Shape,
    r: Result<T, Error>,
    reads: spec_fn(PacketModel, T) -> bool,
) -> bool {
    match phase {
        Phase::Done(Ok(reply)) => if shape.fits(reply) {
            r matches Ok(v) && reads(reply, v)
        } else {
            rejected(reply, r)
        },
        Phase::Done(Err(e)) => r == Err::<T, Error>(e),
        _ => false,
    }
}

/// The rule of a command that waits without bound for its reply.
pub open spec fn command_rule(family: Family, id: u8, payload: Seq<u8>) -> Rule {
    Rule { family, wait: None, request: Some(PacketModel { id, data: payload }) }
}

/// Sends a command and gives its reply if it is of the shape expected.
pub fn command<D: Device>(
    link: &mut Transport<D>,
    family: Family,
    request: &Packet,
    shape: Shape,
) -> (r: Result<Packet, Error>)
    requires
        request.wf(),
    ensures
        old(link).trace().is_prefix_of(final(link).trace()),
        answers(
            command_rule(family, request@.id, request@.data).run(
                events_since(old(link).trace(), final(link).trace()),
            ),
            shape,
            r,
            |reply: PacketModel, p: Packet| p@ == reply && p.wf(),
        ),
{
    let reply = match exchange(link, family, None, Some(request)) {
        Ok(reply) => reply,
        Err(e) => {
            return Err(e);
        },
    };
    if reply.id != OK {
        return Err(Error::UnexceptedResponse(reply));
    }
    if !shape.check(&reply.data) {
        return Err(Error::InvalidPacket);
    }
    Ok(reply)
}

/// How far a sequence of exchanges has come: the replies of those that
/// have ended well, and the phase of the one under way.
pub ghost struct Progress {
    pub replies: Seq<PacketModel>,
    pub phase: Phase,
}

/// Where a sequence of calls leaves a sequence of exchanges, each begun
/// once the one before has ended in a reply of the shape it expects.
pub open spec fn run_all(rules: Seq<Rule>, shapes: Seq<Shape>, events: Seq<IoEvent>) -> Progress
    decreases events.len(),
{
    if events.len() == 0 {
        Progress { replies: Seq::empty(), phase: rules[0].start() }
    } else {
        let prev = run_all(rules, shapes, events.drop_last());
        let index = prev.replies.len() as int;
        let same = Progress {
            replies: prev.replies,
            phase: rules[index].step(prev.phase, events.last()),
        };
        match prev.phase {
            Phase::Done(Ok(reply)) => if shapes[index].fits(reply) && index + 1 < rules.len() {
                Progress {
                    replies: prev.replies.push(reply),
                    phase: rules[index + 1].step(rules[index + 1].start(), events.last()),
                }
            } else {
                same
            },
            _ => same,
        }
    }
}

/// `r` is what a sequence of `count` exchanges that has come as far as
/// `progress` gives to a command that expects replies of the given shapes
/// and reads a value from all of them as `reads` says.
pub open spec fn answers_all<T>(
    progress: Progress,
    count: int,
    shapes: Seq<Shape>,
    r: Result<T, Error>,
    reads: spec_fn(Seq<PacketModel>, T) -> bool,
) -> bool {
    match progress.phase {
        Phase::Done(Ok(reply)) => if shapes[progress.replies.len() as int].fits(reply) {
            progress.replies.len() + 1 == count && (r matches Ok(v) && reads(
                progress.replies.push(reply),
                v,
            ))
        } else {
            rejected(reply, r)
        },
        Phase::Done(Err(e)) => r == Err::<T, Error>(e),
        _ => false,
    }
}

/// The replies gathered when the next call after `events` begins a new
/// exchange; `None` while an exchange is under way or after one that failed.
pub open spec fn next_exchange(rules: Seq<Rule>, shapes: Seq<Shape>, events: Seq<IoEvent>) -> Option<
    Seq<PacketModel>,
> {
    let progress = run_all(rules, shapes, events);
    if events.len() == 0 {
        Some(Seq::empty())
    } else {
        match progress.phase {
            Phase::Done(Ok(reply)) => if shapes[progress.replies.len() as int].fits(reply)
                && progress.replies.len() + 1 < rules.len() {
                Some(progress.replies.push(reply))
            } else {
                None
            },
            _ => None,
        }
    }
}

/// The calls of one more exchange, made when the exchanges before have
/// ended well, carry that exchange as far as they would carry it alone.
pub proof fn lemma_run_all_extend(
    rules: Seq<Rule>,
    shapes: Seq<Shape>,
    earlier: Seq<IoEvent>,
    later: Seq<IoEvent>,
)
    requires
        next_exchange(rules, shapes, earlier) is Some,
        later.len() >= 1,
        rules[next_exchange(rules, shapes, earlier)->0.len() as int].run(later) != Phase::Stray,
    ensures
        run_all(rules, shapes, earlier + later) == (Progress {
            replies: next_exchange(rules, shapes, earlier)->0,
            phase: rules[next_exchange(rules, shapes, earlier)->0.len() as int].run(later),
        }),
    decreases later.len(),
{
    let gathered = next_exchange(rules, shapes, earlier)->0;
    let rule = rules[gathered.len() as int];
    let all = earlier + later;
    let head = later.drop_last();
    assert(all.drop_last() =~= earlier + head);
    assert(all.last() == later.last());
    if later.len() == 1 {
        assert(earlier + head =~= earlier);
        assert(rule.run(head) == rule.start());
    } else {
        lemma_run_all_extend(rules, shapes, earlier, head);
    }
}

/// The events since `before` are those up to `middle` and then those since `middle`.
pub proof fn lemma_events_split(before: Seq<IoEvent>, middle: Seq<IoEvent>, after: Seq<IoEvent>)
    requires
        before.is_prefix_of(middle),
        middle.is_prefix_of(after),
    ensures
        before.is_prefix_of(after),
        events_since(before, after) == events_since(before, middle) + events_since(middle, after),
{
    assert(events_since(before, after) =~= events_since(before, middle) + events_since(
        middle,
        after,
    ));
}

/// The packets of a sequence by their values.
pub open spec fn packets_view(packets: Seq<Packet>) -> Seq<PacketModel> {
    Seq::new(packets.len(), |k: int| packets[k]@)
}

/// The rules of the commands that carry the given requests.
pub open spec fn command_rules(family: Family, requests: Seq<PacketModel>) -> Seq<Rule> {
    Seq::new(requests.len(), |k: int| command_rule(family, requests[k].id, requests[k].data))
}

/// Sends the commands in order, each once the one before has been
/// answered by a reply of the shape it expects, and gives all replies.
pub fn gather<D: Device>(
    link: &mut Transport<D>,
    family: Family,
    requests: &Vec<Packet>,
    shapes: &Vec<Shape>,
) -> (r: Result<Vec<Packet>, Error>)
    requires
        requests@.len() >= 1,
        shapes@.len() == requests@.len(),
        forall|k: int| 0 <= k < requests@.len() ==> (#[trigger] requests@[k]).wf(),
    ensures
        old(link).trace().is_prefix_of(final(link).trace()),
        answers_all(
            run_all(
                command_rules(family, packets_view(requests@)),
                shapes@,
                events_since(old(link).trace(), final(link).trace()),
            ),
            requests@.len() as int,
            shapes@,
            r,
            |replies: Seq<PacketModel>, v: Vec<Packet>| packets_view(v@) == replies,
        ),
        r matches Ok(v) ==> v@.len() == requests@.len() && forall|k: int|
            0 <= k < v@.len() ==> (#[trigger] v@[k]).wf() && shapes@[k].fits(v@[k]@),
{
    let ghost before = link.trace();
    let ghost rules = command_rules(family, packets_view(requests@));
    let mut replies: Vec<Packet> = Vec::new();
    let mut k: usize = 0;
    proof {
        assert(events_since(before, link.trace()) =~= Seq::<IoEvent>::empty());
    }
    while k < requests.len()
        invariant
            k <= requests.len(),
            requests@.len() >= 1,
            shapes@.len() == requests@.len(),
            forall|j: int| 0 <= j < requests@.len() ==> (#[trigger] requests@[j]).wf(),
            before == old(link).trace(),
            rules == command_rules(family, packets_view(requests@)),
            before.is_prefix_of(link.trace()),
            replies@.len() == k,
            forall|j: int|
                0 <= j < replies@.len() ==> (#[trigger] replies@[j]).wf() && shapes@[j].fits(
                    replies@[j]@,
                ),
            k < requests.len() ==> next_exchange(rules, shapes@, events_since(before, link.trace()))
                == Some(packets_view(replies@)),
            k == requests.len() ==> answers_all(
                run_all(rules, shapes@, events_since(before, link.trace())),
                requests@.len() as int,
                shapes@,
                Ok::<Vec<Packet>, Error>(replies),
                |replies: Seq<PacketModel>, v: Vec<Packet>| packets_view(v@) == replies,
            ),
        decreases requests.len() - k,
    {
        let ghost middle = link.trace();
        let ghost gathered = packets_view(replies@);
        let got = command(link, family, &requests[k], shapes[k]);
        proof {
            let later = events_since(middle, link.trace());
            lemma_events_split(before, middle, link.trace());
            assert(rules[k as int] == command_rule(
                family,
                requests@[k as int]@.id,
                requests@[k as int]@.data,
            ));
            lemma_run_all_extend(rules, shapes@, events_since(before, middle), later);
        }
        match got {
            Ok(reply) => {
                proof {
                    assert(packets_view(replies@.push(reply)) =~= gathered.push(reply@));
                }
                replies.push(reply);
            },
            Err(e) => {
                return Err(e);
            },
        }
        k += 1;
    }
    Ok(replies)
}

} // verus!
