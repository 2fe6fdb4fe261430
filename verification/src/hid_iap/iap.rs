//! The programming session: erase, then a programming pass and a verifying
//! pass over the image in chunks of 60 bytes.

use crate::device::{events_since, Device, IoEvent, ReadOutcome, Transport};
use crate::hid_iap::error::Error;
use crate::hid_iap::packet::{chunk_frame, command_frame, padded, IAPCommand, IAPacket, CHUNK_SIZE};
use vstd::prelude::*;

verus! {

/// Largest image that the 16-bit flash address can cover.
pub const MAX_IMAGE: usize = 65535;

/// Where a session stands.
#[derive(Debug, Copy, Clone, PartialEq, Eq, Structural)]
pub enum IAPState {
    Idle,
    Programming,
    Verifying,
}

/// The mathematical state of a session.
pub ghost struct Session {
    pub image: Option<Seq<u8>>,
    pub cursor: int,
    pub state: IAPState,
}

impl Session {
    /// The cursor lies within the image, and the image within the address space.
    pub open spec fn wf(self) -> bool {
        match self.image {
            Some(image) => 0 <= self.cursor <= image.len() <= MAX_IMAGE,
            None => self.cursor == 0,
        }
    }

    /// A chunk of the current pass is still to be sent.
    pub open spec fn has_chunk(self) -> bool {
        self.image matches Some(image) && self.cursor < image.len()
    }

    /// Offset at which the chunk at the cursor ends.
    pub open spec fn chunk_end(self) -> int {
        if self.cursor + CHUNK_SIZE <= self.image->0.len() {
            self.cursor + CHUNK_SIZE
        } else {
            self.image->0.len() as int
        }
    }

    /// The bytes of the chunk at the cursor.
    pub open spec fn chunk(self) -> Seq<u8> {
        self.image->0.subrange(self.cursor, self.chunk_end())
    }

    /// The session that a successful erase leaves.
    pub open spec fn started(image: Seq<u8>) -> Session {
        Session { image: Some(image), cursor: 0, state: IAPState::Programming }
    }

    /// The session after one successful step: the cursor moves past the
    /// chunk sent, or, with no chunk left, the pass ends.
    pub open spec fn advance(self) -> Session {
        match self.state {
            IAPState::Idle => self,
            IAPState::Programming => if self.has_chunk() {
                Session { cursor: self.chunk_end(), ..self }
            } else {
                Session { cursor: 0, state: IAPState::Verifying, ..self }
            },
            IAPState::Verifying => if self.has_chunk() {
                Session { cursor: self.chunk_end(), ..self }
            } else {
                Session { state: IAPState::Idle, ..self }
            },
        }
    }

    /// The session after `n` successful steps.
    pub open spec fn steps(self, n: nat) -> Session
        decreases n,
    {
        if n == 0 {
            self
        } else {
            self.advance().steps((n - 1) as nat)
        }
    }
}

/// The frame that erases the flash.
pub open spec fn erase_frame() -> Seq<u8> {
    command_frame(IAPCommand::Erase, 0, seq![0u8, 0u8], padded(Seq::<u8>::empty()))
}

/// The frame that ends a session; its length field announces two bytes.
pub open spec fn end_frame() -> Seq<u8> {
    command_frame(IAPCommand::End, 2, seq![0u8, 0u8], padded(Seq::<u8>::empty()))
}

/// What the events of one command exchange decide: the frame is written
/// behind the report selector, then two status bytes are read, and the
/// command has succeeded if both are zero. `None` where the events are not
/// such an exchange of `frame`.
pub open spec fn exchange_result(cmd: IAPCommand, frame: Seq<u8>, events: Seq<IoEvent>) -> Option<
    Result<(), Error>,
> {
    let wire = seq![0u8] + frame;
    if events.len() == 1 && events[0] == (IoEvent::Write { data: wire, ok: false }) {
        Some(Err(Error::Disconnect))
    } else if events.len() == 2 && events[0] == (IoEvent::Write { data: wire, ok: true }) {
        match events[1] {
            IoEvent::Read { wait: None, outcome: ReadOutcome::Report(status) } => if status.len()
                == 2 && status[0] == 0 && status[1] == 0 {
                Some(Ok(()))
            } else {
                Some(Err(Error::CommandFailed(cmd)))
            },
            IoEvent::Read { wait: None, outcome: _ } => Some(Err(Error::Disconnect)),
            _ => None,
        }
    } else {
        None
    }
}

/// What the events of a bare write decide. `None` where they are not one
/// write of `frame` behind the report selector.
pub open spec fn write_result(frame: Seq<u8>, events: Seq<IoEvent>) -> Option<Result<(), Error>> {
    let wire = seq![0u8] + frame;
    if events.len() == 1 && events[0] == (IoEvent::Write { data: wire, ok: true }) {
        Some(Ok(()))
    } else if events.len() == 1 && events[0] == (IoEvent::Write { data: wire, ok: false }) {
        Some(Err(Error::Disconnect))
    } else {
        None
    }
}

/// Shortest image that is taken for firmware, exclusive.
pub const MIN_FIRMWARE: usize = 512;

/// Whether the bytes carry the mark of a firmware image: more than 512
/// bytes, with `73 00 10 00` at offset 52.
pub open spec fn is_firmware(data: Seq<u8>) -> bool {
    data.len() > MIN_FIRMWARE && data[52] == 0x73 && data[53] == 0x00 && data[54] == 0x10
        && data[55] == 0x00
}

/// Whether the bytes carry the mark of a firmware image.
pub fn check_firmware(data: &[u8]) -> (b: bool)
    ensures
        b == is_firmware(data@),
{
    data.len() > MIN_FIRMWARE && data[52] == 0x73 && data[53] == 0x00 && data[54] == 0x10
        && data[55] == 0x00
}

/// A programming session on one device.
pub struct IAP<D: Device> {
    /// The transport under the session.
    pub link: Transport<D>,
    /// The image being written. Set by [`IAP::start_program`] only.
    pub firmware_data: Option<Vec<u8>>,
    /// The flash address cursor. Moved by the steps of the session only.
    pub flash_addr: u16,
    pub state: IAPState,
}

impl<D: Device> View for IAP<D> {
    type V = Session;

    open spec fn view(&self) -> Session {
        Session {
            image: match self.firmware_data {
                Some(v) => Some(v@),
                None => None,
            },
            cursor: self.flash_addr as int,
            state: self.state,
        }
    }
}

impl<D: Device> IAP<D> {
    /// Every call made on the device so far.
    pub open spec fn trace(&self) -> Seq<IoEvent> {
        self.link.trace()
    }

    pub fn new(device: D) -> (iap: IAP<D>)
        ensures
            iap@ == (Session { image: None, cursor: 0, state: IAPState::Idle }),
            iap.trace() == Seq::<IoEvent>::empty(),
    {
        IAP { link: Transport::new(device), firmware_data: None, flash_addr: 0, state: IAPState::Idle }
    }

    /// Writes one command and reads its status.
    fn exchange(&mut self, cmd: IAPCommand, packet: &IAPacket) -> (r: Result<(), Error>)
        ensures
            final(self)@ == old(self)@,
            old(self).trace().is_prefix_of(final(self).trace()),
            exchange_result(cmd, packet.frame(), events_since(old(self).trace(), final(self).trace()))
                == Some(r),
    {
        let wire = packet.packet();
        let ghost before = self.link.trace();
        match self.link.send(wire.as_slice()) {
            Ok(()) => {},
            Err(_) => {
                assert(events_since(before, self.link.trace()) =~= seq![
                    IoEvent::Write { data: wire@, ok: false },
                ]);
                return Err(Error::Disconnect);
            },
        }
        let got = self.link.receive_status();
        assert(events_since(before, self.link.trace()) =~= seq![
            IoEvent::Write { data: wire@, ok: true },
            IoEvent::Read { wait: None, outcome: crate::device::read_outcome(got) },
        ]);
        match got {
            Ok(status) => {
                if status[0] != 0x00 || status[1] != 0x00 {
                    Err(Error::CommandFailed(cmd))
                } else {
                    Ok(())
                }
            },
            Err(_) => Err(Error::Disconnect),
        }
    }

    /// Stores the image, erases the flash and opens the programming pass.
    /// An image beyond the address space is refused before anything is
    /// written; a failed erase leaves the session as it was.
    pub fn start_program(&mut self, firmware_data: Vec<u8>) -> (r: Result<usize, Error>)
        requires
            old(self)@.wf(),
        ensures
            final(self)@.wf(),
            old(self).trace().is_prefix_of(final(self).trace()),
            firmware_data@.len() > MAX_IMAGE ==> r == Err::<usize, Error>(
                Error::Other("firmware image exceeds the flash address space"),
            ) && final(self)@ == old(self)@ && final(self).trace() == old(self).trace(),
            firmware_data@.len() <= MAX_IMAGE ==> match exchange_result(
                IAPCommand::Erase,
                erase_frame(),
                events_since(old(self).trace(), final(self).trace()),
            ) {
                Some(Ok(())) => r == Ok::<usize, Error>(firmware_data@.len() as usize)
                    && final(self)@ == Session::started(firmware_data@),
                Some(Err(e)) => r == Err::<usize, Error>(e) && final(self)@ == old(self)@,
                None => false,
            },
    {
        let len = firmware_data.len();
        if len > MAX_IMAGE {
            return Err(Error::Other("firmware image exceeds the flash address space"));
        }
        let erase = IAPacket::bare(IAPCommand::Erase, 0);
        match self.exchange(IAPCommand::Erase, &erase) {
            Ok(()) => {},
            Err(e) => {
                return Err(e);
            },
        }
        self.firmware_data = Some(firmware_data);
        self.flash_addr = 0;
        self.state = IAPState::Programming;
        Ok(len)
    }

    /// Sends the chunk at the cursor under `cmd` and moves the cursor past it.
    fn send_chunk(&mut self, cmd: IAPCommand) -> (r: Result<u16, Error>)
        requires
            old(self)@.wf(),
            old(self)@.has_chunk(),
        ensures
            final(self)@.wf(),
            old(self).trace().is_prefix_of(final(self).trace()),
            match exchange_result(
                cmd,
                chunk_frame(cmd, old(self)@.cursor, old(self)@.chunk()),
                events_since(old(self).trace(), final(self).trace()),
            ) {
                Some(Ok(())) => final(self)@ == (Session {
                    cursor: old(self)@.chunk_end(),
                    ..old(self)@
                }) && r == Ok::<u16, Error>(old(self)@.chunk_end() as u16),
                Some(Err(e)) => r == Err::<u16, Error>(e) && final(self)@ == old(self)@,
                None => false,
            },
    {
        let start: usize = self.flash_addr as usize;
        let packet = match &self.firmware_data {
            Some(image) => {
                let end: usize = if image.len() - start >= CHUNK_SIZE {
                    start + CHUNK_SIZE
                } else {
                    image.len()
                };
                (IAPacket::chunk(cmd, image, start, end), end)
            },
            None => (IAPacket::bare(cmd, 0), start),
        };
        match self.exchange(cmd, &packet.0) {
            Ok(()) => {},
            Err(e) => {
                return Err(e);
            },
        }
        self.flash_addr = packet.1 as u16;
        Ok(self.flash_addr)
    }

    /// One step of the programming pass: sends the next chunk and gives the
    /// cursor behind it, or, with no chunk left, opens the verifying pass.
    /// Outside the programming pass nothing is sent and nothing changes.
    pub fn program(&mut self) -> (r: Result<u16, Error>)
        requires
            old(self)@.wf(),
        ensures
            final(self)@.wf(),
            final(self)@.image == old(self)@.image,
            old(self).trace().is_prefix_of(final(self).trace()),
            old(self)@.state != IAPState::Programming ==> r == Err::<u16, Error>(
                Error::Other("IAP is not in programming state"),
            ) && final(self)@ == old(self)@ && final(self).trace() == old(self).trace(),
            old(self)@.state == IAPState::Programming && old(self)@.image is None ==> r == Err::<
                u16,
                Error,
            >(Error::NoFirmwareData) && final(self)@ == old(self)@ && final(self).trace() == old(
                self,
            ).trace(),
            old(self)@.state == IAPState::Programming && old(self)@.image is Some && !old(
                self,
            )@.has_chunk() ==> r == Ok::<u16, Error>(0) && final(self)@ == old(self)@.advance()
                && final(self).trace() == old(self).trace(),
            old(self)@.state == IAPState::Programming && old(self)@.has_chunk() ==> match exchange_result(
                IAPCommand::Program,
                chunk_frame(IAPCommand::Program, old(self)@.cursor, old(self)@.chunk()),
                events_since(old(self).trace(), final(self).trace()),
            ) {
                Some(Ok(())) => final(self)@ == old(self)@.advance() && r == Ok::<u16, Error>(
                    final(self)@.cursor as u16,
                ),
                Some(Err(e)) => r == Err::<u16, Error>(e) && final(self)@ == old(self)@,
                None => false,
            },
    {
        if self.state != IAPState::Programming {
            return Err(Error::Other("IAP is not in programming state"));
        }
        let len: usize = match &self.firmware_data {
            Some(image) => image.len(),
            None => {
                return Err(Error::NoFirmwareData);
            },
        };
        if (self.flash_addr as usize) < len {
            self.send_chunk(IAPCommand::Program)
        } else {
            self.flash_addr = 0;
            self.state = IAPState::Verifying;
            Ok(self.flash_addr)
        }
    }

    /// One step of the verifying pass: sends the next chunk and gives the
    /// cursor behind it, or, with no chunk left, closes the session and
    /// writes the end command. Outside the verifying pass nothing is sent
    /// and nothing changes.
    pub fn verify(&mut self) -> (r: Result<u16, Error>)
        requires
            old(self)@.wf(),
        ensures
            final(self)@.wf(),
            final(self)@.image == old(self)@.image,
            old(self).trace().is_prefix_of(final(self).trace()),
            old(self)@.state != IAPState::Verifying ==> r == Err::<u16, Error>(
                Error::Other("IAP is not in verifying state"),
            ) && final(self)@ == old(self)@ && final(self).trace() == old(self).trace(),
            old(self)@.state == IAPState::Verifying && old(self)@.image is None ==> r == Err::<
                u16,
                Error,
            >(Error::NoFirmwareData) && final(self)@ == old(self)@ && final(self).trace() == old(
                self,
            ).trace(),
            old(self)@.state == IAPState::Verifying && old(self)@.image is Some && !old(
                self,
            )@.has_chunk() ==> final(self)@ == old(self)@.advance() && match write_result(
                end_frame(),
                events_since(old(self).trace(), final(self).trace()),
            ) {
                Some(Ok(())) => r == Ok::<u16, Error>(old(self)@.cursor as u16),
                Some(Err(e)) => r == Err::<u16, Error>(e),
                None => false,
            },
            old(self)@.state == IAPState::Verifying && old(self)@.has_chunk() ==> match exchange_result(
                IAPCommand::Verify,
                chunk_frame(IAPCommand::Verify, old(self)@.cursor, old(self)@.chunk()),
                events_since(old(self).trace(), final(self).trace()),
            ) {
                Some(Ok(())) => final(self)@ == old(self)@.advance() && r == Ok::<u16, Error>(
                    final(self)@.cursor as u16,
                ),
                Some(Err(e)) => r == Err::<u16, Error>(e) && final(self)@ == old(self)@,
                None => false,
            },
    {
        if self.state != IAPState::Verifying {
            return Err(Error::Other("IAP is not in verifying state"));
        }
        let len: usize = match &self.firmware_data {
            Some(image) => image.len(),
            None => {
                return Err(Error::NoFirmwareData);
            },
        };
        if (self.flash_addr as usize) < len {
            self.send_chunk(IAPCommand::Verify)
        } else {
            self.state = IAPState::Idle;
            match self.end() {
                Ok(()) => Ok(self.flash_addr),
                Err(e) => Err(e),
            }
        }
    }

    /// Writes the end command.
    fn end(&mut self) -> (r: Result<(), Error>)
        ensures
            final(self)@ == old(self)@,
            old(self).trace().is_prefix_of(final(self).trace()),
            write_result(end_frame(), events_since(old(self).trace(), final(self).trace()))
                == Some(r),
    {
        let packet = IAPacket::bare(IAPCommand::End, 2);
        let wire = packet.packet();
        let ghost before = self.link.trace();
        let sent = self.link.send(wire.as_slice());
        assert(events_since(before, self.link.trace()) =~= seq![
            IoEvent::Write { data: wire@, ok: sent is Ok },
        ]);
        match sent {
            Ok(()) => Ok(()),
            Err(_) => Err(Error::Disconnect),
        }
    }
}

/// Number of chunks that an image of `n` bytes is sent in.
pub open spec fn chunk_count(n: int) -> int {
    (n + CHUNK_SIZE as int - 1) / (CHUNK_SIZE as int)
}

/// Offset of the chunk with index `j` in an image of `n` bytes, or `n` past the last.
pub open spec fn chunk_offset(n: int, j: int) -> int {
    if CHUNK_SIZE as int * j <= n {
        CHUNK_SIZE as int * j
    } else {
        n
    }
}

/// Steps compose: `a + b` steps are `a` steps and then `b` more.
pub proof fn lemma_steps_add(s: Session, a: nat, b: nat)
    ensures
        s.steps(a + b) == s.steps(a).steps(b),
    decreases a,
{
    if a > 0 {
        lemma_steps_add(s.advance(), (a - 1) as nat, b);
    }
}

/// Within a pass, `j` steps from the chunk with index `i` lead to the chunk
/// with index `i + j`, as long as that many chunks are left.
pub proof fn lemma_pass_steps(image: Seq<u8>, state: IAPState, i: nat, j: nat)
    requires
        state != IAPState::Idle,
        i + j <= chunk_count(image.len() as int),
    ensures
        (Session { image: Some(image), cursor: chunk_offset(image.len() as int, i as int), state }).steps(
            j,
        ) == (Session {
            image: Some(image),
            cursor: chunk_offset(image.len() as int, (i + j) as int),
            state,
        }),
    decreases j,
{
    if j > 0 {
        lemma_pass_steps(image, state, i + 1, (j - 1) as nat);
    }
}

/// A session opened on an image of `N` bytes takes `ceil(N / 60)` steps
/// that each send a chunk before the next step opens the verifying pass,
/// as many verifying steps over the same offsets before the next step
/// closes it, and then stands idle with the cursor at `N`.
pub proof fn lemma_cycle(image: Seq<u8>)
    requires
        image.len() <= MAX_IMAGE,
    ensures
        ({
            let n = image.len() as int;
            let k = chunk_count(n) as nat;
            let opened = Session::started(image);
            &&& forall|j: nat|
                j < k ==> {
                    &&& (#[trigger] opened.steps(j)).state == IAPState::Programming
                    &&& opened.steps(j).has_chunk()
                    &&& opened.steps(j).cursor == chunk_offset(n, j as int)
                }
            &&& opened.steps(k) == (Session { cursor: n, ..opened })
            &&& opened.steps(k + 1) == (Session { state: IAPState::Verifying, ..opened })
            &&& forall|j: nat|
                j < k ==> {
                    &&& (#[trigger] opened.steps(k + 1 + j)).state == IAPState::Verifying
                    &&& opened.steps(k + 1 + j).has_chunk()
                    &&& opened.steps(k + 1 + j).cursor == chunk_offset(n, j as int)
                }
            &&& opened.steps(k + 1 + k) == (Session {
                cursor: n,
                state: IAPState::Verifying,
                ..opened
            })
            &&& opened.steps(k + 1 + k + 1) == (Session { cursor: n, state: IAPState::Idle, ..opened })
        }),
{
    let n = image.len() as int;
    let k = chunk_count(n) as nat;
    let opened = Session::started(image);
    let verifying = Session { state: IAPState::Verifying, ..opened };
    assert forall|j: nat| j < k implies {
        &&& (#[trigger] opened.steps(j)).state == IAPState::Programming
        &&& opened.steps(j).has_chunk()
        &&& opened.steps(j).cursor == chunk_offset(n, j as int)
    } by {
        lemma_pass_steps(image, IAPState::Programming, 0, j);
    }
    lemma_pass_steps(image, IAPState::Programming, 0, k);
    lemma_steps_add(opened, k, 1);
    assert(opened.steps(k).steps(1) == opened.steps(k).advance()) by {
        assert(opened.steps(k).advance().steps(0) == opened.steps(k).advance());
    }
    assert(opened.steps(k + 1) == verifying);
    assert forall|j: nat| j < k implies {
        &&& (#[trigger] opened.steps(k + 1 + j)).state == IAPState::Verifying
        &&& opened.steps(k + 1 + j).has_chunk()
        &&& opened.steps(k + 1 + j).cursor == chunk_offset(n, j as int)
    } by {
        lemma_steps_add(opened, k + 1, j);
        lemma_pass_steps(image, IAPState::Verifying, 0, j);
    }
    lemma_steps_add(opened, k + 1, k);
    lemma_pass_steps(image, IAPState::Verifying, 0, k);
    lemma_steps_add(opened, k + 1 + k, 1);
    assert(opened.steps(k + 1 + k).steps(1) == opened.steps(k + 1 + k).advance()) by {
        assert(opened.steps(k + 1 + k).advance().steps(0) == opened.steps(k + 1 + k).advance());
    }
}

/// Length of the last chunk of an image of `n` bytes.
pub open spec fn last_chunk_len(n: int) -> int {
    if n % (CHUNK_SIZE as int) == 0 {
        CHUNK_SIZE as int
    } else {
        n % (CHUNK_SIZE as int)
    }
}

/// In both passes over an image that is not empty, the last step that
/// sends a chunk sends it for the offset `N - last_chunk_len(N)`, and the
/// session that has run through both passes is idle.
pub proof fn lemma_last_chunk(image: Seq<u8>)
    requires
        1 <= image.len() <= MAX_IMAGE,
    ensures
        ({
            let n = image.len() as int;
            let k = chunk_count(n) as nat;
            let opened = Session::started(image);
            &&& k >= 1
            &&& opened.steps((k - 1) as nat).cursor == n - last_chunk_len(n)
            &&& opened.steps((k + 1 + k - 1) as nat).cursor == n - last_chunk_len(n)
            &&& opened.steps(k + 1 + k + 1).state == IAPState::Idle
        }),
{
    let n = image.len() as int;
    let k = chunk_count(n) as nat;
    let opened = Session::started(image);
    lemma_cycle(image);
    assert(opened.steps((k - 1) as nat).cursor == chunk_offset(n, k - 1));
    assert(opened.steps(k + 1 + (k - 1) as nat).cursor == chunk_offset(n, k - 1));
}

} // verus!
