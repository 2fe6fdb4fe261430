//! The fixed-size command frame of the programming protocol.

use vstd::prelude::*;
use vstd::std_specs::convert::FromSpecImpl;

verus! {

/// Bytes of chunk data that one command frame carries.
pub const CHUNK_SIZE: usize = 60;

/// The operations of the programming protocol.
#[derive(Debug, Copy, Clone, PartialEq, Eq, Structural)]
pub enum IAPCommand {
    Erase,
    Program,
    Verify,
    End,
}

impl IAPCommand {
    /// The opcode on the wire: consecutive values from `0x80`.
    pub open spec fn opcode(self) -> u8 {
        match self {
            IAPCommand::Erase => 0x80,
            IAPCommand::Program => 0x81,
            IAPCommand::Verify => 0x82,
            IAPCommand::End => 0x83,
        }
    }

    pub fn code(self) -> (r: u8)
        ensures
            r == self.opcode(),
    {
        match self {
            IAPCommand::Erase => 0x80,
            IAPCommand::Program => 0x81,
            IAPCommand::Verify => 0x82,
            IAPCommand::End => 0x83,
        }
    }
}

impl From<IAPCommand> for u8 {
    fn from(value: IAPCommand) -> (r: u8) {
        value.code()
    }
}

impl FromSpecImpl<IAPCommand> for u8 {
    open spec fn obeys_from_spec() -> bool {
        true
    }

    open spec fn from_spec(value: IAPCommand) -> u8 {
        value.opcode()
    }
}

/// One command of the programming protocol.
#[derive(Debug, Copy, Clone)]
pub struct IAPacket {
    pub cmd: IAPCommand,
    pub len: u8,
    pub addr: [u8; 2],
    pub buf: [u8; 60],
}

/// The 64 bytes of a command frame: opcode, data length, address, data.
pub open spec fn command_frame(cmd: IAPCommand, len: u8, addr: Seq<u8>, buf: Seq<u8>) -> Seq<u8> {
    seq![cmd.opcode(), len, addr[0], addr[1]] + buf
}

/// The two bytes of a flash address, low byte first.
pub open spec fn address_le(addr: int) -> Seq<u8> {
    seq![(addr % 256) as u8, ((addr / 256) % 256) as u8]
}

/// The `CHUNK_SIZE` data bytes of a frame that carries `chunk`: the chunk, then zeros.
pub open spec fn padded(chunk: Seq<u8>) -> Seq<u8> {
    Seq::new(
        CHUNK_SIZE as nat,
        |i: int|
            if i < chunk.len() {
                chunk[i]
            } else {
                0u8
            },
    )
}

/// The frame that carries `chunk` for flash address `addr` under `cmd`.
pub open spec fn chunk_frame(cmd: IAPCommand, addr: int, chunk: Seq<u8>) -> Seq<u8> {
    command_frame(cmd, chunk.len() as u8, address_le(addr), padded(chunk))
}

impl IAPacket {
    /// The 64 bytes of the command frame.
    pub open spec fn frame(self) -> Seq<u8> {
        command_frame(self.cmd, self.len, self.addr@, self.buf@)
    }

    /// What is written to the device: the report selector, then the frame.
    pub fn packet(&self) -> (out: [u8; 65])
        ensures
            out@ == seq![0u8] + self.frame(),
    {
        let mut out = [0u8; 65];
        out[1] = self.cmd.code();
        out[2] = self.len;
        out[3] = self.addr[0];
        out[4] = self.addr[1];
        let mut i: usize = 0;
        while i < CHUNK_SIZE
            invariant
                i <= CHUNK_SIZE,
                out@[0] == 0,
                out@[1] == self.cmd.opcode(),
                out@[2] == self.len,
                out@[3] == self.addr@[0],
                out@[4] == self.addr@[1],
                forall|j: int| 0 <= j < i ==> out@[5 + j] == self.buf@[j],
            decreases CHUNK_SIZE - i,
        {
            out[5 + i] = self.buf[i];
            i += 1;
        }
        assert(out@ =~= seq![0u8] + self.frame());
        out
    }

    /// A command without data.
    pub fn bare(cmd: IAPCommand, len: u8) -> (p: IAPacket)
        ensures
            p.frame() == command_frame(cmd, len, seq![0u8, 0u8], padded(Seq::<u8>::empty())),
    {
        let p = IAPacket { cmd, len, addr: [0u8; 2], buf: [0u8; 60] };
        assert(p.addr@ =~= seq![0u8, 0u8]);
        assert(p.buf@ =~= padded(Seq::<u8>::empty()));
        p
    }

    /// The command that carries the bytes of `image` from `start` up to
    /// `end` for the flash address `start`.
    pub fn chunk(cmd: IAPCommand, image: &Vec<u8>, start: usize, end: usize) -> (p: IAPacket)
        requires
            start <= end <= image@.len(),
            end - start <= CHUNK_SIZE,
            start <= u16::MAX,
        ensures
            p.frame() == chunk_frame(cmd, start as int, image@.subrange(start as int, end as int)),
    {
        let mut buf = [0u8; 60];
        let n: usize = end - start;
        let mut i: usize = 0;
        while i < n
            invariant
                i <= n,
                n == end - start,
                n <= CHUNK_SIZE,
                end <= image@.len(),
                forall|j: int| 0 <= j < i ==> buf@[j] == image@[start + j],
                forall|j: int| i <= j < CHUNK_SIZE ==> buf@[j] == 0,
            decreases n - i,
        {
            buf[i] = image[start + i];
            i += 1;
        }
        let p = IAPacket {
            cmd,
            len: n as u8,
            addr: [(start % 256) as u8, (start / 256) as u8],
            buf,
        };
        assert(p.addr@ =~= address_le(start as int));
        assert(p.buf@ =~= padded(image@.subrange(start as int, end as int)));
        p
    }
}

} // verus!
