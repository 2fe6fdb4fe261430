//! The transport under both protocols, and a record of what passed over it.

use crate::error::Error;
use vstd::prelude::*;

verus! {

/// A HID device as the protocols use it. Implementations live with the
/// caller; nothing is assumed of what their methods return.
pub trait Device {
    /// The serial number of the device.
    fn get_serial(&self) -> Result<String, Error>;

    /// Writes one report, selector byte first, and gives the number of bytes written.
    fn write(&self, data: &[u8]) -> Result<usize, Error>;

    /// Reads one report into `buf` and gives the number of bytes read.
    fn read(&self, buf: &mut [u8]) -> Result<usize, Error>;

    /// Reads one report into `buf`, waiting at most `timeout` milliseconds;
    /// gives 0 when none arrived.
    fn read_timeout(&self, buf: &mut [u8], timeout: i32) -> Result<usize, Error>;
}

/// How one read ended.
pub ghost enum ReadOutcome {
    /// Bytes arrived; the buffer after the call.
    Report(Seq<u8>),
    /// The call returned without any byte.
    Nothing,
    /// The call failed.
    Failed,
}

/// One write or read on the device and how it ended.
pub ghost enum IoEvent {
    /// A write of these bytes, and whether the device accepted it.
    Write { data: Seq<u8>, ok: bool },
    /// A read with this bound on the wait (`None`: unbounded).
    Read { wait: Option<i32>, outcome: ReadOutcome },
}

/// What a read hands to the protocol for each way it can end.
pub open spec fn read_outcome<const N: usize>(r: Result<[u8; N], Error>) -> ReadOutcome {
    match r {
        Ok(buf) => ReadOutcome::Report(buf@),
        Err(Error::Timeout) => ReadOutcome::Nothing,
        Err(_) => ReadOutcome::Failed,
    }
}

/// What a read gives, for what the device returned and the buffer as the
/// call left it: the buffer if any byte arrived, a timeout if none did, and
/// a disconnect if the call failed.
pub fn read_result<const N: usize>(got: Result<usize, Error>, buf: [u8; N]) -> (r: Result<
    [u8; N],
    Error,
>)
    ensures
        r == (match got {
            Ok(n) => if n == 0 {
                Err::<[u8; N], Error>(Error::Timeout)
            } else {
                Ok::<[u8; N], Error>(buf)
            },
            Err(_) => Err::<[u8; N], Error>(Error::Disconnect),
        }),
{
    match got {
        Ok(n) => if n == 0 {
            Err(Error::Timeout)
        } else {
            Ok(buf)
        },
        Err(_) => Err(Error::Disconnect),
    }
}

/// The events that `after` holds beyond `before`.
pub open spec fn events_since(before: Seq<IoEvent>, after: Seq<IoEvent>) -> Seq<IoEvent> {
    after.skip(before.len() as int)
}

/// A device together with the record of every report written to it and read from it.
pub struct Transport<D: Device> {
    device: D,
    trace: Ghost<Seq<IoEvent>>,
}

impl<D: Device> Transport<D> {
    /// Every write and read made on the device so far, oldest first.
    pub closed spec fn trace(&self) -> Seq<IoEvent> {
        self.trace@
    }

    pub fn new(device: D) -> (t: Self)
        ensures
            t.trace() == Seq::<IoEvent>::empty(),
    {
        Transport { device, trace: Ghost(Seq::empty()) }
    }

    /// Writes one report. Any failure of the device is a disconnect.
    pub fn send(&mut self, data: &[u8]) -> (r: Result<(), Error>)
        ensures
            final(self).trace() == old(self).trace().push(
                IoEvent::Write { data: data@, ok: r is Ok },
            ),
            r is Err ==> r == Err::<(), Error>(Error::Disconnect),
    {
        let r = match self.device.write(data) {
            Ok(_) => Ok(()),
            Err(_) => Err(Error::Disconnect),
        };
        proof {
            self.trace@ = self.trace@.push(IoEvent::Write { data: data@, ok: r is Ok });
        }
        r
    }

    /// Reads one 64-byte report, waiting at most `wait` milliseconds if a
    /// bound is given. A read without any byte is a timeout, any failure of
    /// the device a disconnect.
    pub fn receive(&mut self, wait: Option<i32>) -> (r: Result<[u8; 64], Error>)
        ensures
            final(self).trace() == old(self).trace().push(
                IoEvent::Read { wait, outcome: read_outcome(r) },
            ),
            r is Err ==> r == Err::<[u8; 64], Error>(Error::Timeout) || r == Err::<
                [u8; 64],
                Error,
            >(Error::Disconnect),
    {
        let mut buf = [0u8; 64];
        let got = match wait {
            Some(timeout) => self.device.read_timeout(&mut buf, timeout),
            None => self.device.read(&mut buf),
        };
        let r = read_result(got, buf);
        proof {
            self.trace@ = self.trace@.push(IoEvent::Read { wait, outcome: read_outcome(r) });
        }
        r
    }

    /// Reads the two status bytes that answer a programming command.
    pub fn receive_status(&mut self) -> (r: Result<[u8; 2], Error>)
        ensures
            final(self).trace() == old(self).trace().push(
                IoEvent::Read { wait: None, outcome: read_outcome(r) },
            ),
            r is Err ==> r == Err::<[u8; 2], Error>(Error::Timeout) || r == Err::<[u8; 2], Error>(
                Error::Disconnect,
            ),
    {
        let mut buf = [0u8; 2];
        let got = self.device.read(&mut buf);
        let r = read_result(got, buf);
        proof {
            self.trace@ = self.trace@.push(
                IoEvent::Read { wait: None, outcome: read_outcome(r) },
            );
        }
        r
    }

    /// Asks the device for its serial number. Like every other call on the
    /// transport, a failure of the device is a disconnect; the record of
    /// reports written and read is left as it is.
    pub fn serial(&self) -> (r: Result<String, Error>)
        ensures
            r is Err ==> r == Err::<String, Error>(Error::Disconnect),
    {
        match self.device.get_serial() {
            Ok(serial) => Ok(serial),
            Err(_) => Err(Error::Disconnect),
        }
    }
}

} // verus!
