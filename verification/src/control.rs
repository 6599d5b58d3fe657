//! Errors of device control and streaming, and the trait through which the register maps talk
//! to a device.

use vstd::prelude::*;

verus! {

/// An error detail for communication with a device.
#[derive(Clone, Copy, Debug, PartialEq, Eq)]
pub enum DeviceIoError {
    /// Underlying transport error.
    Transport(crate::u3v::Error),
    /// Protocol or runtime error represented as a message.
    Message(&'static str),
}

impl DeviceIoError {
    /// Constructs [`DeviceIoError::Message`].
    pub fn msg(msg: &'static str) -> (r: Self)
        ensures
            r == DeviceIoError::Message(msg),
    {
        DeviceIoError::Message(msg)
    }

    /// The text of this error: the message itself, or the text of the transport error.
    pub fn to_string(&self) -> (r: String)
        ensures
            r@ == match *self {
                DeviceIoError::Message(m) => m@,
                DeviceIoError::Transport(e) => crate::u3v::error_text(e),
            },
    {
        match self {
            DeviceIoError::Message(m) => (*m).to_owned(),
            DeviceIoError::Transport(e) => e.to_string(),
        }
    }
}

/// An error type for device control.
#[derive(Clone, Copy, Debug, PartialEq, Eq)]
pub enum ControlError {
    /// The device is busy, may be opened by another application.
    Busy,
    /// The device is disconnected from the host.
    Disconnected,
    /// IO error.
    Io(DeviceIoError),
    /// Timeout has occured when receiving stream payload.
    Timeout,
    /// The device is not opened.
    NotOpened,
    /// The device doesn't follow the specification.
    InvalidDevice(&'static str),
    /// Buffer is too small to receive data.
    BufferTooSmall,
    /// Try to write invalid data to the device, or received data from the device is
    /// semantically invalid.
    InvalidData(&'static str),
}

/// A specialized `Result` type for device control.
pub type ControlResult<T> = Result<T, ControlError>;

/// An error type related to payload streaming.
#[derive(Clone, Copy, Debug, PartialEq, Eq)]
pub enum StreamError {
    /// Failed to receive a payload.
    ReceiveError(&'static str),
    /// Failed to send a payload.
    SendError(&'static str),
    /// Payload leader is invalid.
    InvalidPayload(&'static str),
    /// The device is disconnected from the host.
    Disconnected,
    /// IO error.
    Io(DeviceIoError),
    /// Timeout has occured when receiving stream payload.
    Timeout,
    /// A panic has occurred in streaming loop.
    Poisoned(&'static str),
    /// Buffer is too small to receive data.
    BufferTooSmall,
    /// Streaming is already started.
    InStreaming,
}

/// A specialized `Result` type for streaming.
pub type StreamResult<T> = Result<T, StreamError>;

/// Information of the camera.
#[derive(Clone, Debug, PartialEq, Eq, Hash)]
pub struct CameraInfo {
    /// Vendor name of the camera.
    pub vendor_name: String,
    /// Model name of the camera.
    pub model_name: String,
    /// Serial number of the camera.
    pub serial_number: String,
}

/// One access to the memory of a device, with what the device answered.
pub enum DeviceAccess {
    /// A read of `len` bytes at `address`; the answer holds the bytes read.
    Read { address: u64, len: nat, answer: Result<Seq<u8>, ControlError> },
    /// A write of `data` at `address`.
    Write { address: u64, data: Seq<u8>, answer: Result<(), ControlError> },
    /// A read of the 4 byte register at `address`.
    ReadReg { address: u64, answer: Result<u32, ControlError> },
    /// A write of `data` to the 4 byte register at `address`.
    WriteReg { address: u64, data: u32, answer: Result<(), ControlError> },
}

/// The accesses made through a device handle, in order.
pub type AccessLog = Seq<DeviceAccess>;

/// The byte at `addr` as the writes among the first `j` accesses of `log` left it: the byte
/// of the latest of them that succeeded and covers `addr`; `None` where none does.
pub open spec fn memory_byte(log: AccessLog, j: int, addr: int) -> Option<u8>
    decreases j,
{
    if j <= 0 {
        None
    } else {
        match log[j - 1] {
            DeviceAccess::Write { address, data, answer: Ok(_) } if address <= addr < address
                + data.len() => Some(data[addr - address]),
            _ => memory_byte(log, j - 1, addr),
        }
    }
}

/// The byte at `k` of the read at `j` of `log`, when that read succeeded, is the byte that the
/// earlier writes left at its address (where they left one).
pub open spec fn read_agrees(log: AccessLog, j: int, k: int) -> bool {
    match log[j] {
        DeviceAccess::Read { address, answer: Ok(d), .. } => 0 <= k < d.len() ==> match memory_byte(
            log,
            j,
            address + k,
        ) {
            Some(b) => d[k] == b,
            None => true,
        },
        _ => true,
    }
}

/// The device answered every read in `log` as a byte memory would: each byte read is the byte
/// last written there, bytes never written being whatever the device held from the start.
pub open spec fn behaves_as_memory(log: AccessLog) -> bool {
    forall|j: int, k: int| 0 <= j < log.len() ==> #[trigger] read_agrees(log, j, k)
}

/// `g` holds the accesses of `l` first.
pub open spec fn extends(g: AccessLog, l: AccessLog) -> bool {
    &&& g.len() >= l.len()
    &&& forall|j: int| 0 <= j < l.len() ==> #[trigger] g[j] == l[j]
}

/// The answer to the read that ends `log`.
pub open spec fn read_answer(log: Seq<DeviceAccess>) -> Result<Seq<u8>, ControlError> {
    match log.last() {
        DeviceAccess::Read { answer, .. } => answer,
        _ => Err(ControlError::Timeout),
    }
}

/// The answer to the register read that ends `log`.
pub open spec fn reg_answer(log: Seq<DeviceAccess>) -> Result<u32, ControlError> {
    match log.last() {
        DeviceAccess::ReadReg { answer, .. } => answer,
        _ => Err(ControlError::Timeout),
    }
}

/// `new_log` is `old_log` followed by one read of `len` bytes at `address`, whose bytes, when
/// it succeeded, are `len` many.
pub open spec fn read_logged(
    old_log: Seq<DeviceAccess>,
    new_log: Seq<DeviceAccess>,
    address: u64,
    len: nat,
) -> bool {
    &&& new_log == old_log.push(DeviceAccess::Read { address, len, answer: read_answer(new_log) })
    &&& read_answer(new_log) matches Ok(d) ==> d.len() == len
}

/// `new_log` is `old_log` followed by one read of the register at `address`.
pub open spec fn reg_read_logged(
    old_log: Seq<DeviceAccess>,
    new_log: Seq<DeviceAccess>,
    address: u64,
) -> bool {
    new_log == old_log.push(DeviceAccess::ReadReg { address, answer: reg_answer(new_log) })
}

/// The access at `i` of `log` is a read of `len` bytes at `address`, whose bytes, when it
/// succeeded, are `len` many.
pub open spec fn read_at(log: Seq<DeviceAccess>, i: int, address: u64, len: nat) -> bool {
    &&& 0 <= i < log.len()
    &&& log[i] matches DeviceAccess::Read { address: a, len: l, answer } && a == address && l
        == len && (answer matches Ok(d) ==> d.len() == len)
}

/// The answer to the read at `i` of `log`.
pub open spec fn answer_at(log: Seq<DeviceAccess>, i: int) -> Result<Seq<u8>, ControlError> {
    match log[i] {
        DeviceAccess::Read { answer, .. } => answer,
        _ => Err(ControlError::Timeout),
    }
}

/// What making the writes of `writes` (address and bytes) in order gives, from the access at
/// `start` of `log` on, stopping at the first that fails: that write's error, else `Ok`.
/// `None` when the accesses from `start` on are not exactly those writes.
pub open spec fn writes_from(
    log: Seq<DeviceAccess>,
    start: int,
    writes: Seq<(u64, Seq<u8>)>,
) -> Option<ControlResult<()>> {
    writes_from_index(log, start, writes, 0)
}

/// What the writes of `writes` from index `j` on give, the first of them at `start + j` of
/// `log`, as [`writes_from`] describes.
pub open spec fn writes_from_index(
    log: Seq<DeviceAccess>,
    start: int,
    writes: Seq<(u64, Seq<u8>)>,
    j: int,
) -> Option<ControlResult<()>>
    decreases writes.len() - j,
{
    if j >= writes.len() || j < 0 {
        if log.len() == start + j {
            Some(Ok(()))
        } else {
            None
        }
    } else if 0 <= start + j < log.len() {
        match log[start + j] {
            DeviceAccess::Write { address, data, answer } => if address == writes[j].0 && data
                == writes[j].1 {
                match answer {
                    Err(e) => if log.len() == start + j + 1 {
                        Some(Err(e))
                    } else {
                        None
                    },
                    Ok(_) => if j + 1 == writes.len() {
                        if log.len() == start + j + 1 {
                            Some(answer)
                        } else {
                            None
                        }
                    } else {
                        writes_from_index(log, start, writes, j + 1)
                    },
                }
            } else {
                None
            },
            _ => None,
        }
    } else {
        None
    }
}

/// An answer with `f` applied to what succeeded.
pub open spec fn map_answer<A, B>(a: Result<A, ControlError>, f: spec_fn(A) -> B) -> Result<
    B,
    ControlError,
> {
    match a {
        Ok(v) => Ok(f(v)),
        Err(e) => Err(e),
    }
}

/// Operations on the device's memory. Every read and write is one access of
/// [`DeviceControl::accesses`], with the device's answer.
pub trait DeviceControl {
    /// The reads and writes made through the handle so far, in order.
    spec fn accesses(&self) -> AccessLog;

    /// Opens the handle.
    fn open(&mut self) -> ControlResult<()>;

    /// Closes the handle.
    fn close(&mut self) -> ControlResult<()>;

    /// Returns `true` if device is already opened.
    fn is_opened(&self) -> bool;

    /// Reads `buf.len()` bytes of the device's memory at `address` into `buf`; the slice keeps
    /// its length.
    fn read(&mut self, address: u64, buf: &mut [u8]) -> (r: ControlResult<()>)
        ensures
            final(buf)@.len() == old(buf)@.len(),
            final(self).accesses() == old(self).accesses().push(
                DeviceAccess::Read {
                    address,
                    len: old(buf)@.len(),
                    answer: match r {
                        Ok(_) => Ok(final(buf)@),
                        Err(e) => Err(e),
                    },
                },
            ),
    ;

    /// Reads 4 bytes data from the address.
    fn read_reg(&mut self, address: u64) -> (r: ControlResult<u32>)
        ensures
            final(self).accesses() == old(self).accesses().push(
                DeviceAccess::ReadReg { address, answer: r },
            ),
    ;

    /// Writes data to the device's memory.
    fn write(&mut self, address: u64, data: &[u8]) -> (r: ControlResult<()>)
        ensures
            final(self).accesses() == old(self).accesses().push(
                DeviceAccess::Write { address, data: data@, answer: r },
            ),
    ;

    /// Writes 4 bytes data to the address.
    fn write_reg(&mut self, address: u64, data: u32) -> (r: ControlResult<()>)
        ensures
            final(self).accesses() == old(self).accesses().push(
                DeviceAccess::WriteReg { address, data, answer: r },
            ),
    ;

    /// Returns the `GenICam` XML.
    fn genapi(&mut self) -> ControlResult<String>;

    /// Enables streaming.
    fn enable_streaming(&mut self) -> ControlResult<()>;

    /// Disables streaming.
    fn disable_streaming(&mut self) -> ControlResult<()>;
}

} // verus!
