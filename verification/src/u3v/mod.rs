//! `USB3 Vision` protocol: event packets and the register layout of the device side.

pub mod descriptors;
pub mod event;
pub mod register_map;

use vstd::prelude::*;

use crate::bytes::{io_error_text, IoError};

verus! {

/// Errors of the `USB3 Vision` protocol layer.
#[derive(Clone, Copy, Debug, PartialEq, Eq)]
pub enum Error {
    /// A USB operation failed.
    Usb(UsbError),
    /// The packet is broken.
    InvalidPacket(&'static str),
    /// Reading the packet buffer failed.
    BufferIo(IoError),
    /// The device doesn't follow the specification.
    InvalidDevice,
}

/// `a` and `b` are the same error, the messages of `InvalidPacket` aside.
pub open spec fn same_error(a: Error, b: Error) -> bool {
    match (a, b) {
        (Error::InvalidPacket(_), Error::InvalidPacket(_)) => true,
        _ => a == b,
    }
}

/// `r` is the outcome `expected`, the messages of `InvalidPacket` aside.
pub open spec fn same_outcome<T>(r: Result<T, Error>, expected: Result<T, Error>) -> bool {
    match (r, expected) {
        (Ok(a), Ok(b)) => a == b,
        (Err(a), Err(b)) => same_error(a, b),
        _ => false,
    }
}

/// Speed of the USB bus.
#[derive(Clone, Copy, Debug, PartialEq, Eq, Structural)]
pub enum BusSpeed {
    LowSpeed,
    FullSpeed,
    HighSpeed,
    SuperSpeed,
    SuperSpeedPlus,
}

/// Errors raised from USB operations.
#[derive(Clone, Copy, Debug, PartialEq, Eq, Structural)]
pub enum UsbError {
    Cancelled,
    Stall,
    Disconnected,
    Fault,
    InvalidParam,
    PermissionDenied,
    NotFound,
    Busy,
    Timeout,
    NotSupported,
    Other,
}

/// The message of a [`UsbError`].
pub open spec fn usb_error_text(e: UsbError) -> &'static str {
    match e {
        UsbError::Cancelled => "transfer cancelled",
        UsbError::Stall => "endpoint stalled",
        UsbError::Disconnected => "device disconnected",
        UsbError::Fault => "hardware fault or protocol violation",
        UsbError::InvalidParam => "invalid parameter",
        UsbError::PermissionDenied => "permission denied",
        UsbError::NotFound => "entity not found",
        UsbError::Busy => "resource busy",
        UsbError::Timeout => "operation timed out",
        UsbError::NotSupported => "operation not supported or unimplemented on this platform",
        UsbError::Other => "other error",
    }
}

impl UsbError {
    /// The message of this error.
    pub fn message(&self) -> (r: &'static str)
        ensures
            r == usb_error_text(*self),
    {
        match self {
            UsbError::Cancelled => "transfer cancelled",
            UsbError::Stall => "endpoint stalled",
            UsbError::Disconnected => "device disconnected",
            UsbError::Fault => "hardware fault or protocol violation",
            UsbError::InvalidParam => "invalid parameter",
            UsbError::PermissionDenied => "permission denied",
            UsbError::NotFound => "entity not found",
            UsbError::Busy => "resource busy",
            UsbError::Timeout => "operation timed out",
            UsbError::NotSupported => "operation not supported or unimplemented on this platform",
            UsbError::Other => "other error",
        }
    }
}

/// The text of an [`Error`]: a prefix naming the kind of failure, then the detail.
pub open spec fn error_text(e: Error) -> Seq<char> {
    match e {
        Error::Usb(u) => "usb error: "@ + usb_error_text(u)@,
        Error::InvalidPacket(m) => "packet is broken: "@ + m@,
        Error::BufferIo(io) => "buffer io error: "@ + io_error_text(io)@,
        Error::InvalidDevice => "device doesn't follow the specification"@,
    }
}

impl Error {
    /// The text of this error.
    pub fn to_string(&self) -> (r: String)
        ensures
            r@ == error_text(*self),
    {
        match self {
            Error::Usb(u) => "usb error: ".to_owned().concat(u.message()),
            Error::InvalidPacket(m) => "packet is broken: ".to_owned().concat(*m),
            Error::BufferIo(io) => "buffer io error: ".to_owned().concat(io.message()),
            Error::InvalidDevice => "device doesn't follow the specification".to_owned(),
        }
    }
}

/// The length of a bulk transfer that receives `len` bytes (at least one) in whole packets of
/// `packet_size` bytes: the length rounded up to a multiple of the packet size; with a packet
/// size of zero, the length itself.
pub fn align_to_packet(len: usize, packet_size: usize) -> (r: usize)
    requires
        packet_size > 0 ==> (if len == 0 { 1 } else { len }) + packet_size - 1 <= usize::MAX,
    ensures
        ({
            let l = if len == 0 { 1int } else { len as int };
            &&& packet_size == 0 ==> r == l
            &&& packet_size > 0 ==> r == (l + packet_size - 1) / (packet_size as int) * (packet_size as int)
            &&& packet_size > 0 ==> (r as int) % (packet_size as int) == 0 && l <= r < l + packet_size
        }),
{
    let len: usize = if len == 0 {
        1
    } else {
        len
    };
    if packet_size == 0 {
        return len;
    }
    let packets = (len - 1 + packet_size) / packet_size;
    assert(packets * packet_size <= len + packet_size - 1 && len <= packets * packet_size
        && (packets * packet_size) as int % (packet_size as int) == 0) by (nonlinear_arith)
        requires
            packets == (len + packet_size - 1) / (packet_size as int),
            packet_size > 0,
            len >= 1,
    ;
    packets * packet_size
}

} // verus!
