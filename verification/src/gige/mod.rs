//! `GigE Vision` protocol: the `GVCP` control packets, the `GVSP` stream packet headers and the
//! bootstrap register layout.

pub mod ack;
pub mod cmd;
pub mod register_map;
pub mod stream;

use vstd::prelude::*;

use crate::bytes::{Cursor, IoError};

verus! {

/// The default UDP port of `GVCP`.
pub const GVCP_DEFAULT_PORT: u16 = 3956;

/// Errors of the `GigE` protocol layer.
#[derive(Clone, Copy, Debug)]
pub enum Error {
    /// The packet ended before a field could be read.
    Io(IoError),
    /// The packet is broken.
    InvalidPacket(&'static str),
    /// The packet holds invalid data.
    InvalidData(&'static str),
}

/// Kind of the status code of a `GVCP` acknowledge or `GVSP` packet.
#[derive(Clone, Copy, Debug, PartialEq, Eq, Structural)]
pub enum StatusKind {
    Success,
    PacketResend,
    NotImplemented,
    InvalidParameter,
    InvalidAdderess,
    WriteProtect,
    BadAlignment,
    AccessDenied,
    Busy,
    LocalProblem,
    MessageMismatch,
    InvalidProtocol,
    NoMessage,
    PacketUnavailable,
    DataOverrun,
    InvalidHeader,
    WrongConfig,
    NotYetAvailable,
    CurrentAndPrevPacketRemoved,
    CurrentPacketRemoved,
    NoReferenceTime,
    TemporarilyUnavailable,
    Overflow,
    ActionLate,
    GenericError,
}

/// The status kind that the `GigE Vision` specification assigns to `code`, if any.
pub open spec fn status_kind_of(code: u16) -> Option<StatusKind> {
    if code == 0x0000 {
        Some(StatusKind::Success)
    } else if code == 0x0100 {
        Some(StatusKind::PacketResend)
    } else if code == 0x8001 {
        Some(StatusKind::NotImplemented)
    } else if code == 0x8002 {
        Some(StatusKind::InvalidParameter)
    } else if code == 0x8003 {
        Some(StatusKind::InvalidAdderess)
    } else if code == 0x8004 {
        Some(StatusKind::WriteProtect)
    } else if code == 0x8005 {
        Some(StatusKind::BadAlignment)
    } else if code == 0x8006 {
        Some(StatusKind::AccessDenied)
    } else if code == 0x8007 {
        Some(StatusKind::Busy)
    } else if code == 0x8008 {
        Some(StatusKind::LocalProblem)
    } else if code == 0x8009 {
        Some(StatusKind::MessageMismatch)
    } else if code == 0x800a {
        Some(StatusKind::InvalidProtocol)
    } else if code == 0x800b {
        Some(StatusKind::NoMessage)
    } else if code == 0x800c {
        Some(StatusKind::PacketUnavailable)
    } else if code == 0x800d {
        Some(StatusKind::DataOverrun)
    } else if code == 0x800e {
        Some(StatusKind::InvalidHeader)
    } else if code == 0x800f {
        Some(StatusKind::WrongConfig)
    } else if code == 0x8010 {
        Some(StatusKind::NotYetAvailable)
    } else if code == 0x8011 {
        Some(StatusKind::CurrentAndPrevPacketRemoved)
    } else if code == 0x8012 {
        Some(StatusKind::CurrentPacketRemoved)
    } else if code == 0x8013 {
        Some(StatusKind::NoReferenceTime)
    } else if code == 0x8014 {
        Some(StatusKind::TemporarilyUnavailable)
    } else if code == 0x8015 {
        Some(StatusKind::Overflow)
    } else if code == 0x8016 {
        Some(StatusKind::ActionLate)
    } else if code == 0x8fff {
        Some(StatusKind::GenericError)
    } else {
        None
    }
}

/// Of the status codes, exactly `0x0000` and `0x0100` count as success; the `GigE Vision`
/// error codes, which have the top bit set, never do. Some codes of the table: `0x8001` not
/// implemented, `0x8003` invalid address, `0x8007` busy, `0x8fff` generic error.
pub proof fn lemma_status_success(code: u16)
    ensures
        (status_kind_of(code) matches Some(k) && is_success_kind(k)) <==> (code == 0 || code == 0x100),
        code >= 0x8000 && status_kind_of(code) is Some ==> !is_success_kind(status_kind_of(code)->Some_0),
        status_kind_of(0x0000) == Some(StatusKind::Success),
        status_kind_of(0x0100) == Some(StatusKind::PacketResend),
        status_kind_of(0x8001) == Some(StatusKind::NotImplemented),
        status_kind_of(0x8002) == Some(StatusKind::InvalidParameter),
        status_kind_of(0x8003) == Some(StatusKind::InvalidAdderess),
        status_kind_of(0x8006) == Some(StatusKind::AccessDenied),
        status_kind_of(0x8007) == Some(StatusKind::Busy),
        status_kind_of(0x8fff) == Some(StatusKind::GenericError),
{
}

/// A status kind counts as success when it is `Success` or `PacketResend`.
pub open spec fn is_success_kind(kind: StatusKind) -> bool {
    kind == StatusKind::Success || kind == StatusKind::PacketResend
}

impl StatusKind {
    /// Decodes a status code.
    pub fn from_code(code: u16) -> (r: Option<StatusKind>)
        ensures
            r == status_kind_of(code),
    {
        match code {
            0x0000 => Some(StatusKind::Success),
            0x0100 => Some(StatusKind::PacketResend),
            0x8001 => Some(StatusKind::NotImplemented),
            0x8002 => Some(StatusKind::InvalidParameter),
            0x8003 => Some(StatusKind::InvalidAdderess),
            0x8004 => Some(StatusKind::WriteProtect),
            0x8005 => Some(StatusKind::BadAlignment),
            0x8006 => Some(StatusKind::AccessDenied),
            0x8007 => Some(StatusKind::Busy),
            0x8008 => Some(StatusKind::LocalProblem),
            0x8009 => Some(StatusKind::MessageMismatch),
            0x800a => Some(StatusKind::InvalidProtocol),
            0x800b => Some(StatusKind::NoMessage),
            0x800c => Some(StatusKind::PacketUnavailable),
            0x800d => Some(StatusKind::DataOverrun),
            0x800e => Some(StatusKind::InvalidHeader),
            0x800f => Some(StatusKind::WrongConfig),
            0x8010 => Some(StatusKind::NotYetAvailable),
            0x8011 => Some(StatusKind::CurrentAndPrevPacketRemoved),
            0x8012 => Some(StatusKind::CurrentPacketRemoved),
            0x8013 => Some(StatusKind::NoReferenceTime),
            0x8014 => Some(StatusKind::TemporarilyUnavailable),
            0x8015 => Some(StatusKind::Overflow),
            0x8016 => Some(StatusKind::ActionLate),
            0x8fff => Some(StatusKind::GenericError),
            _ => None,
        }
    }

    /// Returns `true` for `Success` and `PacketResend`.
    pub fn is_success(self) -> (r: bool)
        ensures
            r == is_success_kind(self),
    {
        match self {
            StatusKind::Success | StatusKind::PacketResend => true,
            _ => false,
        }
    }
}

/// Reads a big endian status code and decodes it: `Io` when fewer than two bytes remain,
/// `InvalidPacket` when the code is unknown.
pub fn parse_status_code(cursor: &mut Cursor) -> (r: Result<(u16, StatusKind), Error>)
    ensures
        final(cursor).data() == old(cursor).data(),
        !old(cursor).can_read(2) ==> r == Err::<(u16, StatusKind), Error>(
            Error::Io(IoError::UnexpectedEof),
        ),
        old(cursor).can_read(2) ==> {
            let code = crate::bytes::be16(old(cursor).ahead(2));
            &&& final(cursor).pos() == old(cursor).pos() + 2
            &&& match status_kind_of(code) {
                Some(kind) => r == Ok::<(u16, StatusKind), Error>((code, kind)),
                None => r matches Err(Error::InvalidPacket(_)),
            }
        },
{
    let code = match cursor.read_be16() {
        Ok(c) => c,
        Err(e) => return Err(Error::Io(e)),
    };
    match StatusKind::from_code(code) {
        Some(kind) => Ok((code, kind)),
        None => Err(Error::InvalidPacket("invalid gige ack status code")),
    }
}

/// Status of a `GVSP` packet.
#[derive(Clone, Copy, Debug, PartialEq, Eq, Structural)]
pub struct PacketStatus {
    code: u16,
    kind: StatusKind,
}

impl PacketStatus {
    /// The status code.
    pub closed spec fn spec_code(self) -> u16 {
        self.code
    }

    /// The status kind.
    pub closed spec fn spec_kind(self) -> StatusKind {
        self.kind
    }

    /// Returns `true` if the status means success.
    pub fn is_success(self) -> (r: bool)
        ensures
            r == is_success_kind(self.spec_kind()),
    {
        self.kind.is_success()
    }

    /// Raw status code.
    pub fn code(self) -> (r: u16)
        ensures
            r == self.spec_code(),
    {
        self.code
    }

    /// Status kind.
    pub fn kind(self) -> (r: StatusKind)
        ensures
            r == self.spec_kind(),
    {
        self.kind
    }

    /// Parses a big endian status code at the cursor.
    pub fn parse(cursor: &mut Cursor) -> (r: Result<Self, Error>)
        ensures
            final(cursor).data() == old(cursor).data(),
            !old(cursor).can_read(2) ==> r == Err::<Self, Error>(
                Error::Io(IoError::UnexpectedEof),
            ),
            old(cursor).can_read(2) ==> {
                let code = crate::bytes::be16(old(cursor).ahead(2));
                &&& final(cursor).pos() == old(cursor).pos() + 2
                &&& match status_kind_of(code) {
                    Some(kind) => r matches Ok(s) && s.spec_code() == code && s.spec_kind()
                        == kind,
                    None => r matches Err(Error::InvalidPacket(_)),
                }
            },
    {
        let (code, kind) = parse_status_code(cursor)?;
        Ok(PacketStatus { code, kind })
    }
}

} // verus!
