//! The decisions of a `GigE` control transaction: how the host checks each acknowledge it
//! receives, waits on `Pending` acknowledges, and moves to the next request id.

use vstd::prelude::*;

use crate::bytes::{be16, IoError};
use crate::control::{ControlError, DeviceIoError};
use crate::gige::ack::{ack_kind_of, header_valid, AckKind, AckPacket, Pending, ParseAckData};
use crate::gige::{is_success_kind, status_kind_of, Error};

verus! {

/// How a host opens the control channel of a `GigE` device.
#[derive(Clone, Copy, Debug, PartialEq, Eq, Structural)]
pub enum OpenMode {
    /// No other host may control or monitor the device.
    Exclusive,
    /// No other host may control the device.
    Control,
    /// The host only reads the device.
    MonitorAccess,
}

impl Default for OpenMode {
    /// Exclusive access.
    fn default() -> (r: Self)
        ensures
            r == OpenMode::Exclusive,
    {
        OpenMode::Exclusive
    }
}

/// The control error that a protocol error becomes.
pub open spec fn control_error_of(err: Error) -> ControlError {
    match err {
        Error::Io(_) => ControlError::Io(DeviceIoError::Message("gige io error")),
        Error::InvalidPacket(msg) => ControlError::InvalidData(msg),
        Error::InvalidData(msg) => ControlError::InvalidData(msg),
    }
}

/// Maps a protocol error to a control error: packet and data errors become `InvalidData`, IO
/// errors `Io`.
pub fn control_error_from(err: Error) -> (r: ControlError)
    ensures
        r == control_error_of(err),
{
    match err {
        Error::Io(_) => ControlError::Io(DeviceIoError::Message("gige io error")),
        Error::InvalidPacket(msg) => ControlError::InvalidData(msg),
        Error::InvalidData(msg) => ControlError::InvalidData(msg),
    }
}

/// Checks an acknowledge: its status must mean success and its request id must be the one of
/// the pending command; both failures are `Io`.
pub fn verify_ack(ack: &AckPacket, next_req_id: u16) -> (r: Result<(), ControlError>)
    ensures
        r is Ok <==> is_success_kind(ack.spec_header().spec_status().spec_kind())
            && ack.spec_header().spec_request_id() == next_req_id,
        r matches Err(e) ==> e is Io,
{
    let status = ack.status();
    if !status.is_success() {
        return Err(ControlError::Io(DeviceIoError::Message("invalid status")));
    }
    if ack.request_id() != next_req_id {
        return Err(ControlError::Io(DeviceIoError::Message("request id mismatch")));
    }
    Ok(())
}

/// The request id that follows `id`: ids count up from 1 and wrap back to 1.
pub open spec fn following_req_id(id: u16) -> u16 {
    if id == u16::MAX {
        1
    } else {
        (id + 1) as u16
    }
}

/// What the host does after an acknowledge.
#[derive(Clone, Copy, Debug, PartialEq, Eq, Structural)]
pub enum AckStep {
    /// The device asked for time: wait this many milliseconds and receive again.
    Wait(u64),
    /// The command completed; its acknowledge data is in the buffer.
    Done,
}

/// `buf` holds a valid acknowledge for request `id` whose status means success.
pub open spec fn accepted_ack(buf: Seq<u8>, id: u16) -> bool {
    &&& header_valid(buf)
    &&& buf.len() >= be16(buf.subrange(4, 6))
    &&& is_success_kind(status_kind_of(be16(buf.subrange(0, 2)))->Some_0)
    &&& be16(buf.subrange(6, 8)) == id
}

/// `buf` holds an accepted `Pending` acknowledge for request `id`.
pub open spec fn pending_ack(buf: Seq<u8>, id: u16) -> bool {
    accepted_ack(buf, id) && ack_kind_of(be16(buf.subrange(2, 4))) == Some(AckKind::Pending)
}

/// The state of a command that waits for its acknowledge.
#[derive(Clone, Copy, Debug, PartialEq, Eq, Structural)]
pub struct CommandTransaction {
    next_req_id: u16,
    retry_count: u16,
}

impl CommandTransaction {
    /// The request id of the command.
    pub closed spec fn spec_next_req_id(&self) -> u16 {
        self.next_req_id
    }

    /// How many more `Pending` acknowledges are allowed.
    pub closed spec fn spec_retry_count(&self) -> u16 {
        self.retry_count
    }

    /// A transaction for the command with `next_req_id`, allowing `retry_count` pending
    /// acknowledges.
    pub fn new(next_req_id: u16, retry_count: u16) -> (r: Self)
        ensures
            r.spec_next_req_id() == next_req_id,
            r.spec_retry_count() == retry_count,
    {
        CommandTransaction { next_req_id, retry_count }
    }

    /// The request id of the command, or of the next one once it completed.
    pub fn next_req_id(&self) -> (r: u16)
        ensures
            r == self.spec_next_req_id(),
    {
        self.next_req_id
    }

    /// Decides on the acknowledge in `buf`, the whole receive buffer. A broken packet, a failed
    /// status or another request id fails the command. A `Pending` acknowledge uses up one
    /// retry and asks to wait its waiting time; when no retry is left the command fails. Any
    /// other acknowledge completes the command and moves to the next request id.
    pub fn on_ack(&mut self, buf: &[u8]) -> (r: Result<AckStep, ControlError>)
        requires
            buf@.len() >= 12,
            pending_ack(buf@, old(self).spec_next_req_id()) ==> old(self).spec_retry_count() > 0,
        ensures
            !accepted_ack(buf@, old(self).spec_next_req_id()) ==> r is Err && *final(self) == *old(self),
            pending_ack(buf@, old(self).spec_next_req_id()) ==> {
                &&& final(self).spec_next_req_id() == old(self).spec_next_req_id()
                &&& final(self).spec_retry_count() == old(self).spec_retry_count() - 1
                &&& if old(self).spec_retry_count() == 1 {
                    r matches Err(ControlError::Io(_))
                } else {
                    r == Ok::<AckStep, ControlError>(
                        AckStep::Wait(be16(buf@.subrange(10, 12)) as u64),
                    )
                }
            },
            accepted_ack(buf@, old(self).spec_next_req_id()) && !pending_ack(
                buf@,
                old(self).spec_next_req_id(),
            ) ==> {
                &&& r == Ok::<AckStep, ControlError>(AckStep::Done)
                &&& final(self).spec_next_req_id() == following_req_id(
                    old(self).spec_next_req_id(),
                )
                &&& final(self).spec_retry_count() == old(self).spec_retry_count()
            },
    {
        let ack = match AckPacket::parse(buf) {
            Ok(ack) => ack,
            Err(e) => return Err(control_error_from(e)),
        };
        verify_ack(&ack, self.next_req_id)?;
        if ack.ack_kind() == AckKind::Pending {
            assert(ack.spec_raw_ack_data().len() >= 4);
            let pending: Pending = match ack.ack_data_as::<Pending>() {
                Ok(p) => p,
                Err(e) => return Err(control_error_from(e)),
            };
            assert(ack.spec_raw_ack_data().subrange(2, 4) =~= buf@.subrange(10, 12));
            let waiting_time = pending.waiting_time();
            self.retry_count = self.retry_count - 1;
            if self.retry_count == 0 {
                return Err(
                    ControlError::Io(
                        DeviceIoError::Message(
                            "the number of times pending was returned exceeds the retry_count",
                        ),
                    ),
                );
            }
            return Ok(AckStep::Wait(waiting_time));
        }
        self.next_req_id = if self.next_req_id == u16::MAX {
            1
        } else {
            self.next_req_id + 1
        };
        Ok(AckStep::Done)
    }
}

/// After a completed command the request id is never 0, whatever it was.
pub proof fn lemma_req_id_never_zero(id: u16)
    ensures
        following_req_id(id) != 0,
        following_req_id(id) >= 1,
{
}

/// An event that the heartbeat loop of a control channel receives.
#[derive(Clone, Copy, Debug, PartialEq, Eq, Structural)]
pub enum HeartbeatEvent {
    /// The heartbeat timeout of the device was set to this many milliseconds.
    TimeoutChanged(u32),
    /// The control channel is closed.
    ChannelClosed,
}

/// The state of the heartbeat loop: the heartbeat timeout of the device, and whether the host
/// must keep the device's heartbeat counter from running out (it must unless it only
/// monitors the device).
#[derive(Clone, Copy, Debug, PartialEq, Eq, Structural)]
pub struct HeartbeatLoop {
    pub timeout_ms: u32,
    pub need_heartbeat: bool,
}

impl HeartbeatLoop {
    /// A loop for a channel opened in `mode` with a heartbeat timeout of `timeout_ms`.
    pub fn new(timeout_ms: u32, mode: OpenMode) -> (r: Self)
        ensures
            r.timeout_ms == timeout_ms,
            r.need_heartbeat == (mode == OpenMode::Exclusive || mode == OpenMode::Control),
    {
        let need_heartbeat = match mode {
            OpenMode::Exclusive | OpenMode::Control => true,
            OpenMode::MonitorAccess => false,
        };
        HeartbeatLoop { timeout_ms, need_heartbeat }
    }

    /// How long the loop waits, in nanoseconds, before it resets the heartbeat counter: a
    /// third of the timeout; `None` when no heartbeat is needed.
    pub fn reset_interval_ns(&self) -> (r: Option<u64>)
        ensures
            self.need_heartbeat ==> r == Some((self.timeout_ms as u64 * 1_000_000 / 3) as u64),
            !self.need_heartbeat ==> r is None,
    {
        if self.need_heartbeat {
            Some(self.timeout_ms as u64 * 1_000_000 / 3)
        } else {
            None
        }
    }

    /// Takes an event and tells whether the loop goes on: a closed channel ends it, and a new
    /// timeout is taken over where heartbeats are sent.
    pub fn on_event(&mut self, event: HeartbeatEvent) -> (r: bool)
        ensures
            r == (event != HeartbeatEvent::ChannelClosed),
            final(self).need_heartbeat == old(self).need_heartbeat,
            final(self).timeout_ms == match event {
                HeartbeatEvent::TimeoutChanged(ms) => if old(self).need_heartbeat {
                    ms
                } else {
                    old(self).timeout_ms
                },
                HeartbeatEvent::ChannelClosed => old(self).timeout_ms,
            },
    {
        match event {
            HeartbeatEvent::TimeoutChanged(ms) => {
                if self.need_heartbeat {
                    self.timeout_ms = ms;
                }
                true
            },
            HeartbeatEvent::ChannelClosed => false,
        }
    }
}

} // verus!
