//! The decisions of the `GigE Vision` streaming loop: what each received stream packet does to
//! the block that is being assembled.

use vstd::prelude::*;

use crate::bytes::{be16, be32, Cursor, IoError};
use crate::gige::stream::{
    bytes_at, image_leader_at, packet_header_len, packet_type_of, ImageLeader, ImageTrailer,
    PacketHeader, PacketType,
};
use crate::gige::{status_kind_of, Error};

verus! {

/// The packet type of the `GVSP` header at the position of `c`, when the whole header can be
/// read there.
pub open spec fn header_type_at(c: Cursor) -> Option<PacketType> {
    let ptype = packet_type_of((be32(bytes_at(c, 4, 4)) >> 24) as u8);
    if c.can_read(2) && status_kind_of(be16(bytes_at(c, 0, 2))) is Some && c.can_read(8)
        && ptype is Some && c.can_read(packet_header_len(c)) {
        ptype
    } else {
        None
    }
}

/// What a received stream packet does to the loop.
#[derive(Debug)]
pub enum StreamEvent {
    /// The packet could not be read; it is skipped.
    Broken(Error),
    /// A leader opens a new block; `replaced` tells that a block was still open and is dropped.
    BlockStarted { replaced: bool },
    /// A trailer closes the open block, which the given leader opened.
    BlockCompleted(ImageLeader),
    /// A trailer arrived while no block was open; it is skipped.
    OrphanTrailer,
    /// A data packet.
    Data,
    /// A packet kind that the loop does not handle.
    Unsupported(PacketType),
}

/// The block that the streaming loop is assembling.
pub struct StreamingState {
    leader: Option<ImageLeader>,
}

impl StreamingState {
    /// The leader of the open block, if a block is open.
    pub closed spec fn open_block(&self) -> Option<ImageLeader> {
        self.leader
    }

    /// A loop with no open block.
    pub fn new() -> (r: Self)
        ensures
            r.open_block() is None,
    {
        StreamingState { leader: None }
    }

    /// Handles the packet under `packet`. A packet whose header cannot be read is skipped. A
    /// leader opens a block (replacing an open one) unless its image leader is cut short; a
    /// trailer closes the open block and hands its leader out, or is skipped when none is
    /// open; data packets leave the state alone, and so do the packet kinds that the loop does
    /// not handle.
    pub fn on_packet(&mut self, packet: Cursor) -> (ev: StreamEvent)
        ensures
            header_type_at(packet) is None ==> {
                &&& ev is Broken
                &&& final(self).open_block() == old(self).open_block()
            },
            header_type_at(packet) == Some(PacketType::Leader) ==> {
                let p = packet.pos() + packet_header_len(packet);
                if p + 36 <= packet.data().len() {
                    &&& ev == (StreamEvent::BlockStarted { replaced: old(self).open_block() is Some })
                    &&& final(self).open_block() matches Some(l) && image_leader_at(
                        l,
                        packet.data(),
                        p,
                    )
                } else {
                    &&& ev == StreamEvent::Broken(Error::Io(IoError::UnexpectedEof))
                    &&& final(self).open_block() == old(self).open_block()
                }
            },
            header_type_at(packet) == Some(PacketType::Trailer) ==> {
                &&& final(self).open_block() is None
                &&& match old(self).open_block() {
                    None => ev is OrphanTrailer,
                    Some(l) => ev == StreamEvent::BlockCompleted(l),
                }
            },
            header_type_at(packet) == Some(PacketType::GenericPayload) ==> {
                &&& ev is Data
                &&& final(self).open_block() == old(self).open_block()
            },
            header_type_at(packet) == Some(PacketType::H264Payload) || header_type_at(packet)
                == Some(PacketType::MultiZonePayload) ==> {
                &&& ev == StreamEvent::Unsupported(header_type_at(packet)->0)
                &&& final(self).open_block() == old(self).open_block()
            },
    {
        let mut cursor = packet;
        let header = match PacketHeader::parse(&mut cursor) {
            Ok(h) => h,
            Err(e) => return StreamEvent::Broken(e),
        };
        match header.packet_type {
            PacketType::Leader => {
                let leader = match ImageLeader::parse(&mut cursor) {
                    Ok(l) => l,
                    Err(e) => return StreamEvent::Broken(e),
                };
                let replaced = self.leader.is_some();
                self.leader = Some(leader);
                StreamEvent::BlockStarted { replaced }
            },
            PacketType::Trailer => {
                let leader = match self.leader.take() {
                    Some(l) => l,
                    None => return StreamEvent::OrphanTrailer,
                };
                match ImageTrailer::parse(&mut cursor) {
                    Ok(_) => StreamEvent::BlockCompleted(leader),
                    Err(e) => StreamEvent::Broken(e),
                }
            },
            PacketType::GenericPayload => StreamEvent::Data,
            PacketType::H264Payload => StreamEvent::Unsupported(PacketType::H264Payload),
            PacketType::MultiZonePayload => StreamEvent::Unsupported(PacketType::MultiZonePayload),
        }
    }
}

} // verus!
