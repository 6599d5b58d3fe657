//! `USB3 Vision` event packets: a prefix, a command descriptor (CCD) and one or more events
//! (SCD), all little endian.

use vstd::prelude::*;

use crate::bytes::{le16, le32, le64, Cursor, IoError};

use super::{same_outcome, Error};

verus! {

/// The magic number that starts an event packet.
pub const EVENT_PREFIX_MAGIC: u32 = 0x4556_3355;

/// The command id of an event command.
pub const EVENT_COMMAND_ID: u16 = 0x0c00;

/// An event as plain values.
pub struct ScdView {
    pub event_size: u16,
    pub event_id: u16,
    pub timestamp: u64,
    pub data: Seq<u8>,
}

/// An event: its size field, id, timestamp and data.
pub struct EventScd<'a> {
    pub event_size: u16,
    pub event_id: u16,
    pub timestamp: u64,
    pub data: &'a [u8],
}

impl<'a> View for EventScd<'a> {
    type V = ScdView;

    /// The event as plain values.
    open spec fn view(&self) -> ScdView {
        ScdView {
            event_size: self.event_size,
            event_id: self.event_id,
            timestamp: self.timestamp,
            data: self.data@,
        }
    }
}

/// The error of a read past the end of the buffer.
pub open spec fn eof() -> Error {
    Error::BufferIo(IoError::UnexpectedEof)
}

/// The error of a field that contradicts another one.
pub open spec fn inconsistent() -> Error {
    Error::InvalidPacket("")
}

/// The events that the bytes of `d` from `pos` on give when `remained` bytes of events are
/// announced. Each event has a header of 12 bytes: size, id and timestamp. A size of 0 marks a
/// single event that takes all the announced bytes; any other size counts the header and must
/// leave at least 12 bytes for it.
pub open spec fn scds_spec(d: Seq<u8>, pos: int, remained: int) -> Result<Seq<ScdView>, Error>
    decreases remained,
{
    if remained <= 0 || pos < 0 {
        Ok(Seq::empty())
    } else if pos + 12 > d.len() {
        Err(eof())
    } else {
        let size = le16(d.subrange(pos, pos + 2));
        let id = le16(d.subrange(pos + 2, pos + 4));
        let ts = le64(d.subrange(pos + 4, pos + 12));
        if size == 0 {
            if remained < 12 {
                Err(inconsistent())
            } else if pos + remained > d.len() {
                Err(eof())
            } else {
                Ok(
                    seq![
                        ScdView {
                            event_size: size,
                            event_id: id,
                            timestamp: ts,
                            data: d.subrange(pos + 12, pos + remained),
                        },
                    ],
                )
            }
        } else if size < 12 || remained < size {
            Err(inconsistent())
        } else if pos + size > d.len() {
            Err(eof())
        } else {
            let ev = ScdView {
                event_size: size,
                event_id: id,
                timestamp: ts,
                data: d.subrange(pos + 12, pos + size),
            };
            match scds_spec(d, pos + size, remained - size) {
                Ok(rest) => Ok(seq![ev] + rest),
                Err(e) => Err(e),
            }
        }
    }
}

/// `done` followed by the outcome `rest`.
pub open spec fn prepend(done: Seq<ScdView>, rest: Result<Seq<ScdView>, Error>) -> Result<
    Seq<ScdView>,
    Error,
> {
    match rest {
        Ok(s) => Ok(done + s),
        Err(e) => Err(e),
    }
}

/// The events of a vector as plain values.
pub open spec fn scd_views<'a>(v: Seq<EventScd<'a>>) -> Seq<ScdView> {
    v.map_values(|e: EventScd<'a>| e.view())
}

/// What parsing the event packet `d` gives: its request id and its events.
pub open spec fn event_packet_spec(d: Seq<u8>) -> Result<(u16, Seq<ScdView>), Error> {
    if d.len() < 4 {
        Err(eof())
    } else if le32(d.subrange(0, 4)) != EVENT_PREFIX_MAGIC {
        Err(inconsistent())
    } else if d.len() < 8 {
        Err(eof())
    } else if le16(d.subrange(6, 8)) != EVENT_COMMAND_ID {
        Err(inconsistent())
    } else if d.len() < 12 {
        Err(eof())
    } else {
        match scds_spec(d, 12, le16(d.subrange(8, 10)) as int) {
            Ok(s) => Ok((le16(d.subrange(10, 12)), s)),
            Err(e) => Err(e),
        }
    }
}

/// The command descriptor of an event packet.
struct EventCcd {
    flag: u16,
    command_id: u16,
    scd_len: u16,
    request_id: u16,
}

/// An event packet.
pub struct EventPacket<'a> {
    ccd: EventCcd,
    pub scd: Vec<EventScd<'a>>,
}

impl<'a> View for EventPacket<'a> {
    type V = (u16, Seq<ScdView>);

    /// The request id and the events.
    open spec fn view(&self) -> (u16, Seq<ScdView>) {
        (self.spec_request_id(), self.spec_scd())
    }
}

impl<'a> EventPacket<'a> {
    /// The request id.
    pub closed spec fn spec_request_id(&self) -> u16 {
        self.ccd.request_id
    }

    /// The events as plain values.
    pub closed spec fn spec_scd(&self) -> Seq<ScdView> {
        scd_views(self.scd@)
    }


    /// Parses an event packet: the prefix magic, the command descriptor with the event command
    /// id, then the events.
    pub fn parse(buf: &'a [u8]) -> (r: Result<Self, Error>)
        ensures
            same_outcome(
                match r {
                    Ok(p) => Ok(p.view()),
                    Err(e) => Err(e),
                },
                event_packet_spec(buf@),
            ),
    {
        let mut cursor = Cursor::new(buf);
        Self::parse_prefix(&mut cursor)?;
        let ccd = EventCcd::parse(&mut cursor)?;
        assert(cursor.pos() == 12);
        let scd = EventScd::parse(&mut cursor, &ccd)?;
        let p = EventPacket { ccd, scd };
        Ok(p)
    }

    /// The request id.
    pub fn request_id(&self) -> (r: u16)
        ensures
            r == self.spec_request_id(),
    {
        self.ccd.request_id
    }

    fn parse_prefix(cursor: &mut Cursor<'a>) -> (r: Result<(), Error>)
        requires
            old(cursor).pos() == 0,
        ensures
            final(cursor).data() == old(cursor).data(),
            r is Ok ==> final(cursor).pos() == 4,
            old(cursor).data().len() < 4 ==> r == Err::<(), Error>(eof()),
            old(cursor).data().len() >= 4 ==> if le32(old(cursor).data().subrange(0, 4))
                == EVENT_PREFIX_MAGIC {
                r is Ok
            } else {
                r matches Err(Error::InvalidPacket(_))
            },
    {
        let magic = match cursor.read_le32() {
            Ok(v) => v,
            Err(e) => return Err(Error::BufferIo(e)),
        };
        if magic == EVENT_PREFIX_MAGIC {
            Ok(())
        } else {
            Err(Error::InvalidPacket("invalid event prefix magic"))
        }
    }
}

impl EventCcd {
    fn parse(cursor: &mut Cursor) -> (r: Result<Self, Error>)
        requires
            old(cursor).pos() == 4,
        ensures
            final(cursor).data() == old(cursor).data(),
            ({
                let d = old(cursor).data();
                if d.len() < 8 {
                    r == Err::<Self, Error>(eof())
                } else if le16(d.subrange(6, 8)) != EVENT_COMMAND_ID {
                    r matches Err(Error::InvalidPacket(_))
                } else if d.len() < 12 {
                    r == Err::<Self, Error>(eof())
                } else {
                    &&& r matches Ok(c) && c.scd_len == le16(d.subrange(8, 10)) && c.request_id
                        == le16(d.subrange(10, 12))
                    &&& final(cursor).pos() == 12
                }
            }),
    {
        let ghost d = cursor.data();
        let flag = match cursor.read_le16() {
            Ok(v) => v,
            Err(e) => return Err(Error::BufferIo(e)),
        };
        assert(cursor.ahead(2) =~= d.subrange(6, 8));
        let command_id = match cursor.read_le16() {
            Ok(v) => v,
            Err(e) => return Err(Error::BufferIo(e)),
        };
        if command_id != EVENT_COMMAND_ID {
            return Err(Error::InvalidPacket("invalid event command id"));
        }
        assert(cursor.ahead(2) =~= d.subrange(8, 10));
        let scd_len = match cursor.read_le16() {
            Ok(v) => v,
            Err(e) => return Err(Error::BufferIo(e)),
        };
        assert(cursor.ahead(2) =~= d.subrange(10, 12));
        let request_id = match cursor.read_le16() {
            Ok(v) => v,
            Err(e) => return Err(Error::BufferIo(e)),
        };
        Ok(EventCcd { flag, command_id, scd_len, request_id })
    }
}

impl<'a> EventScd<'a> {
    /// Takes the next `len` bytes as a subslice.
    fn read_and_seek(cursor: &mut Cursor<'a>, len: u16) -> (r: Result<&'a [u8], Error>)
        ensures
            final(cursor).data() == old(cursor).data(),
            old(cursor).can_read(len as int) ==> (r matches Ok(s) && s@ == old(cursor).ahead(
                len as int,
            ) && final(cursor).pos() == old(cursor).pos() + len),
            !old(cursor).can_read(len as int) ==> r == Err::<&'a [u8], Error>(eof()),
    {
        match cursor.read_slice(len as usize) {
            Ok(s) => Ok(s),
            Err(e) => Err(Error::BufferIo(e)),
        }
    }

    fn parse(cursor: &mut Cursor<'a>, ccd: &EventCcd) -> (r: Result<Vec<Self>, Error>)
        requires
            old(cursor).pos() == 12,
        ensures
            same_outcome(
                match r {
                    Ok(v) => Ok(scd_views(v@)),
                    Err(e) => Err(e),
                },
                scds_spec(old(cursor).data(), 12, ccd.scd_len as int),
            ),
    {
        let ghost d = cursor.data();
        let mut events: Vec<EventScd<'a>> = Vec::new();
        let mut remained = ccd.scd_len;
        while remained > 0
            invariant
                cursor.data() == d,
                d == old(cursor).data(),
                12 <= cursor.pos(),
                prepend(scd_views(events@), scds_spec(d, cursor.pos(), remained as int))
                    == scds_spec(d, 12, ccd.scd_len as int),
            decreases remained,
        {
            let ghost pos = cursor.pos();
            let ghost before = scd_views(events@);
            let ghost rem0 = remained as int;
            assert(pos + 12 > d.len() ==> scds_spec(d, pos, remained as int) == Err::<
                Seq<ScdView>,
                Error,
            >(eof()));
            let p = cursor.position();
            let buf = cursor.get_ref();
            if p > buf.len() || buf.len() - p < 12 {
                return Err(Error::BufferIo(IoError::UnexpectedEof));
            }
            let event_size = crate::bytes::get_le16(buf, p);
            let event_id = crate::bytes::get_le16(buf, p + 2);
            let timestamp = crate::bytes::get_le64(buf, p + 4);
            cursor.set_position(p + 12);
            let data = if event_size == 0 {
                if remained < 12 {
                    return Err(Error::InvalidPacket("SCD length in CCD is inconsistent with SCD"));
                }
                remained = remained - 12;
                let data = Self::read_and_seek(cursor, remained)?;
                remained = 0;
                data
            } else {
                if event_size < 12 {
                    return Err(Error::InvalidPacket("event size is smaller than scd header"));
                }
                let data_len = event_size - 12;
                if remained < event_size {
                    return Err(Error::InvalidPacket("SCD length in CCD is inconsistent with SCD"));
                }
                remained = remained - event_size;
                Self::read_and_seek(cursor, data_len)?
            };
            let ev = EventScd { event_size, event_id, timestamp, data };
            events.push(ev);
            proof {
                let evv = ev.view();
                let rest = scds_spec(d, cursor.pos(), remained as int);
                assert(scd_views(events@) =~= before.push(evv));
                if event_size == 0 {
                    assert(rest == Ok::<Seq<ScdView>, Error>(Seq::empty()));
                    assert(seq![evv] + Seq::<ScdView>::empty() =~= seq![evv]);
                }
                assert(scds_spec(d, pos, rem0) == prepend(seq![evv], rest));
                if rest is Ok {
                    assert(before + (seq![evv] + rest->Ok_0) =~= before.push(evv) + rest->Ok_0);
                }
            }
        }
        Ok(events)
    }
}

} // verus!
