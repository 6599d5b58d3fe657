//! Fixed-width integer codecs and a byte cursor.

use vstd::prelude::*;
use vstd::utf8::{decode_utf8, valid_utf8};

verus! {

/// Big endian value of two bytes.
pub open spec fn be16(s: Seq<u8>) -> u16 {
    (s[0] * 0x100 + s[1]) as u16
}

/// Big endian value of four bytes.
pub open spec fn be32(s: Seq<u8>) -> u32 {
    (s[0] * 0x100_0000 + s[1] * 0x1_0000 + s[2] * 0x100 + s[3]) as u32
}

/// Big endian value of eight bytes.
pub open spec fn be64(s: Seq<u8>) -> u64 {
    (s[0] * 0x0100_0000_0000_0000 + s[1] * 0x0001_0000_0000_0000 + s[2] * 0x0000_0100_0000_0000
        + s[3] * 0x0000_0001_0000_0000 + s[4] * 0x0000_0000_0100_0000 + s[5] * 0x0000_0000_0001_0000
        + s[6] * 0x0000_0000_0000_0100 + s[7]) as u64
}

/// Little endian value of two bytes.
pub open spec fn le16(s: Seq<u8>) -> u16 {
    (s[1] * 0x100 + s[0]) as u16
}

/// Little endian value of four bytes.
pub open spec fn le32(s: Seq<u8>) -> u32 {
    (s[3] * 0x100_0000 + s[2] * 0x1_0000 + s[1] * 0x100 + s[0]) as u32
}

/// Little endian value of eight bytes.
pub open spec fn le64(s: Seq<u8>) -> u64 {
    (s[7] * 0x0100_0000_0000_0000 + s[6] * 0x0001_0000_0000_0000 + s[5] * 0x0000_0100_0000_0000
        + s[4] * 0x0000_0001_0000_0000 + s[3] * 0x0000_0000_0100_0000 + s[2] * 0x0000_0000_0001_0000
        + s[1] * 0x0000_0000_0000_0100 + s[0]) as u64
}

/// Big endian bytes of a `u16`.
pub open spec fn be16_bytes(x: u16) -> Seq<u8> {
    seq![(x / 0x100) as u8, (x % 0x100) as u8]
}

/// Big endian bytes of a `u32`.
pub open spec fn be32_bytes(x: u32) -> Seq<u8> {
    seq![
        (x / 0x100_0000) as u8,
        ((x / 0x1_0000) % 0x100) as u8,
        ((x / 0x100) % 0x100) as u8,
        (x % 0x100) as u8,
    ]
}

/// Big endian bytes of a `u64`.
pub open spec fn be64_bytes(x: u64) -> Seq<u8> {
    be32_bytes((x / 0x1_0000_0000) as u32) + be32_bytes((x % 0x1_0000_0000) as u32)
}

/// Little endian bytes of a `u16`.
pub open spec fn le16_bytes(x: u16) -> Seq<u8> {
    seq![(x % 0x100) as u8, (x / 0x100) as u8]
}

/// Little endian bytes of a `u32`.
pub open spec fn le32_bytes(x: u32) -> Seq<u8> {
    seq![
        (x % 0x100) as u8,
        ((x / 0x100) % 0x100) as u8,
        ((x / 0x1_0000) % 0x100) as u8,
        (x / 0x100_0000) as u8,
    ]
}

/// Little endian bytes of a `u64`.
pub open spec fn le64_bytes(x: u64) -> Seq<u8> {
    le32_bytes((x % 0x1_0000_0000) as u32) + le32_bytes((x / 0x1_0000_0000) as u32)
}

/// Reads a big endian `u16` at `pos`.
pub fn get_be16(buf: &[u8], pos: usize) -> (r: u16)
    requires
        pos + 2 <= buf@.len(),
    ensures
        r == be16(buf@.subrange(pos as int, pos + 2)),
{
    (buf[pos] as u16) * 0x100 + buf[pos + 1] as u16
}

/// Reads a big endian `u32` at `pos`.
pub fn get_be32(buf: &[u8], pos: usize) -> (r: u32)
    requires
        pos + 4 <= buf@.len(),
    ensures
        r == be32(buf@.subrange(pos as int, pos + 4)),
{
    (buf[pos] as u32) * 0x100_0000 + (buf[pos + 1] as u32) * 0x1_0000 + (buf[pos + 2] as u32)
        * 0x100 + buf[pos + 3] as u32
}

/// Reads a big endian `u64` at `pos`.
pub fn get_be64(buf: &[u8], pos: usize) -> (r: u64)
    requires
        pos + 8 <= buf@.len(),
    ensures
        r == be64(buf@.subrange(pos as int, pos + 8)),
{
    (buf[pos] as u64) * 0x0100_0000_0000_0000 + (buf[pos + 1] as u64) * 0x0001_0000_0000_0000
        + (buf[pos + 2] as u64) * 0x0000_0100_0000_0000 + (buf[pos + 3] as u64)
        * 0x0000_0001_0000_0000 + (buf[pos + 4] as u64) * 0x0000_0000_0100_0000 + (buf[pos
        + 5] as u64) * 0x0000_0000_0001_0000 + (buf[pos + 6] as u64) * 0x0000_0000_0000_0100
        + buf[pos + 7] as u64
}

/// Reads a little endian `u16` at `pos`.
pub fn get_le16(buf: &[u8], pos: usize) -> (r: u16)
    requires
        pos + 2 <= buf@.len(),
    ensures
        r == le16(buf@.subrange(pos as int, pos + 2)),
{
    let b0 = buf[pos];
    (buf[pos + 1] as u16) * 0x100 + b0 as u16
}

/// Reads a little endian `u32` at `pos`.
pub fn get_le32(buf: &[u8], pos: usize) -> (r: u32)
    requires
        pos + 4 <= buf@.len(),
    ensures
        r == le32(buf@.subrange(pos as int, pos + 4)),
{
    let b0 = buf[pos];
    (buf[pos + 3] as u32) * 0x100_0000 + (buf[pos + 2] as u32) * 0x1_0000 + (buf[pos + 1] as u32)
        * 0x100 + b0 as u32
}

/// Reads a little endian `u64` at `pos`.
pub fn get_le64(buf: &[u8], pos: usize) -> (r: u64)
    requires
        pos + 8 <= buf@.len(),
    ensures
        r == le64(buf@.subrange(pos as int, pos + 8)),
{
    let b0 = buf[pos];
    (buf[pos + 7] as u64) * 0x0100_0000_0000_0000 + (buf[pos + 6] as u64) * 0x0001_0000_0000_0000
        + (buf[pos + 5] as u64) * 0x0000_0100_0000_0000 + (buf[pos + 4] as u64)
        * 0x0000_0001_0000_0000 + (buf[pos + 3] as u64) * 0x0000_0000_0100_0000 + (buf[pos
        + 2] as u64) * 0x0000_0000_0001_0000 + (buf[pos + 1] as u64) * 0x0000_0000_0000_0100
        + b0 as u64
}

/// Appends the big endian bytes of `x`.
pub fn put_be16(buf: &mut Vec<u8>, x: u16)
    ensures
        final(buf)@ == old(buf)@ + be16_bytes(x),
{
    buf.push((x / 0x100) as u8);
    buf.push((x % 0x100) as u8);
}

/// Appends the big endian bytes of `x`.
pub fn put_be32(buf: &mut Vec<u8>, x: u32)
    ensures
        final(buf)@ == old(buf)@ + be32_bytes(x),
{
    buf.push((x / 0x100_0000) as u8);
    buf.push(((x / 0x1_0000) % 0x100) as u8);
    buf.push(((x / 0x100) % 0x100) as u8);
    buf.push((x % 0x100) as u8);
}

/// Appends the big endian bytes of `x`.
pub fn put_be64(buf: &mut Vec<u8>, x: u64)
    ensures
        final(buf)@ == old(buf)@ + be64_bytes(x),
{
    put_be32(buf, (x / 0x1_0000_0000) as u32);
    put_be32(buf, (x % 0x1_0000_0000) as u32);
}

/// Appends the little endian bytes of `x`.
pub fn put_le16(buf: &mut Vec<u8>, x: u16)
    ensures
        final(buf)@ == old(buf)@ + le16_bytes(x),
{
    buf.push((x % 0x100) as u8);
    buf.push((x / 0x100) as u8);
}

/// Appends the little endian bytes of `x`.
pub fn put_le32(buf: &mut Vec<u8>, x: u32)
    ensures
        final(buf)@ == old(buf)@ + le32_bytes(x),
{
    buf.push((x % 0x100) as u8);
    buf.push(((x / 0x100) % 0x100) as u8);
    buf.push(((x / 0x1_0000) % 0x100) as u8);
    buf.push((x / 0x100_0000) as u8);
}

/// Appends the little endian bytes of `x`.
pub fn put_le64(buf: &mut Vec<u8>, x: u64)
    ensures
        final(buf)@ == old(buf)@ + le64_bytes(x),
{
    put_le32(buf, (x % 0x1_0000_0000) as u32);
    put_le32(buf, (x / 0x1_0000_0000) as u32);
}

/// Decoding the big endian bytes of a `u32` gives the value back.
pub proof fn lemma_be32_roundtrip(x: u32)
    ensures
        be32(be32_bytes(x)) == x,
{
    assert(((x / 0x100_0000) as u8) as u32 * 0x100_0000 + (((x / 0x1_0000) % 0x100) as u8) as u32
        * 0x1_0000 + (((x / 0x100) % 0x100) as u8) as u32 * 0x100 + ((x % 0x100) as u8) as u32
        == x) by (bit_vector);
}


/// `i` is the index of the first NUL of `field`.
pub open spec fn is_first_nul(field: Seq<u8>, i: int) -> bool {
    0 <= i < field.len() && field[i] == 0 && forall|j: int| 0 <= j < i ==> field[j] != 0
}

/// The index of the first NUL of `field`, or `fallback` when it holds none.
pub open spec fn nul_or(field: Seq<u8>, fallback: int) -> int {
    if exists|i: int| is_first_nul(field, i) {
        choose|i: int| is_first_nul(field, i)
    } else {
        fallback
    }
}

/// The index of the first NUL of `s`, if any.
pub fn first_nul(s: &[u8]) -> (r: Option<usize>)
    ensures
        match r {
            Some(i) => is_first_nul(s@, i as int),
            None => forall|j: int| 0 <= j < s@.len() ==> s@[j] != 0,
        },
        forall|fallback: int| nul_or(s@, fallback) == match r {
            Some(i) => i as int,
            None => fallback,
        },
{
    let mut i: usize = 0;
    while i < s.len() && s[i] != 0
        invariant
            i <= s@.len(),
            forall|j: int| 0 <= j < i ==> s@[j] != 0,
        decreases s@.len() - i,
    {
        i = i + 1;
    }
    proof {
        if i < s@.len() {
            assert(is_first_nul(s@, i as int));
            assert forall|c: int| is_first_nul(s@, c) implies c == i by {
                if c < i {
                    assert(s@[c] != 0);
                }
                if i < c {
                    assert(s@[i as int] != 0);
                }
            }
        } else {
            assert forall|c: int| !is_first_nul(s@, c) by {
                if 0 <= c < s@.len() {
                    assert(s@[c] != 0);
                }
            }
        }
    }
    if i < s.len() {
        Some(i)
    } else {
        None
    }
}

/// Calls `std::str::from_utf8`: valid UTF-8 is decoded, anything else refused.
#[verifier::external_body]
pub(crate) fn str_from_utf8<'a>(bytes: &'a [u8]) -> (r: Option<&'a str>)
    ensures
        r is Some <==> valid_utf8(bytes@),
        r matches Some(s) ==> s@ == decode_utf8(bytes@),
{
    std::str::from_utf8(bytes).ok()
}

/// The text that `String::from_utf8_lossy` makes of `bytes`.
pub uninterp spec fn utf8_lossy(bytes: Seq<u8>) -> Seq<char>;

/// Calls `String::from_utf8_lossy` and takes the owned string. Its documentation promises that
/// valid UTF-8 comes back as the text it encodes; how invalid sequences are replaced is left to
/// the name `utf8_lossy`.
#[verifier::external_body]
pub(crate) fn from_utf8_lossy(bytes: &[u8]) -> (s: String)
    ensures
        s@ == utf8_lossy(bytes@),
        valid_utf8(bytes@) ==> s@ == decode_utf8(bytes@),
{
    String::from_utf8_lossy(bytes).into_owned()
}

/// Why reading from a [`Cursor`] failed.
#[derive(Clone, Copy, Debug, PartialEq, Eq, Structural)]
pub enum IoError {
    /// Fewer bytes remain than the read asks for.
    UnexpectedEof,
    /// A seek would move the position past `usize::MAX`.
    InvalidSeek,
}

/// The message of an [`IoError`].
pub open spec fn io_error_text(e: IoError) -> &'static str {
    match e {
        IoError::UnexpectedEof => "failed to fill whole buffer",
        IoError::InvalidSeek => "invalid seek to a negative or overflowing position",
    }
}

impl IoError {
    /// The message of this error.
    pub fn message(&self) -> (r: &'static str)
        ensures
            r == io_error_text(*self),
    {
        match self {
            IoError::UnexpectedEof => "failed to fill whole buffer",
            IoError::InvalidSeek => "invalid seek to a negative or overflowing position",
        }
    }
}

/// A read position over a byte slice; the position may lie past the end, in which case every
/// read fails.
pub struct Cursor<'a> {
    buf: &'a [u8],
    pos: usize,
}

impl<'a> Cursor<'a> {
    /// The bytes under the cursor.
    pub closed spec fn data(&self) -> Seq<u8> {
        self.buf@
    }

    /// The current position.
    pub closed spec fn pos(&self) -> int {
        self.pos as int
    }

    /// `n` bytes can be read at the current position.
    pub open spec fn can_read(&self, n: int) -> bool {
        self.pos() + n <= self.data().len()
    }

    /// The `n` bytes at the current position.
    pub open spec fn ahead(&self, n: int) -> Seq<u8> {
        self.data().subrange(self.pos(), self.pos() + n)
    }

    /// A cursor at the start of `buf`.
    pub fn new(buf: &'a [u8]) -> (c: Self)
        ensures
            c.data() == buf@,
            c.pos() == 0,
    {
        Cursor { buf, pos: 0 }
    }

    /// The current position.
    pub fn position(&self) -> (p: usize)
        ensures
            p == self.pos(),
    {
        self.pos
    }

    /// Moves to `pos`.
    pub fn set_position(&mut self, pos: usize)
        ensures
            final(self).data() == old(self).data(),
            final(self).pos() == pos,
    {
        self.pos = pos;
    }

    /// The whole underlying slice.
    pub fn get_ref(&self) -> (r: &'a [u8])
        ensures
            r@ == self.data(),
    {
        self.buf
    }

    /// Moves the position forward by `n` bytes.
    pub fn seek_forward(&mut self, n: usize) -> (r: Result<(), IoError>)
        ensures
            final(self).data() == old(self).data(),
            r is Ok <==> old(self).pos() + n <= usize::MAX,
            r is Ok ==> final(self).pos() == old(self).pos() + n,
            r is Err ==> final(self).pos() == old(self).pos() && r == Err::<(), IoError>(
                IoError::InvalidSeek,
            ),
    {
        if self.pos <= usize::MAX - n {
            self.pos = self.pos + n;
            Ok(())
        } else {
            Err(IoError::InvalidSeek)
        }
    }

    /// Reads the next `n` bytes as a subslice.
    pub fn read_slice(&mut self, n: usize) -> (r: Result<&'a [u8], IoError>)
        ensures
            final(self).data() == old(self).data(),
            r is Ok <==> old(self).can_read(n as int),
            r matches Ok(s) ==> s@ == old(self).ahead(n as int) && final(self).pos() == old(self).pos() + n,
            r is Err ==> final(self).pos() == old(self).pos() && r == Err::<&'a [u8], IoError>(
                IoError::UnexpectedEof,
            ),
    {
        if self.pos <= self.buf.len() && n <= self.buf.len() - self.pos {
            let s = vstd::slice::slice_subrange(self.buf, self.pos, self.pos + n);
            self.pos = self.pos + n;
            Ok(s)
        } else {
            Err(IoError::UnexpectedEof)
        }
    }

    /// Reads one byte.
    pub fn read_u8(&mut self) -> (r: Result<u8, IoError>)
        ensures
            final(self).data() == old(self).data(),
            r is Ok <==> old(self).can_read(1),
            r matches Ok(v) ==> v == old(self).data()[old(self).pos()] && final(self).pos()
                == old(self).pos() + 1,
            r is Err ==> final(self).pos() == old(self).pos() && r == Err::<u8, IoError>(
                IoError::UnexpectedEof,
            ),
    {
        if self.pos < self.buf.len() {
            let v = self.buf[self.pos];
            self.pos = self.pos + 1;
            Ok(v)
        } else {
            Err(IoError::UnexpectedEof)
        }
    }

    /// Reads a big endian `u16`.
    pub fn read_be16(&mut self) -> (r: Result<u16, IoError>)
        ensures
            final(self).data() == old(self).data(),
            r is Ok <==> old(self).can_read(2),
            r matches Ok(v) ==> v == be16(old(self).ahead(2)) && final(self).pos() == old(self).pos() + 2,
            r is Err ==> final(self).pos() == old(self).pos() && r == Err::<u16, IoError>(
                IoError::UnexpectedEof,
            ),
    {
        if self.pos <= self.buf.len() && 2 <= self.buf.len() - self.pos {
            let v = get_be16(self.buf, self.pos);
            self.pos = self.pos + 2;
            Ok(v)
        } else {
            Err(IoError::UnexpectedEof)
        }
    }

    /// Reads a big endian `u32`.
    pub fn read_be32(&mut self) -> (r: Result<u32, IoError>)
        ensures
            final(self).data() == old(self).data(),
            r is Ok <==> old(self).can_read(4),
            r matches Ok(v) ==> v == be32(old(self).ahead(4)) && final(self).pos() == old(self).pos() + 4,
            r is Err ==> final(self).pos() == old(self).pos() && r == Err::<u32, IoError>(
                IoError::UnexpectedEof,
            ),
    {
        if self.pos <= self.buf.len() && 4 <= self.buf.len() - self.pos {
            let v = get_be32(self.buf, self.pos);
            self.pos = self.pos + 4;
            Ok(v)
        } else {
            Err(IoError::UnexpectedEof)
        }
    }

    /// Reads a big endian `u64`.
    pub fn read_be64(&mut self) -> (r: Result<u64, IoError>)
        ensures
            final(self).data() == old(self).data(),
            r is Ok <==> old(self).can_read(8),
            r matches Ok(v) ==> v == be64(old(self).ahead(8)) && final(self).pos() == old(self).pos() + 8,
            r is Err ==> final(self).pos() == old(self).pos() && r == Err::<u64, IoError>(
                IoError::UnexpectedEof,
            ),
    {
        if self.pos <= self.buf.len() && 8 <= self.buf.len() - self.pos {
            let v = get_be64(self.buf, self.pos);
            self.pos = self.pos + 8;
            Ok(v)
        } else {
            Err(IoError::UnexpectedEof)
        }
    }

    /// Reads a little endian `u16`.
    pub fn read_le16(&mut self) -> (r: Result<u16, IoError>)
        ensures
            final(self).data() == old(self).data(),
            r is Ok <==> old(self).can_read(2),
            r matches Ok(v) ==> v == le16(old(self).ahead(2)) && final(self).pos() == old(self).pos() + 2,
            r is Err ==> final(self).pos() == old(self).pos() && r == Err::<u16, IoError>(
                IoError::UnexpectedEof,
            ),
    {
        if self.pos <= self.buf.len() && 2 <= self.buf.len() - self.pos {
            let v = get_le16(self.buf, self.pos);
            self.pos = self.pos + 2;
            Ok(v)
        } else {
            Err(IoError::UnexpectedEof)
        }
    }

    /// Reads a little endian `u32`.
    pub fn read_le32(&mut self) -> (r: Result<u32, IoError>)
        ensures
            final(self).data() == old(self).data(),
            r is Ok <==> old(self).can_read(4),
            r matches Ok(v) ==> v == le32(old(self).ahead(4)) && final(self).pos() == old(self).pos() + 4,
            r is Err ==> final(self).pos() == old(self).pos() && r == Err::<u32, IoError>(
                IoError::UnexpectedEof,
            ),
    {
        if self.pos <= self.buf.len() && 4 <= self.buf.len() - self.pos {
            let v = get_le32(self.buf, self.pos);
            self.pos = self.pos + 4;
            Ok(v)
        } else {
            Err(IoError::UnexpectedEof)
        }
    }

    /// Reads a little endian `u64`.
    pub fn read_le64(&mut self) -> (r: Result<u64, IoError>)
        ensures
            final(self).data() == old(self).data(),
            r is Ok <==> old(self).can_read(8),
            r matches Ok(v) ==> v == le64(old(self).ahead(8)) && final(self).pos() == old(self).pos() + 8,
            r is Err ==> final(self).pos() == old(self).pos() && r == Err::<u64, IoError>(
                IoError::UnexpectedEof,
            ),
    {
        if self.pos <= self.buf.len() && 8 <= self.buf.len() - self.pos {
            let v = get_le64(self.buf, self.pos);
            self.pos = self.pos + 8;
            Ok(v)
        } else {
            Err(IoError::UnexpectedEof)
        }
    }
}

} // verus!
