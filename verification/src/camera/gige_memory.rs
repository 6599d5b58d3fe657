//! How a `GigE Vision` memory access is split into `GVCP` commands: `ReadMem` and `WriteMem`
//! commands of at most [`MEM_CHUNK_LEN`] bytes, each padded to a multiple of four bytes, or one
//! register command for every four bytes when the device cannot take memory commands.

use vstd::prelude::*;

use crate::control::ControlError;

verus! {

/// The most bytes that one `ReadMem` or `WriteMem` command moves.
pub const MEM_CHUNK_LEN: usize = 536;

/// `n` rounded up to a multiple of four.
pub open spec fn align4(n: int) -> int {
    (n + 3) / 4 * 4
}

/// The smaller of `a` and `b`.
pub open spec fn min_len(a: int, b: int) -> int {
    if a < b {
        a
    } else {
        b
    }
}

/// The access goes through register commands: for a single register, or when the device
/// does not announce memory commands.
pub open spec fn uses_registers(len: int, mem_supported: bool) -> bool {
    len == 4 || !mem_supported
}

/// The number of bytes that the command at offset `done` of an access of `total` bytes moves.
pub open spec fn chunk_len(total: int, done: int, registers: bool) -> int {
    min_len(total - done, if registers { 4 } else { MEM_CHUNK_LEN as int })
}

/// `bytes` followed by zeros up to `len` bytes.
pub open spec fn zero_padded(bytes: Seq<u8>, len: int) -> Seq<u8> {
    bytes + Seq::new((len - bytes.len()) as nat, |i: int| 0u8)
}

/// The command that reads the next part of a memory access.
#[derive(Clone, Copy, Debug, PartialEq, Eq, Structural)]
pub enum ReadRequest {
    /// A `ReadMem` command of `length` bytes, a multiple of four, at `address`.
    Memory { address: u32, length: u16 },
    /// A `ReadReg` command for the register at `address`.
    Register { address: u64 },
}

/// The command that writes the next part of a memory access.
#[derive(Debug)]
pub enum WriteRequest {
    /// A `WriteMem` command that writes `data`, a multiple of four bytes, at `address`.
    Memory { address: u32, data: Vec<u8> },
    /// A `WriteReg` command that writes `data` to the register at `address`.
    Register { address: u64, data: [u8; 4] },
}

/// A memory read in progress: the bytes read so far from `start` on.
pub struct MemReader {
    start: u64,
    total: usize,
    data: Vec<u8>,
    registers: bool,
}

impl MemReader {
    #[verifier::type_invariant]
    closed spec fn wf(&self) -> bool {
        &&& self.data@.len() <= self.total
        &&& self.start + self.total <= u64::MAX
    }

    /// The first address of the access.
    pub closed spec fn spec_start(&self) -> u64 {
        self.start
    }

    /// The number of bytes to read.
    pub closed spec fn spec_total(&self) -> nat {
        self.total as nat
    }

    /// The bytes read so far.
    pub closed spec fn spec_data(&self) -> Seq<u8> {
        self.data@
    }

    /// The access goes through register commands.
    pub closed spec fn spec_registers(&self) -> bool {
        self.registers
    }

    /// The number of bytes that the next command reads.
    pub open spec fn next_len(&self) -> int {
        chunk_len(self.spec_total() as int, self.spec_data().len() as int, self.spec_registers())
    }

    /// Starts reading `len` bytes at `address`; `mem_supported` tells that the device takes
    /// memory commands.
    pub fn new(address: u64, len: usize, mem_supported: bool) -> (r: Self)
        requires
            address + len <= u64::MAX,
        ensures
            r.spec_start() == address,
            r.spec_total() == len,
            r.spec_data() == Seq::<u8>::empty(),
            r.spec_registers() == uses_registers(len as int, mem_supported),
    {
        MemReader { start: address, total: len, data: Vec::new(), registers: len == 4 || !mem_supported }
    }

    /// Returns `true` once every byte has been read.
    pub fn is_done(&self) -> (r: bool)
        ensures
            r == (self.spec_data().len() == self.spec_total()),
    {
        self.data.len() == self.total
    }

    /// The command for the next part: a register read at the next address, or a memory read
    /// of the next part rounded up to a multiple of four bytes, which fails with `InvalidData`
    /// where the next address does not fit in 32 bits.
    pub fn next_request(&self) -> (r: Result<ReadRequest, ControlError>)
        requires
            self.spec_data().len() < self.spec_total(),
        ensures
            ({
                let addr = self.spec_start() + self.spec_data().len();
                if self.spec_registers() {
                    r == Ok::<ReadRequest, ControlError>(ReadRequest::Register { address: addr as u64 })
                } else if addr > u32::MAX {
                    r matches Err(ControlError::InvalidData(_))
                } else {
                    r == Ok::<ReadRequest, ControlError>(
                        ReadRequest::Memory { address: addr as u32, length: align4(self.next_len()) as u16 },
                    )
                }
            }),
    {
        proof {
            use_type_invariant(self);
        }
        let address = self.start + self.data.len() as u64;
        if self.registers {
            return Ok(ReadRequest::Register { address });
        }
        if address > 0xffff_ffff {
            return Err(
                ControlError::InvalidData(
                    "the address of `ReadMem` command must be smaller than u32::MAX",
                ),
            );
        }
        let remaining = self.total - self.data.len();
        let len = if remaining < MEM_CHUNK_LEN {
            remaining
        } else {
            MEM_CHUNK_LEN
        };
        let aligned = (len + 3) / 4 * 4;
        Ok(ReadRequest::Memory { address: address as u32, length: aligned as u16 })
    }

    /// The number of bytes that the next command reads; the answer to it must hold at least
    /// as many.
    pub fn part_len(&self) -> (r: usize)
        requires
            self.spec_data().len() < self.spec_total(),
        ensures
            r == self.next_len(),
    {
        proof {
            use_type_invariant(self);
        }
        let remaining = self.total - self.data.len();
        let limit: usize = if self.registers {
            4
        } else {
            MEM_CHUNK_LEN
        };
        if remaining < limit {
            remaining
        } else {
            limit
        }
    }

    /// Takes the answer to the next command: its first bytes, as many as the part holds.
    pub fn accept(&mut self, answer: &[u8])
        requires
            old(self).spec_data().len() < old(self).spec_total(),
            answer@.len() >= old(self).next_len(),
        ensures
            final(self).spec_start() == old(self).spec_start(),
            final(self).spec_total() == old(self).spec_total(),
            final(self).spec_registers() == old(self).spec_registers(),
            final(self).spec_data() == old(self).spec_data() + answer@.subrange(
                0,
                old(self).next_len(),
            ),
    {
        proof {
            use_type_invariant(&*self);
        }
        let len = self.part_len();
        let mut data: Vec<u8> = Vec::new();
        std::mem::swap(&mut data, &mut self.data);
        let ghost before = data@;
        let mut i: usize = 0;
        while i < len
            invariant
                i <= len,
                len <= answer@.len(),
                before.len() + len <= self.total,
                data@ == before + answer@.subrange(0, i as int),
            decreases len - i,
        {
            data.push(answer[i]);
            i = i + 1;
            assert(data@ =~= before + answer@.subrange(0, i as int));
        }
        self.data = data;
    }

    /// The bytes read.
    pub fn into_data(self) -> (r: Vec<u8>)
        ensures
            r@ == self.spec_data(),
    {
        self.data
    }
}

/// A memory write in progress: the bytes from `start` on, and how many have been written.
pub struct MemWriter {
    start: u64,
    data: Vec<u8>,
    sent: usize,
    registers: bool,
}

impl MemWriter {
    #[verifier::type_invariant]
    closed spec fn wf(&self) -> bool {
        &&& self.sent <= self.data@.len()
        &&& self.start + self.data@.len() <= u64::MAX
    }

    /// The first address of the access.
    pub closed spec fn spec_start(&self) -> u64 {
        self.start
    }

    /// The bytes to write.
    pub closed spec fn spec_data(&self) -> Seq<u8> {
        self.data@
    }

    /// The number of bytes written so far.
    pub closed spec fn spec_sent(&self) -> nat {
        self.sent as nat
    }

    /// The access goes through register commands.
    pub closed spec fn spec_registers(&self) -> bool {
        self.registers
    }

    /// The number of bytes that the next command writes, padding aside.
    pub open spec fn next_len(&self) -> int {
        chunk_len(self.spec_data().len() as int, self.spec_sent() as int, self.spec_registers())
    }

    /// The bytes that the next command writes, padding aside.
    pub open spec fn next_part(&self) -> Seq<u8> {
        self.spec_data().subrange(
            self.spec_sent() as int,
            self.spec_sent() + self.next_len(),
        )
    }

    /// Starts writing `data` at `address`; `mem_supported` tells that the device takes memory
    /// commands.
    pub fn new(address: u64, data: Vec<u8>, mem_supported: bool) -> (r: Self)
        requires
            address + data@.len() <= u64::MAX,
        ensures
            r.spec_start() == address,
            r.spec_data() == data@,
            r.spec_sent() == 0,
            r.spec_registers() == uses_registers(data@.len() as int, mem_supported),
    {
        let registers = data.len() == 4 || !mem_supported;
        MemWriter { start: address, data, sent: 0, registers }
    }

    /// Returns `true` once every byte has been written.
    pub fn is_done(&self) -> (r: bool)
        ensures
            r == (self.spec_sent() == self.spec_data().len()),
    {
        self.data.len() == self.sent
    }

    /// The command for the next part, padded with zeros to four bytes for a register or to a
    /// multiple of four bytes for memory; a memory write fails with `InvalidData` where the
    /// next address does not fit in 32 bits.
    pub fn next_request(&self) -> (r: Result<WriteRequest, ControlError>)
        requires
            self.spec_sent() < self.spec_data().len(),
        ensures
            ({
                let addr = self.spec_start() + self.spec_sent();
                if self.spec_registers() {
                    r matches Ok(WriteRequest::Register { address, data }) && address == addr
                        && data@ == zero_padded(self.next_part(), 4)
                } else if addr > u32::MAX {
                    r matches Err(ControlError::InvalidData(_))
                } else {
                    r matches Ok(WriteRequest::Memory { address, data }) && address == addr
                        && data@ == zero_padded(self.next_part(), align4(self.next_len()))
                }
            }),
    {
        proof {
            use_type_invariant(self);
        }
        let address = self.start + self.sent as u64;
        let remaining = self.data.len() - self.sent;
        if self.registers {
            let len = if remaining < 4 {
                remaining
            } else {
                4
            };
            let mut word = [0u8; 4];
            let mut i: usize = 0;
            while i < len
                invariant
                    i <= len <= 4,
                    self.sent + len <= self.data.len(),
                    forall|k: int| 0 <= k < i ==> word@[k] == self.data@[self.sent + k],
                    forall|k: int| i <= k < 4 ==> word@[k] == 0u8,
                decreases len - i,
            {
                word[i] = self.data[self.sent + i];
                i = i + 1;
            }
            assert(word@ =~= zero_padded(self.next_part(), 4));
            return Ok(WriteRequest::Register { address, data: word });
        }
        if address > 0xffff_ffff {
            return Err(
                ControlError::InvalidData(
                    "the address of `WriteMem` command must be smaller than u32::MAX",
                ),
            );
        }
        let len = if remaining < MEM_CHUNK_LEN {
            remaining
        } else {
            MEM_CHUNK_LEN
        };
        let aligned = (len + 3) / 4 * 4;
        let mut out: Vec<u8> = Vec::new();
        let mut i: usize = 0;
        while i < aligned
            invariant
                i <= aligned,
                aligned == align4(len as int),
                len <= aligned,
                self.sent + len <= self.data.len(),
                out@.len() == i,
                forall|k: int| 0 <= k < i && k < len ==> out@[k] == self.data@[self.sent + k],
                forall|k: int| len <= k < i ==> out@[k] == 0u8,
            decreases aligned - i,
        {
            if i < len {
                out.push(self.data[self.sent + i]);
            } else {
                out.push(0u8);
            }
            i = i + 1;
        }
        assert(out@ =~= zero_padded(self.next_part(), align4(self.next_len())));
        Ok(WriteRequest::Memory { address: address as u32, data: out })
    }

    /// Records that the next part has been written.
    pub fn advance(&mut self)
        requires
            old(self).spec_sent() < old(self).spec_data().len(),
        ensures
            final(self).spec_start() == old(self).spec_start(),
            final(self).spec_data() == old(self).spec_data(),
            final(self).spec_registers() == old(self).spec_registers(),
            final(self).spec_sent() == old(self).spec_sent() + old(self).next_len(),
    {
        proof {
            use_type_invariant(&*self);
        }
        let remaining = self.data.len() - self.sent;
        let limit: usize = if self.registers {
            4
        } else {
            MEM_CHUNK_LEN
        };
        let len = if remaining < limit {
            remaining
        } else {
            limit
        };
        self.sent = self.sent + len;
    }
}

} // verus!
