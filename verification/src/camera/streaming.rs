//! Streaming configuration of a `USB3 Vision` device: the `SIRM` sizes that the host writes
//! before it enables the stream, the checks that a device makes of them, and the parameters
//! with which the host receives stream packets.

use vstd::prelude::*;

use crate::bytes::le32_bytes;
use crate::control::{
    answer_at, read_answer, read_at, writes_from, writes_from_index, ControlError, ControlResult, DeviceAccess,
    DeviceControl,
};

use crate::u3v::register_map::sirm;

use super::registers::{answer_le32, answer_le64, u32_reads};
use super::u3v_register_map::{sirm_addressable, Sirm};

verus! {

/// The payload transfer size that the host asks for, before alignment.
pub const PAYLOAD_TRANSFER_SIZE: u32 = 1024 * 64;

/// `x` rounded up with the mask of the power of two `a`.
pub open spec fn align_up32(x: u32, a: u32) -> u32 {
    ((x + (a - 1)) as u32) & !((a - 1) as u32)
}

/// `x` rounded up with the mask of the power of two `a`.
pub open spec fn align_up64(x: u64, a: u64) -> u64 {
    ((x + (a - 1)) as u64) & !((a - 1) as u64)
}

/// Rounding up to a power of two gives a multiple of it, no smaller and less than one step
/// larger.
pub proof fn lemma_align_up32(x: u32, e: u32)
    requires
        e < 32,
        x + (1u32 << e) - 1 <= u32::MAX,
    ensures
        align_up32(x, 1u32 << e) % (1u32 << e) == 0,
        x <= align_up32(x, 1u32 << e),
        align_up32(x, 1u32 << e) < x + (1u32 << e),
{
    let a = 1u32 << e;
    assert(a > 0 && (a & ((a - 1) as u32)) == 0) by (bit_vector)
        requires
            e < 32,
            a == 1u32 << e,
    ;
    assert(((x + (a - 1)) as u32 & !((a - 1) as u32)) % a == 0 && x <= ((x + (a - 1)) as u32 & !(
    (a - 1) as u32)) && ((x + (a - 1)) as u32 & !((a - 1) as u32)) < x + a) by (bit_vector)
        requires
            a > 0,
            (a & ((a - 1) as u32)) == 0,
            x + a - 1 <= u32::MAX,
    ;
}

/// The `SIRM` sizes that the host writes to configure a stream.
#[derive(Clone, Copy, Debug, PartialEq, Eq, Structural)]
pub struct SirmSizes {
    pub payload_transfer_size: u32,
    pub payload_transfer_count: u32,
    pub payload_final_transfer1_size: u32,
    pub payload_final_transfer2_size: u32,
    pub maximum_leader_size: u32,
    pub maximum_trailer_size: u32,
}

/// The sizes that [`streaming_config`] computes with the alignment `a` from the required
/// sizes.
pub open spec fn streaming_config_spec(
    a: u32,
    required_leader_size: u32,
    required_payload_size: u64,
    required_trailer_size: u32,
) -> SirmSizes {
    let pts = align_up32(PAYLOAD_TRANSFER_SIZE, a);
    SirmSizes {
        payload_transfer_size: pts,
        payload_transfer_count: (required_payload_size / (pts as u64)) as u32,
        payload_final_transfer1_size: align_up32((required_payload_size % (pts as u64)) as u32, a),
        payload_final_transfer2_size: 0,
        maximum_leader_size: if required_leader_size == 0 {
            pts
        } else {
            align_up32(required_leader_size, a)
        },
        maximum_trailer_size: if required_trailer_size == 0 {
            pts
        } else {
            align_up32(required_trailer_size, a)
        },
    }
}

/// Computes the `SIRM` sizes for a payload alignment of `1 << exp` bytes: transfers of 64 KiB
/// rounded up to the alignment, as many as the payload fills, a first final transfer for the
/// rest rounded up, no second final transfer, and leader and trailer sizes rounded up (a
/// required size of zero gets a whole transfer).
pub fn streaming_config(
    exp: u32,
    required_leader_size: u32,
    required_payload_size: u64,
    required_trailer_size: u32,
) -> (r: SirmSizes)
    requires
        exp < 32,
        required_leader_size + (1u32 << exp) - 1 <= u32::MAX,
        required_trailer_size + (1u32 << exp) - 1 <= u32::MAX,
        PAYLOAD_TRANSFER_SIZE + (1u32 << exp) - 1 <= u32::MAX,
    ensures
        r == streaming_config_spec(1u32 << exp, required_leader_size, required_payload_size, required_trailer_size),
        r.maximum_leader_size >= required_leader_size,
        r.maximum_leader_size % (1u32 << exp) == 0,
        r.maximum_trailer_size >= required_trailer_size,
        r.maximum_trailer_size % (1u32 << exp) == 0,
{
    proof {
        lemma_align_up32(required_leader_size, exp);
        lemma_align_up32(required_trailer_size, exp);
    }
    let a: u32 = 1u32 << exp;
    assert(a > 0) by (bit_vector)
        requires
            exp < 32,
            a == 1u32 << exp,
    ;
    let mask = a - 1;
    let pts = (PAYLOAD_TRANSFER_SIZE + mask) & !mask;
    proof {
        lemma_align_up32(PAYLOAD_TRANSFER_SIZE, exp);
    }
    let payload_transfer_count = (required_payload_size / pts as u64) as u32;
    let rest = (required_payload_size % pts as u64) as u32;
    assert(pts <= 0x8000_0000) by (bit_vector)
        requires
            a > 0,
            PAYLOAD_TRANSFER_SIZE + a - 1 <= u32::MAX,
            pts == (PAYLOAD_TRANSFER_SIZE + (a - 1)) as u32 & !((a - 1) as u32),
    ;
    assert(a <= 0x8000_0000) by (bit_vector)
        requires
            exp < 32,
            a == 1u32 << exp,
    ;
    assert(rest < pts);
    let final1 = (rest + mask) & !mask;
    let maximum_leader_size = if required_leader_size == 0 {
        pts
    } else {
        (required_leader_size + mask) & !mask
    };
    let maximum_trailer_size = if required_trailer_size == 0 {
        pts
    } else {
        (required_trailer_size + mask) & !mask
    };
    SirmSizes {
        payload_transfer_size: pts,
        payload_transfer_count,
        payload_final_transfer1_size: final1,
        payload_final_transfer2_size: 0,
        maximum_leader_size,
        maximum_trailer_size,
    }
}

/// The size values that a device checks against the required sizes before it enables a
/// stream.
#[derive(Clone, Copy, Debug, PartialEq, Eq, Structural)]
pub struct SirmState {
    pub sizes: SirmSizes,
    pub required_leader_size: u32,
    pub required_trailer_size: u32,
    pub required_payload_size: u64,
}

/// Every writable size is a multiple of `alignment`.
pub open spec fn sizes_aligned(s: SirmSizes, alignment: u32) -> bool {
    &&& s.maximum_leader_size % alignment == 0
    &&& s.payload_transfer_size % alignment == 0
    &&& s.payload_final_transfer1_size % alignment == 0
    &&& s.payload_final_transfer2_size % alignment == 0
    &&& s.maximum_trailer_size % alignment == 0
}

/// The payload bytes that the transfers of `s` can carry.
pub open spec fn specified_payload_size(s: SirmSizes) -> int {
    s.payload_transfer_size * s.payload_transfer_count + s.payload_final_transfer1_size
        + s.payload_final_transfer2_size
}

/// The sizes leave room for the required leader, trailer and payload.
pub open spec fn sizes_sufficient(st: SirmState) -> bool {
    &&& st.sizes.maximum_leader_size >= st.required_leader_size
    &&& st.sizes.maximum_trailer_size >= st.required_trailer_size
    &&& specified_payload_size(st.sizes) >= st.required_payload_size
}

/// A device's check that the writable sizes are multiples of its alignment.
pub fn verify_alignment(sizes: &SirmSizes, alignment: u32) -> (r: bool)
    requires
        alignment > 0,
    ensures
        r == sizes_aligned(*sizes, alignment),
{
    !(sizes.maximum_leader_size % alignment != 0 || sizes.payload_transfer_size % alignment != 0
        || sizes.payload_final_transfer1_size % alignment != 0
        || sizes.payload_final_transfer2_size % alignment != 0 || sizes.maximum_trailer_size
        % alignment != 0)
}

/// A device's check that the sizes leave room for the required leader, trailer and payload.
pub fn verify_size(state: &SirmState) -> (r: bool)
    ensures
        r == sizes_sufficient(*state),
{
    if state.sizes.maximum_leader_size < state.required_leader_size {
        return false;
    }
    if state.sizes.maximum_trailer_size < state.required_trailer_size {
        return false;
    }
    let s = state.sizes;
    assert(s.payload_transfer_size as u64 * s.payload_transfer_count as u64 <= 0xffff_fffe_0000_0001)
        by (nonlinear_arith);
    let specified_payload_size = s.payload_transfer_size as u64 * s.payload_transfer_count as u64
        + s.payload_final_transfer1_size as u64 + s.payload_final_transfer2_size as u64;
    specified_payload_size >= state.required_payload_size
}

/// The sizes that the host computes for an alignment of `1 << exp` pass a device's checks with
/// that alignment, when the payload needs no more transfers than a `u32` counts.
pub proof fn lemma_streaming_config_accepted(
    exp: u32,
    required_leader_size: u32,
    required_payload_size: u64,
    required_trailer_size: u32,
)
    requires
        exp < 32,
        required_leader_size + (1u32 << exp) - 1 <= u32::MAX,
        required_trailer_size + (1u32 << exp) - 1 <= u32::MAX,
        PAYLOAD_TRANSFER_SIZE + (1u32 << exp) - 1 <= u32::MAX,
        required_payload_size / (align_up32(PAYLOAD_TRANSFER_SIZE, 1u32 << exp) as u64)
            <= u32::MAX,
    ensures
        ({
            let sizes = streaming_config_spec(
                1u32 << exp,
                required_leader_size,
                required_payload_size,
                required_trailer_size,
            );
            &&& sizes_aligned(sizes, 1u32 << exp)
            &&& sizes_sufficient(
                SirmState {
                    sizes,
                    required_leader_size,
                    required_trailer_size,
                    required_payload_size,
                },
            )
        }),
{
    let a = 1u32 << exp;
    lemma_align_up32(PAYLOAD_TRANSFER_SIZE, exp);
    lemma_align_up32(required_leader_size, exp);
    lemma_align_up32(required_trailer_size, exp);
    let pts = align_up32(PAYLOAD_TRANSFER_SIZE, a);
    assert(pts >= PAYLOAD_TRANSFER_SIZE);
    let p = required_payload_size;
    let q = p / (pts as u64);
    let rest = p % (pts as u64);
    assert(p == (pts as u64) * q + rest) by (nonlinear_arith)
        requires
            pts > 0,
            q == p / (pts as u64),
            rest == p % (pts as u64),
    ;
    assert(rest < pts);
    // Rounding the rest up stays within one transfer, which is itself aligned.
    assert(a > 0 && (a & ((a - 1) as u32)) == 0) by (bit_vector)
        requires
            exp < 32,
            a == 1u32 << exp,
    ;
    assert(pts <= 0x8000_0000 && a <= 0x8000_0000) by (bit_vector)
        requires
            a > 0,
            (a & ((a - 1) as u32)) == 0,
            PAYLOAD_TRANSFER_SIZE + a - 1 <= u32::MAX,
            pts == (PAYLOAD_TRANSFER_SIZE + (a - 1)) as u32 & !((a - 1) as u32),
    ;
    let rest32 = rest as u32;
    lemma_align_up32(rest32, exp);
    let r32 = align_up32(rest32, a);
    assert(pts % a == 0);
    assert(r32 <= pts) by (nonlinear_arith)
        requires
            r32 % a == 0,
            pts % a == 0,
            rest32 < pts,
            r32 < rest32 + a,
            a > 0,
    ;
    assert((q as u32) as u64 == q);
    assert(specified_payload_size(
        streaming_config_spec(a, required_leader_size, required_payload_size, required_trailer_size),
    ) >= p);
    assert(0u32 % a == 0);
}

/// The writes that enable a stream of a `SIRM` at `addr` with `sizes`, in order: the payload
/// transfer size and count, the two final transfer sizes, the maximum leader and trailer
/// sizes, then 1 to the control register.
pub open spec fn streaming_writes(addr: u64, sizes: SirmSizes) -> Seq<(u64, Seq<u8>)> {
    seq![
        ((sirm::PAYLOAD_TRANSFER_SIZE.0 + addr) as u64, le32_bytes(sizes.payload_transfer_size)),
        ((sirm::PAYLOAD_TRANSFER_COUNT.0 + addr) as u64, le32_bytes(sizes.payload_transfer_count)),
        ((sirm::PAYLOAD_FINAL_TRANSFER1_SIZE.0 + addr) as u64, le32_bytes(
            sizes.payload_final_transfer1_size,
        )),
        ((sirm::PAYLOAD_FINAL_TRANSFER2_SIZE.0 + addr) as u64, le32_bytes(
            sizes.payload_final_transfer2_size,
        )),
        ((sirm::MAXIMUM_LEADER_SIZE.0 + addr) as u64, le32_bytes(sizes.maximum_leader_size)),
        ((sirm::MAXIMUM_TRAILER_SIZE.0 + addr) as u64, le32_bytes(sizes.maximum_trailer_size)),
        ((sirm::SI_CONTROL.0 + addr) as u64, le32_bytes(1u32)),
    ]
}

/// What [`enable_streaming`] does to the accesses of `log` from `n` on, for a `SIRM` at
/// `addr`, and gives: it reads the stream info register; an alignment exponent above 31 is
/// `InvalidDevice`; it reads the required leader size, the required payload size and the
/// required trailer size; sizes that leave no room to round up are
/// `InvalidDevice`; then it makes the [`streaming_writes`] of [`streaming_config_spec`]. The
/// first read or write that fails ends it with its error.
pub open spec fn streaming_enabled(
    log: Seq<DeviceAccess>,
    n: int,
    addr: u64,
    r: ControlResult<()>,
) -> bool {
    &&& read_at(log, n, (sirm::SI_INFO.0 + addr) as u64, 4)
    &&& match answer_le32(answer_at(log, n)) {
        Err(e) => log.len() == n + 1 && r == Err::<(), ControlError>(e),
        Ok(info) => if info >> 24 > 31 {
            log.len() == n + 1 && (r matches Err(ControlError::InvalidDevice(_)))
        } else {
            let a = 1u32 << (info >> 24);
            &&& read_at(log, n + 1, (sirm::REQUIRED_LEADER_SIZE.0 + addr) as u64, 4)
            &&& match answer_le32(answer_at(log, n + 1)) {
                Err(e) => log.len() == n + 2 && r == Err::<(), ControlError>(e),
                Ok(lead) => {
                    &&& read_at(log, n + 2, (sirm::REQUIRED_PAYLOAD_SIZE.0 + addr) as u64, 8)
                    &&& match answer_le64(answer_at(log, n + 2)) {
                        Err(e) => log.len() == n + 3 && r == Err::<(), ControlError>(e),
                        Ok(payload) => {
                            &&& read_at(log, n + 3, (sirm::REQUIRED_TRAILER_SIZE.0 + addr) as u64, 4)
                            &&& match answer_le32(answer_at(log, n + 3)) {
                                Err(e) => log.len() == n + 4 && r == Err::<(), ControlError>(e),
                                Ok(trail) => if lead > u32::MAX - (a - 1) || trail > u32::MAX - (a
                                    - 1) || PAYLOAD_TRANSFER_SIZE > u32::MAX - (a - 1) {
                                    log.len() == n + 4 && (r matches Err(
                                        ControlError::InvalidDevice(_),
                                    ))
                                } else {
                                    writes_from(
                                        log,
                                        n + 4,
                                        streaming_writes(
                                            addr,
                                            streaming_config_spec(a, lead, payload, trail),
                                        ),
                                    ) == Some(r)
                                },
                            }
                        },
                    }
                },
            }
        },
    }
}

/// `1 << k` exceeds `2^31` exactly for `k` above 31, and equal powers have equal exponents.
proof fn lemma_pow2_usize(k: u32, e: u32)
    by (bit_vector)
    requires
        k < usize::BITS,
        e < 32,
    ensures
        ((1usize << k) > 0x8000_0000) == (k > 31),
        (1usize << e) == (1usize << k) ==> e == k,
{
}

/// Reads the required sizes through `sirm`, writes the sizes that [`streaming_config`] computes
/// and enables the stream, as [`streaming_enabled`] states.
pub fn enable_streaming<Ctrl: DeviceControl + ?Sized>(device: &mut Ctrl, sirm: &Sirm) -> (r:
    ControlResult<()>)
    requires
        sirm_addressable(sirm.spec_addr()),
    ensures
        final(device).accesses().take(old(device).accesses().len() as int) == old(
            device,
        ).accesses(),
        streaming_enabled(
            final(device).accesses(),
            old(device).accesses().len() as int,
            sirm.spec_addr(),
            r,
        ),
{
    let ghost l0 = device.accesses();
    let alignment = sirm.payload_size_alignment(device)?;
    let ghost info = answer_le32(read_answer(device.accesses()))->Ok_0;
    let ghost k = info >> 24;
    proof {
        lemma_pow2_usize(k, 0);
    }
    if alignment > 0x8000_0000 {
        return Err(ControlError::InvalidDevice("payload size alignment is too large"));
    }
    let mut exp: u32 = 0;
    while exp < 31 && (1usize << exp) != alignment
        invariant
            exp <= 31,
            forall|e: u32| e < exp ==> (1usize << e) != alignment,
        decreases 31 - exp,
    {
        exp = exp + 1;
    }
    proof {
        lemma_pow2_usize(k, exp);
        if (1usize << exp) != alignment {
            if k < exp {
                assert((1usize << k) != alignment);
            }
        }
    }
    if (1usize << exp) != alignment {
        return Err(ControlError::InvalidDevice("payload size alignment is not a power of two"));
    }
    assert(exp == k);
    let required_leader_size = sirm.required_leader_size(device)?;
    let required_payload_size = sirm.required_payload_size(device)?;
    let required_trailer_size = sirm.required_trailer_size(device)?;
    let a: u32 = 1u32 << exp;
    assert(a > 0) by (bit_vector)
        requires
            exp <= 31,
            a == 1u32 << exp,
    ;
    if required_leader_size > u32::MAX - (a - 1) || required_trailer_size > u32::MAX - (a - 1)
        || PAYLOAD_TRANSFER_SIZE > u32::MAX - (a - 1) {
        return Err(ControlError::InvalidDevice("required size is too large to align"));
    }
    let sizes = streaming_config(exp, required_leader_size, required_payload_size, required_trailer_size);
    let ghost l4 = device.accesses();
    let r = write_stream_config(device, sirm, sizes);
    assert(device.accesses().take(l0.len() + 4 as int) =~= l4);
    r
}

/// Makes the [`streaming_writes`] of `sizes`, stopping at the first that fails.
fn write_stream_config<Ctrl: DeviceControl + ?Sized>(
    device: &mut Ctrl,
    sirm: &Sirm,
    sizes: SirmSizes,
) -> (r: ControlResult<()>)
    requires
        sirm_addressable(sirm.spec_addr()),
    ensures
        final(device).accesses().take(old(device).accesses().len() as int) == old(
            device,
        ).accesses(),
        writes_from(
            final(device).accesses(),
            old(device).accesses().len() as int,
            streaming_writes(sirm.spec_addr(), sizes),
        ) == Some(r),
{
    proof {
        reveal_with_fuel(writes_from_index, 9);
    }
    sirm.set_payload_transfer_size(device, sizes.payload_transfer_size)?;
    sirm.set_payload_transfer_count(device, sizes.payload_transfer_count)?;
    sirm.set_payload_final_transfer1_size(device, sizes.payload_final_transfer1_size)?;
    sirm.set_payload_final_transfer2_size(device, sizes.payload_final_transfer2_size)?;
    sirm.set_maximum_leader_size(device, sizes.maximum_leader_size)?;
    sirm.set_maximum_trailer_size(device, sizes.maximum_trailer_size)?;
    let ghost l6 = device.accesses();
    let r = sirm.enable_stream(device);
    proof {
        let log = device.accesses();
        let n = old(device).accesses().len() as int;
        let w = streaming_writes(sirm.spec_addr(), sizes);
        assert(log.len() == n + 7);
        assert(w.len() == 7);
        assert(log[n + 6] == (DeviceAccess::Write { address: w[6].0, data: w[6].1, answer: r }));
        assert(writes_from_index(log, n, w, 6) == Some(r));
    }
    r
}

/// Parameters to receive stream packets.
#[derive(Clone, Copy, Debug, PartialEq, Eq, Structural)]
pub struct StreamParams {
    /// Maximum leader size.
    pub leader_size: usize,
    /// Maximum trailer size.
    pub trailer_size: usize,
    /// Payload transfer size.
    pub payload_size: usize,
    /// Payload transfer count.
    pub payload_count: usize,
    /// Payload transfer final1 size.
    pub payload_final1_size: usize,
    /// Payload transfer final2 size.
    pub payload_final2_size: usize,
}

impl StreamParams {
    /// Constructor of `StreamParams`.
    pub fn new(
        leader_size: usize,
        trailer_size: usize,
        payload_size: usize,
        payload_count: usize,
        payload_final1_size: usize,
        payload_final2_size: usize,
    ) -> (r: Self)
        ensures
            r == (StreamParams {
                leader_size,
                trailer_size,
                payload_size,
                payload_count,
                payload_final1_size,
                payload_final2_size,
            }),
    {
        StreamParams {
            leader_size,
            trailer_size,
            payload_size,
            payload_count,
            payload_final1_size,
            payload_final2_size,
        }
    }

    /// Reads the parameters from the `SIRM`: the maximum leader size, the maximum trailer size,
    /// the payload transfer size and count and the two final transfer sizes, in this order;
    /// the first read that fails gives its error.
    pub fn from_sirm<Ctrl: DeviceControl + ?Sized>(sirm: &Sirm, device: &mut Ctrl) -> (r:
        ControlResult<Self>)
        requires
            sirm_addressable(sirm.spec_addr()),
        ensures
            final(device).accesses().take(old(device).accesses().len() as int) == old(
                device,
            ).accesses(),
            match u32_reads(
                final(device).accesses(),
                old(device).accesses().len() as int,
                sirm_param_addrs(sirm.spec_addr()),
            ) {
                Some(Ok(vs)) => r == Ok::<Self, ControlError>(
                    StreamParams {
                        leader_size: vs[0] as usize,
                        trailer_size: vs[1] as usize,
                        payload_size: vs[2] as usize,
                        payload_count: vs[3] as usize,
                        payload_final1_size: vs[4] as usize,
                        payload_final2_size: vs[5] as usize,
                    },
                ),
                Some(Err(e)) => r == Err::<Self, ControlError>(e),
                None => false,
            },
    {
        proof {
            reveal_with_fuel(u32_reads, 7);
        }
        let ghost l0 = device.accesses();
        let ghost addrs = sirm_param_addrs(sirm.spec_addr());
        let leader_size = sirm.maximum_leader_size(device)?;
        let ghost l1 = device.accesses();
        let trailer_size = sirm.maximum_trailer_size(device)?;
        let ghost l2 = device.accesses();
        let payload_size = sirm.payload_transfer_size(device)?;
        let ghost l3 = device.accesses();
        let payload_count = sirm.payload_transfer_count(device)?;
        let ghost l4 = device.accesses();
        let payload_final1_size = sirm.payload_final_transfer1_size(device)?;
        let ghost l5 = device.accesses();
        let payload_final2_size = sirm.payload_final_transfer2_size(device)?;
        Ok(
            StreamParams::new(
                leader_size as usize,
                trailer_size as usize,
                payload_size as usize,
                payload_count as usize,
                payload_final1_size as usize,
                payload_final2_size as usize,
            ),
        )
    }
}

/// The registers that [`StreamParams::from_sirm`] reads, in order, for a `SIRM` at `addr`.
pub open spec fn sirm_param_addrs(addr: u64) -> Seq<u64> {
    seq![
        (sirm::MAXIMUM_LEADER_SIZE.0 + addr) as u64,
        (sirm::MAXIMUM_TRAILER_SIZE.0 + addr) as u64,
        (sirm::PAYLOAD_TRANSFER_SIZE.0 + addr) as u64,
        (sirm::PAYLOAD_TRANSFER_COUNT.0 + addr) as u64,
        (sirm::PAYLOAD_FINAL_TRANSFER1_SIZE.0 + addr) as u64,
        (sirm::PAYLOAD_FINAL_TRANSFER2_SIZE.0 + addr) as u64,
    ]
}

} // verus!
