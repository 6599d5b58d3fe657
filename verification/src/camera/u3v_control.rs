//! The state that a `USB3 Vision` control handle keeps besides its channel: the register maps
//! it found once and the connection settings it read from the device.

use vstd::prelude::*;

use crate::control::{answer_at, read_at, read_answer, read_logged, AccessLog, ControlError, ControlResult, DeviceAccess, DeviceControl};
use crate::u3v::register_map::{abrm, sbrm};

use super::registers::{answer_le64, u32_reads};

use super::u3v_register_map::{Abrm, ManifestTable, Sbrm, Sirm};

verus! {

/// Settings of the connection with a device.
#[derive(Clone, Copy, Debug, PartialEq, Eq, Structural)]
pub struct ConnectionConfig {
    /// Timeout of each transaction, in milliseconds.
    pub timeout_duration_ms: u64,
    /// How many times a pending acknowledge is waited for.
    pub retry_count: u16,
    /// Maximum length of a command sent to the device, in bytes.
    pub maximum_cmd_length: u32,
    /// Maximum length of an acknowledge sent by the device, in bytes.
    pub maximum_ack_length: u32,
}

impl Default for ConnectionConfig {
    /// 500 ms, 3 retries and 128 bytes each way, until the device tells its own values.
    fn default() -> (r: Self)
        ensures
            r == (ConnectionConfig {
                timeout_duration_ms: 500,
                retry_count: 3,
                maximum_cmd_length: 128,
                maximum_ack_length: 128,
            }),
    {
        ConnectionConfig {
            timeout_duration_ms: 500,
            retry_count: 3,
            maximum_cmd_length: 128,
            maximum_ack_length: 128,
        }
    }
}

/// The register maps of a device, each read once and then kept.
#[derive(Clone, Copy, Debug)]
pub struct RegisterCache {
    abrm: Option<Abrm>,
    sbrm: Option<Sbrm>,
    sirm: Option<Sirm>,
    manifest_table: Option<ManifestTable>,
}

impl RegisterCache {
    /// A kept `SBRM` lies within the address space.
    #[verifier::type_invariant]
    closed spec fn inv(&self) -> bool {
        self.sbrm matches Some(s) ==> s.spec_addr() <= u64::MAX - 0x44
    }

    pub closed spec fn spec_abrm(&self) -> Option<Abrm> {
        self.abrm
    }

    pub closed spec fn spec_sbrm(&self) -> Option<Sbrm> {
        self.sbrm
    }

    pub closed spec fn spec_sirm(&self) -> Option<Sirm> {
        self.sirm
    }

    pub closed spec fn spec_manifest_table(&self) -> Option<ManifestTable> {
        self.manifest_table
    }

    /// Nothing kept yet.
    pub fn new() -> (r: Self)
        ensures
            r.spec_abrm() is None,
            r.spec_sbrm() is None,
            r.spec_sirm() is None,
            r.spec_manifest_table() is None,
    {
        RegisterCache { abrm: None, sbrm: None, sirm: None, manifest_table: None }
    }

    /// The `ABRM`: the kept one, else one read now and kept.
    pub fn abrm<Ctrl: DeviceControl + ?Sized>(&mut self, device: &mut Ctrl) -> (r: ControlResult<
        Abrm,
    >)
        ensures
            old(self).spec_abrm() matches Some(a) ==> r == Ok::<Abrm, ControlError>(a) && *final(self) == *old(self),
            old(self).spec_abrm() is Some ==> final(device).accesses() == old(device).accesses(),
            old(self).spec_abrm() is None ==> read_logged(
                old(device).accesses(),
                final(device).accesses(),
                abrm::DEVICE_CAPABILITY.0,
                8,
            ) && (r matches Err(e) ==> read_answer(final(device).accesses()) == Err::<
                Seq<u8>,
                ControlError,
            >(e)) && (r is Ok ==> read_answer(final(device).accesses()) is Ok),
            r matches Ok(a) ==> final(self).spec_abrm() == Some(a),
            final(self).spec_sbrm() == old(self).spec_sbrm(),
            final(self).spec_sirm() == old(self).spec_sirm(),
            final(self).spec_manifest_table() == old(self).spec_manifest_table(),
    {
        proof {
            use_type_invariant(&*self);
        }
        if let Some(abrm) = self.abrm {
            return Ok(abrm);
        }
        let abrm = Abrm::new(device)?;
        self.abrm = Some(abrm);
        Ok(abrm)
    }

    /// The `SBRM`: the kept one, else one found through the `ABRM` and kept.
    pub fn sbrm<Ctrl: DeviceControl + ?Sized>(&mut self, device: &mut Ctrl) -> (r: ControlResult<
        Sbrm,
    >)
        ensures
            old(self).spec_sbrm() matches Some(s) ==> r == Ok::<Sbrm, ControlError>(s) && *final(self) == *old(self),
            r matches Ok(s) ==> final(self).spec_sbrm() == Some(s) && s.spec_addr() <= u64::MAX
                - 0x44,
            final(self).spec_sirm() == old(self).spec_sirm(),
            final(self).spec_manifest_table() == old(self).spec_manifest_table(),
    {
        proof {
            use_type_invariant(&*self);
        }
        if let Some(sbrm) = self.sbrm {
            return Ok(sbrm);
        }
        let abrm = self.abrm(device)?;
        let addr = abrm.sbrm_address(device)?;
        let sbrm = Sbrm::new(device, addr)?;
        self.sbrm = Some(sbrm);
        Ok(sbrm)
    }

    /// The `SIRM`: the kept one, else the one the `SBRM` points to, kept. A device without a
    /// `SIRM` is `InvalidDevice`.
    pub fn sirm<Ctrl: DeviceControl + ?Sized>(&mut self, device: &mut Ctrl) -> (r: ControlResult<
        Sirm,
    >)
        ensures
            old(self).spec_sirm() matches Some(s) ==> r == Ok::<Sirm, ControlError>(s) && *final(self) == *old(self),
            r matches Ok(s) ==> final(self).spec_sirm() == Some(s),
            final(self).spec_manifest_table() == old(self).spec_manifest_table(),
    {
        if let Some(sirm) = self.sirm {
            return Ok(sirm);
        }
        let sbrm = self.sbrm(device)?;
        let addr = match sbrm.sirm_address(device)? {
            Some(addr) => addr,
            None => return Err(ControlError::InvalidDevice("the u3v device doesn't have `SIRM ADDRESS`")),
        };
        let sirm = Sirm::new(addr);
        self.sirm = Some(sirm);
        Ok(sirm)
    }

    /// The manifest table: the kept one, else the one the `ABRM` points to, kept.
    pub fn manifest_table<Ctrl: DeviceControl + ?Sized>(&mut self, device: &mut Ctrl) -> (r:
        ControlResult<ManifestTable>)
        ensures
            old(self).spec_manifest_table() matches Some(t) ==> r == Ok::<
                ManifestTable,
                ControlError,
            >(t) && *final(self) == *old(self),
            r matches Ok(t) ==> final(self).spec_manifest_table() == Some(t),
            final(self).spec_sbrm() == old(self).spec_sbrm(),
            final(self).spec_sirm() == old(self).spec_sirm(),
    {
        proof {
            use_type_invariant(&*self);
        }
        if let Some(table) = self.manifest_table {
            return Ok(table);
        }
        let abrm = self.abrm(device)?;
        let addr = abrm.manifest_table_address(device)?;
        let table = ManifestTable::new(addr);
        self.manifest_table = Some(table);
        Ok(table)
    }

    /// Reads the response time and the transfer lengths of the device into `config`; the
    /// retry count stays. The `ABRM` is the kept one or read now, then the `SBRM` address and
    /// the `SBRM` capability there, then the maximum device response time, the maximum command
    /// transfer length and the maximum acknowledge transfer length, as [`config_initialized`]
    /// states. The first access that fails gives its error, an `SBRM` out of the address space
    /// gives `InvalidDevice`, and on an error `config` is left as it was.
    pub fn initialize_config<Ctrl: DeviceControl + ?Sized>(
        &mut self,
        device: &mut Ctrl,
        config: &mut ConnectionConfig,
    ) -> (r: ControlResult<()>)
        ensures
            final(device).accesses().take(old(device).accesses().len() as int) == old(
                device,
            ).accesses(),
            old(self).spec_abrm() is Some ==> config_initialized(
                final(device).accesses(),
                old(device).accesses().len() as int,
                r,
                *old(config),
                *final(config),
            ),
            old(self).spec_abrm() is None ==> {
                let n = old(device).accesses().len() as int;
                &&& read_at(final(device).accesses(), n, abrm::DEVICE_CAPABILITY.0, 8)
                &&& match answer_at(final(device).accesses(), n) {
                    Err(e) => final(device).accesses().len() == n + 1 && r == Err::<(), ControlError>(e)
                        && *final(config) == *old(config),
                    Ok(_) => config_initialized(
                        final(device).accesses(),
                        n + 1,
                        r,
                        *old(config),
                        *final(config),
                    ),
                }
            },
    {
        proof {
            reveal_with_fuel(u32_reads, 4);
        }
        let ghost l0 = device.accesses();
        let ghost n = l0.len() as int;
        let abrm = match self.abrm(device) {
            Ok(a) => a,
            Err(e) => {
                assert(device.accesses().take(n) =~= l0);
                assert(device.accesses()[n] == device.accesses().last());
                proof { if old(self).spec_abrm() is None {
                    assert(read_logged(l0, device.accesses(), abrm::DEVICE_CAPABILITY.0, 8));
                    assert(read_answer(device.accesses()) == Err::<Seq<u8>, ControlError>(e));
                    assert(answer_at(device.accesses(), n) == Err::<Seq<u8>, ControlError>(e));
                    assert(read_at(device.accesses(), n, abrm::DEVICE_CAPABILITY.0, 8));
                    assert(device.accesses().len() == n + 1);
                    assert(n == old(device).accesses().len());
                    assert(*config == *old(config));
                } }
                return Err(e);
            },
        };
        let ghost l1 = device.accesses();
        let ghost m = l1.len() as int;
        assert(l1.take(n) =~= l0);
        assert(m > n ==> l1[n] == l1.last());
        let addr = match abrm.sbrm_address(device) {
            Ok(a) => a,
            Err(e) => {
                assert(device.accesses().take(n) =~= l0);
                assert(device.accesses().take(m) =~= l1);
                assert(m > n ==> device.accesses()[n] == l1[n]);
                assert(device.accesses()[m] == device.accesses().last());
                return Err(e);
            },
        };
        let ghost l2 = device.accesses();
        assert(l2[m] == l2.last());
        assert(m > n ==> l2[n] == l1[n]);
        let sbrm = match Sbrm::new(device, addr) {
            Ok(s) => s,
            Err(e) => {
                assert(device.accesses().take(n) =~= l0);
                assert(device.accesses().take(m) =~= l1);
                assert(device.accesses()[m] == l2[m]);
                assert(m > n ==> device.accesses()[n] == l1[n]);
                assert(device.accesses().len() > m + 1 ==> device.accesses()[m + 1] == device.accesses().last());
                return Err(e);
            },
        };
        let ghost l3 = device.accesses();
        assert(l3.take(n) =~= l0);
        assert(l3.take(m) =~= l1);
        let timeout_duration_ms = match abrm.maximum_device_response_time(device) {
            Ok(v) => v,
            Err(e) => {
                assert(device.accesses().take(n) =~= l0);
                assert(device.accesses().take(m) =~= l1);
                return Err(e);
            },
        };
        let maximum_cmd_length = match sbrm.maximum_command_transfer_length(device) {
            Ok(v) => v,
            Err(e) => {
                assert(device.accesses().take(n) =~= l0);
                assert(device.accesses().take(m) =~= l1);
                return Err(e);
            },
        };
        let maximum_ack_length = match sbrm.maximum_acknowledge_trasfer_length(device) {
            Ok(v) => v,
            Err(e) => {
                assert(device.accesses().take(n) =~= l0);
                assert(device.accesses().take(m) =~= l1);
                return Err(e);
            },
        };
        config.timeout_duration_ms = timeout_duration_ms;
        config.maximum_cmd_length = maximum_cmd_length;
        config.maximum_ack_length = maximum_ack_length;
        assert(device.accesses().take(n) =~= l0);
        assert(device.accesses().take(m) =~= l1);
        Ok(())
    }
}

/// What [`RegisterCache::initialize_config`] does to the accesses of `log` from `m` on, once it
/// has the `ABRM`, and gives: it reads the `SBRM` address; an address whose registers would run
/// past `u64::MAX` is `InvalidDevice`; it reads the `SBRM` capability there, then the maximum
/// device response time and the maximum command and acknowledge transfer lengths of that
/// `SBRM`; the first read that fails gives its error. On success the config `new_c` holds the
/// three values and the retry count of `old_c`; on an error it is `old_c`.
pub open spec fn config_initialized(
    log: AccessLog,
    m: int,
    r: ControlResult<()>,
    old_c: ConnectionConfig,
    new_c: ConnectionConfig,
) -> bool {
    &&& read_at(log, m, abrm::SBRM_ADDRESS.0, 8)
    &&& match answer_le64(answer_at(log, m)) {
        Err(e) => log.len() == m + 1 && r == Err::<(), ControlError>(e) && new_c == old_c,
        Ok(a) => if a > u64::MAX - 0x44 {
            log.len() == m + 1 && (r matches Err(ControlError::InvalidDevice(_))) && new_c == old_c
        } else {
            &&& read_at(log, m + 1, (sbrm::U3VCP_CAPABILITY_REGISTER.0 + a) as u64, 8)
            &&& match answer_at(log, m + 1) {
                Err(e) => log.len() == m + 2 && r == Err::<(), ControlError>(e) && new_c == old_c,
                Ok(_) => match u32_reads(
                    log,
                    m + 2,
                    seq![
                        abrm::MAXIMUM_DEVICE_RESPONSE_TIME.0,
                        (sbrm::MAXIMUM_COMMAND_TRANSFER_LENGTH.0 + a) as u64,
                        (sbrm::MAXIMUM_ACKNOWLEDGE_TRANSFER_LENGTH.0 + a) as u64,
                    ],
                ) {
                    Some(Ok(vs)) => r is Ok && new_c == (ConnectionConfig {
                        timeout_duration_ms: vs[0] as u64,
                        retry_count: old_c.retry_count,
                        maximum_cmd_length: vs[1],
                        maximum_ack_length: vs[2],
                    }),
                    Some(Err(e)) => r == Err::<(), ControlError>(e) && new_c == old_c,
                    None => false,
                },
            }
        },
    }
}

} // verus!
