//! Register layouts of a `USB3 Vision` device and the bit fields of its registers.

pub mod abrm;
pub mod eirm;
pub mod manifest_entry;
pub mod sbrm;
pub mod sirm;

use vstd::prelude::*;

use crate::common::{CompressionType, GenICamFileType, Version};

use super::Error;

verus! {

/// Bit `n` of `x`, counted from the least significant bit.
pub open spec fn bit64(x: u64, n: u64) -> bool {
    (x >> n) & 1 == 1
}

/// Configuration of the device.
#[derive(Clone, Copy, Debug, PartialEq, Eq, Structural)]
pub struct DeviceConfiguration(pub u64);

impl DeviceConfiguration {
    /// Bit 1: multi event is enabled on the device.
    pub fn is_multi_event_enabled(self) -> (r: bool)
        ensures
            r == bit64(self.0, 1),
    {
        (self.0 >> 1u64) & 1 == 1
    }

    /// Sets bit 1, the multi event bit.
    pub fn set_multi_event_enable_bit(&mut self)
        ensures
            final(self).0 == old(self).0 | 2,
    {
        self.0 = self.0 | 2;
    }

    /// Clears bit 1, the multi event bit.
    pub fn disable_multi_event(&mut self)
        ensures
            final(self).0 == old(self).0 & !2u64,
    {
        self.0 = self.0 & !2u64;
    }
}

/// Setting the multi event bit turns it on, clearing it turns it off, and neither touches
/// another bit.
pub proof fn lemma_multi_event_bit(x: u64)
    ensures
        bit64(x | 2, 1),
        !bit64(x & !2u64, 1),
        forall|n: u64| n < 64 && n != 1 ==> bit64(x | 2, n) == bit64(x, n),
        forall|n: u64| n < 64 && n != 1 ==> bit64(x & !2u64, n) == bit64(x, n),
{
    assert(((x | 2) >> 1u64) & 1 == 1) by (bit_vector);
    assert(((x & !2u64) >> 1u64) & 1 != 1) by (bit_vector);
    assert forall|n: u64| n < 64 && n != 1 implies bit64(x | 2, n) == bit64(x, n) by {
        assert(n < 64 && n != 1 ==> (((x | 2) >> n) & 1 == 1) == ((x >> n) & 1 == 1))
            by (bit_vector);
    }
    assert forall|n: u64| n < 64 && n != 1 implies bit64(x & !2u64, n) == bit64(x, n) by {
        assert(n < 64 && n != 1 ==> (((x & !2u64) >> n) & 1 == 1) == ((x >> n) & 1 == 1))
            by (bit_vector);
    }
}

/// Indicate some optional features are supported or not.
#[derive(Clone, Copy, Debug, PartialEq, Eq, Structural)]
pub struct DeviceCapability(pub u64);

impl DeviceCapability {
    /// Bit 0: user defined name is supported.
    pub fn is_user_defined_name_supported(self) -> (r: bool)
        ensures
            r == bit64(self.0, 0),
    {
        (self.0 >> 0u64) & 1 == 1
    }

    /// Bit 8: family name is supported.
    pub fn is_family_name_supported(self) -> (r: bool)
        ensures
            r == bit64(self.0, 8),
    {
        (self.0 >> 8u64) & 1 == 1
    }

    /// Bit 12: multiple events in a single event command packet are supported.
    pub fn is_multi_event_supported(self) -> (r: bool)
        ensures
            r == bit64(self.0, 12),
    {
        (self.0 >> 12u64) & 1 == 1
    }

    /// Bit 13: stacked commands (`ReadMemStacked` and `WriteMemStacked`) are supported.
    pub fn is_stacked_commands_supported(self) -> (r: bool)
        ensures
            r == bit64(self.0, 13),
    {
        (self.0 >> 13u64) & 1 == 1
    }

    /// Bit 14: the software interface version register is supported.
    pub fn is_device_software_interface_version_supported(self) -> (r: bool)
        ensures
            r == bit64(self.0, 14),
    {
        (self.0 >> 14u64) & 1 == 1
    }
}

/// Indicate some optional U3V specific features are supported or not.
#[derive(Clone, Copy, Debug, PartialEq, Eq, Structural)]
pub struct U3VCapablitiy(pub u64);

impl U3VCapablitiy {
    /// Bit 0: SIRM is available.
    pub fn is_sirm_available(self) -> (r: bool)
        ensures
            r == bit64(self.0, 0),
    {
        (self.0 >> 0u64) & 1 == 1
    }

    /// Bit 1: EIRM is available.
    pub fn is_eirm_available(self) -> (r: bool)
        ensures
            r == bit64(self.0, 1),
    {
        (self.0 >> 1u64) & 1 == 1
    }

    /// Bit 2: IIDC2 is available.
    pub fn is_iidc2_available(self) -> (r: bool)
        ensures
            r == bit64(self.0, 2),
    {
        (self.0 >> 2u64) & 1 == 1
    }
}

/// The file type that the low three bits of `info` encode, if any.
pub open spec fn file_type_of(info: u32) -> Option<GenICamFileType> {
    let raw = info & 0b111;
    if raw == 0 {
        Some(GenICamFileType::DeviceXml)
    } else if raw == 1 {
        Some(GenICamFileType::BufferXml)
    } else {
        None
    }
}

/// The compression type that bits 10 to 15 of `info` encode, if any.
pub open spec fn compression_type_of(info: u32) -> Option<CompressionType> {
    let raw = (info >> 10) & 0b11_1111;
    if raw == 0 {
        Some(CompressionType::Uncompressed)
    } else if raw == 1 {
        Some(CompressionType::Zip)
    } else {
        None
    }
}

/// The file information register: file type 0 in its low three bits is the device XML and 1
/// the buffer XML; compression 0 in bits 10 to 15 is none and 1 is zip; other codes are none.
pub proof fn lemma_file_info_table(info: u32)
    ensures
        info & 0b111 == 0 ==> file_type_of(info) == Some(GenICamFileType::DeviceXml),
        info & 0b111 == 1 ==> file_type_of(info) == Some(GenICamFileType::BufferXml),
        file_type_of(info) is None <==> info & 0b111 >= 2,
        (info >> 10) & 0x3f == 0 ==> compression_type_of(info) == Some(CompressionType::Uncompressed),
        (info >> 10) & 0x3f == 1 ==> compression_type_of(info) == Some(CompressionType::Zip),
        compression_type_of(info) is None <==> (info >> 10) & 0x3f >= 2,
{
}

/// XML file information.
#[derive(Clone, Copy, Debug, PartialEq, Eq, Structural)]
pub struct GenICamFileInfo(pub u32);

impl GenICamFileInfo {
    /// Type of the XML file; an unknown code is `InvalidDevice`.
    pub fn file_type(&self) -> (r: Result<GenICamFileType, Error>)
        ensures
            match file_type_of(self.0) {
                Some(t) => r == Ok::<GenICamFileType, Error>(t),
                None => r == Err::<GenICamFileType, Error>(Error::InvalidDevice),
            },
    {
        let raw = self.0 & 0b111;
        if raw == 0 {
            Ok(GenICamFileType::DeviceXml)
        } else if raw == 1 {
            Ok(GenICamFileType::BufferXml)
        } else {
            Err(Error::InvalidDevice)
        }
    }

    /// Compression type of the XML File; an unknown code is `InvalidDevice`.
    pub fn compression_type(&self) -> (r: Result<CompressionType, Error>)
        ensures
            match compression_type_of(self.0) {
                Some(t) => r == Ok::<CompressionType, Error>(t),
                None => r == Err::<CompressionType, Error>(Error::InvalidDevice),
            },
    {
        let raw = (self.0 >> 10u32) & 0b11_1111;
        if raw == 0 {
            Ok(CompressionType::Uncompressed)
        } else if raw == 1 {
            Ok(CompressionType::Zip)
        } else {
            Err(Error::InvalidDevice)
        }
    }

    /// `GenICam` schema version of the XML file: bits 24 to 31 the major, 16 to 23 the minor.
    pub fn schema_version(&self) -> (r: Version)
        ensures
            r == (Version {
                major: ((self.0 >> 24) & 0xff) as u64,
                minor: ((self.0 >> 16) & 0xff) as u64,
                patch: 0,
            }),
    {
        let major = (self.0 >> 24u32) & 0xff;
        let minor = (self.0 >> 16u32) & 0xff;
        Version::new(major as u64, minor as u64, 0)
    }
}

} // verus!
