//! `GigE` register layouts and the bit fields of bootstrap registers.

pub mod action_group;
pub mod bootstrap;
pub mod stream;

use vstd::prelude::*;

use crate::common::{CharacterEncoding, Endianness};

verus! {

/// Device mode register.
#[derive(Clone, Copy, Debug, PartialEq, Eq, Structural)]
pub struct DeviceMode(pub u32);

/// Device class of a `GigE` device.
#[derive(Clone, Copy, Debug, PartialEq, Eq, Structural)]
pub enum DeviceClass {
    Transmitter,
    Receiver,
    Transceiver,
    Peripheral,
}

/// Link configuration of a `GigE` device.
#[derive(Clone, Copy, Debug, PartialEq, Eq, Structural)]
pub enum LinkConfiguration {
    SingleLink,
    MultipleLink,
    StaticLAG,
    DynamicLAG,
}

impl DeviceMode {
    /// Wraps a raw register value.
    pub fn from_raw(raw: u32) -> (r: Self)
        ensures
            r.0 == raw,
    {
        DeviceMode(raw)
    }

    /// Endianness bit (bit 31).
    pub fn endianness(self) -> (r: Endianness)
        ensures
            r == (if self.0 >> 31u32 == 0 {
                Endianness::LE
            } else {
                Endianness::BE
            }),
    {
        if self.0 >> 31u32 == 0 {
            Endianness::LE
        } else {
            Endianness::BE
        }
    }

    /// Device class (bits 28..31); the codes 4 to 7 are reserved.
    pub fn device_class(self) -> (r: DeviceClass)
        requires
            (self.0 >> 28u32) & 0b111 < 4,
        ensures
            r == (match (self.0 >> 28u32) & 0b111 {
                0 => DeviceClass::Transmitter,
                1 => DeviceClass::Receiver,
                2 => DeviceClass::Transceiver,
                _ => DeviceClass::Peripheral,
            }),
    {
        let code = (self.0 >> 28u32) & 0b111;
        match code {
            0 => DeviceClass::Transmitter,
            1 => DeviceClass::Receiver,
            2 => DeviceClass::Transceiver,
            _ => DeviceClass::Peripheral,
        }
    }

    /// Link configuration (bits 24..28); the codes 4 to 15 are reserved.
    pub fn link_configuration(self) -> (r: LinkConfiguration)
        requires
            (self.0 >> 24u32) & 0b1111 < 4,
        ensures
            r == (match (self.0 >> 24u32) & 0b1111 {
                0 => LinkConfiguration::SingleLink,
                1 => LinkConfiguration::MultipleLink,
                2 => LinkConfiguration::StaticLAG,
                _ => LinkConfiguration::DynamicLAG,
            }),
    {
        let code = (self.0 >> 24u32) & 0b1111;
        match code {
            0 => LinkConfiguration::SingleLink,
            1 => LinkConfiguration::MultipleLink,
            2 => LinkConfiguration::StaticLAG,
            _ => LinkConfiguration::DynamicLAG,
        }
    }

    /// Character encoding of the device strings (bits 0..8); only the codes 0, 1 and 2 are
    /// defined.
    pub fn char_encoding(self) -> (r: CharacterEncoding)
        requires
            self.0 & 0b1111_1111 <= 2,
        ensures
            r == (if self.0 & 0b1111_1111 == 1 {
                CharacterEncoding::Utf8
            } else {
                CharacterEncoding::Ascii
            }),
    {
        let code = self.0 & 0b1111_1111;
        if code == 1 {
            CharacterEncoding::Utf8
        } else {
            CharacterEncoding::Ascii
        }
    }
}

/// Network interface capability register.
#[derive(Clone, Copy, Debug, PartialEq, Eq, Structural)]
pub struct NicCapability(pub u32);

impl NicCapability {
    /// Wraps a raw register value.
    pub fn from_raw(raw: u32) -> (r: Self)
        ensures
            r.0 == raw,
    {
        NicCapability(raw)
    }

    /// Bit 31.
    pub fn is_pause_reception_supported(self) -> (r: bool)
        ensures
            r == (self.0 >> 31u32 == 1),
    {
        self.0 >> 31u32 == 1
    }

    /// Bit 31 as well: the register layout of the device reads this flag from the same bit.
    pub fn is_pause_generation_supported(self) -> (r: bool)
        ensures
            r == ((self.0 >> 31u32) & 0b1 == 1),
    {
        (self.0 >> 31u32) & 0b1 == 1
    }

    /// Bit 2.
    pub fn is_link_local_address_supported(self) -> (r: bool)
        ensures
            r == ((self.0 >> 2u32) & 0b1 == 1),
    {
        (self.0 >> 2u32) & 0b1 == 1
    }

    /// Bit 1.
    pub fn is_dhcp_supported(self) -> (r: bool)
        ensures
            r == ((self.0 >> 1u32) & 0b1 == 1),
    {
        (self.0 >> 1u32) & 0b1 == 1
    }

    /// Bit 0.
    pub fn is_force_ip_supported(self) -> (r: bool)
        ensures
            r == (self.0 & 0b1 == 1),
    {
        self.0 & 0b1 == 1
    }
}

/// Network interface configuration register.
#[derive(Clone, Copy, Debug, PartialEq, Eq, Structural)]
pub struct NicConfiguration(pub u32);

impl NicConfiguration {
    /// Wraps a raw register value.
    pub fn from_raw(raw: u32) -> (r: Self)
        ensures
            r.0 == raw,
    {
        NicConfiguration(raw)
    }

    /// The raw register value.
    pub fn as_raw(self) -> (r: u32)
        ensures
            r == self.0,
    {
        self.0
    }

    /// Bit 31.
    pub fn is_pause_reception_enabled(self) -> (r: bool)
        ensures
            r == (self.0 >> 31u32 == 1),
    {
        self.0 >> 31u32 == 1
    }

    /// Bit 31 as well: the register layout of the device reads this flag from the same bit.
    pub fn is_pause_generation_enabled(self) -> (r: bool)
        ensures
            r == ((self.0 >> 31u32) & 0b1 == 1),
    {
        (self.0 >> 31u32) & 0b1 == 1
    }

    /// Bit 2.
    pub fn is_link_local_address_enabled(self) -> (r: bool)
        ensures
            r == ((self.0 >> 2u32) & 0b1 == 1),
    {
        (self.0 >> 2u32) & 0b1 == 1
    }

    /// Bit 1.
    pub fn is_dhcp_enabled(self) -> (r: bool)
        ensures
            r == ((self.0 >> 1u32) & 0b1 == 1),
    {
        (self.0 >> 1u32) & 0b1 == 1
    }

    /// Bit 0.
    pub fn is_force_ip_enabled(self) -> (r: bool)
        ensures
            r == (self.0 & 0b1 == 1),
    {
        self.0 & 0b1 == 1
    }
}

} // verus!
