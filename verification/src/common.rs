//! Small value types shared by both transport layers.

use vstd::prelude::*;

verus! {

/// A `major.minor.patch` version number as reported by devices; versions order
/// lexicographically by `(major, minor, patch)`.
#[derive(Clone, Copy, Debug, PartialEq, Eq, Structural)]
pub struct Version {
    /// Major version.
    pub major: u64,
    /// Minor version.
    pub minor: u64,
    /// Patch version.
    pub patch: u64,
}

/// `a` orders at or below `b`.
pub open spec fn version_le(a: Version, b: Version) -> bool {
    ||| a.major < b.major
    ||| a.major == b.major && a.minor < b.minor
    ||| a.major == b.major && a.minor == b.minor && a.patch <= b.patch
}

impl Version {
    /// Constructs a version.
    pub fn new(major: u64, minor: u64, patch: u64) -> (v: Self)
        ensures
            v == (Version { major, minor, patch }),
    {
        Version { major, minor, patch }
    }

    /// Returns `true` if `self` orders at or below `other`.
    pub fn le(&self, other: &Version) -> (r: bool)
        ensures
            r == version_le(*self, *other),
            r <==> (self.major < other.major || (self.major == other.major && self.minor
                < other.minor) || (self.major == other.major && self.minor == other.minor
                && self.patch <= other.patch)),
    {
        self.major < other.major || (self.major == other.major && (self.minor < other.minor || (
        self.minor == other.minor && self.patch <= other.patch)))
    }
}

/// Versions order as the triples (major, minor, patch) do, lexicographically: a larger major
/// wins, then a larger minor, then a larger patch. So the order is total, two versions each at
/// or below the other are the same version, it is transitive, and of two versions that differ
/// only in their patch the one with the larger patch is strictly newer.
pub proof fn lemma_version_order(a: Version, b: Version, c: Version)
    ensures
        version_le(a, b) <==> (a.major < b.major || (a.major == b.major && a.minor < b.minor) || (
        a.major == b.major && a.minor == b.minor && a.patch <= b.patch)),
        version_le(a, b) || version_le(b, a),
        version_le(a, b) && version_le(b, a) ==> a == b,
        version_le(a, b) && version_le(b, c) ==> version_le(a, c),
        a.major == b.major && a.minor == b.minor && a.patch < b.patch ==> !version_le(b, a),
        a.major == b.major && a.minor < b.minor ==> !version_le(b, a),
        a.major < b.major ==> !version_le(b, a),
{
}

/// Byte order of a device.
#[derive(Clone, Copy, Debug, PartialEq, Eq, Structural)]
pub enum Endianness {
    /// Little endian.
    LE,
    /// Big endian.
    BE,
}

/// Character encoding of device strings.
#[derive(Clone, Copy, Debug, PartialEq, Eq, Structural)]
pub enum CharacterEncoding {
    /// UTF-8.
    Utf8,
    /// ASCII.
    Ascii,
}

/// Represent file type of `GenICam` XML file on the device's memory.
#[derive(Clone, Copy, Debug, PartialEq, Eq, Structural)]
pub enum GenICamFileType {
    /// This is the "normal" `GenICam` device XML containing all device features.
    DeviceXml,
    /// This is optional XML-file that contains only the chunkdata related nodes.
    BufferXml,
}

/// Represent `CompressionType` of `GenICam` XML file on the device's memory.
#[derive(Clone, Copy, Debug, PartialEq, Eq, Structural)]
pub enum CompressionType {
    /// Uncompressed `GenICam` XML file.
    Uncompressed,
    /// ZIP containing a single `GenICam` XML file.
    Zip,
}

} // verus!
