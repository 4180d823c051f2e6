//! Firmware version codec: decoding of the 16-bit packed BCD version field
//! from the USB device descriptor, and the composite ordering used for
//! version-gated commands.

use crate::error::Error;
use vstd::prelude::*;

verus! {

/// A three-part firmware version: major, minor, sub-minor.
///
/// Every 16-bit raw value decodes to some `Version`; there is no error path.
#[derive(Debug, Clone, Copy, PartialEq, Eq, Structural)]
pub struct Version {
    /// Major version (two BCD digits).
    pub major: u8,
    /// Minor version (one BCD digit).
    pub minor: u8,
    /// Sub-minor version (one BCD digit).
    pub sub_minor: u8,
}

/// The major field packed in `raw`: two BCD nibbles, tens then ones.
pub open spec fn bcd_major(raw: u16) -> u8 {
    (10 * ((raw >> 12) & 0xF) + ((raw >> 8) & 0xF)) as u8
}

/// The minor field packed in `raw`: one nibble.
pub open spec fn bcd_minor(raw: u16) -> u8 {
    ((raw >> 4) & 0xF) as u8
}

/// The sub-minor field packed in `raw`: one nibble.
pub open spec fn bcd_sub_minor(raw: u16) -> u8 {
    (raw & 0xF) as u8
}

impl Version {
    /// The composite ordering key `(major << 16) | (minor << 8) | sub_minor`.
    pub open spec fn key(self) -> int {
        self.major as int * 0x10000 + self.minor as int * 0x100 + self.sub_minor as int
    }

    /// Build a version from its three fields.
    pub fn new(major: u8, minor: u8, sub_minor: u8) -> (v: Version)
        ensures
            v == (Version { major, minor, sub_minor }),
    {
        Version { major, minor, sub_minor }
    }

    /// Decode a packed BCD version field `0xJJMN`: two nibbles of major
    /// (tens, ones), one nibble of minor, one nibble of sub-minor.
    pub fn from_bcd(raw: u16) -> (v: Version)
        ensures
            v.major == bcd_major(raw),
            v.minor == bcd_minor(raw),
            v.sub_minor == bcd_sub_minor(raw),
    {
        proof {
            assert(10 * ((raw >> 12) & 0xF) + ((raw >> 8) & 0xF) < 256) by (bit_vector);
        }
        let major: u16 = 10 * ((raw >> 12) & 0xF) + ((raw >> 8) & 0xF);
        Version {
            major: major as u8,
            minor: ((raw >> 4) & 0xF) as u8,
            sub_minor: (raw & 0xF) as u8,
        }
    }

    /// The composite ordering key, computed at run time.
    pub fn to_key(&self) -> (k: u32)
        ensures
            k == self.key(),
    {
        let k: u32 = ((self.major as u32) << 16) | ((self.minor as u32) << 8)
            | (self.sub_minor as u32);
        proof {
            let ma = self.major;
            let mi = self.minor;
            let su = self.sub_minor;
            assert(((ma as u32) << 16) | ((mi as u32) << 8) | (su as u32) == ma as int * 0x10000
                + mi as int * 0x100 + su as int) by (bit_vector);
        }
        k
    }
}

/// Whether a version is the BCD decode of some packed 16-bit field: its
/// three fields are exactly what decoding that raw value yields.
pub open spec fn is_bcd_decoded(v: Version) -> bool {
    exists|raw: u16|
        {
            &&& v.major == #[trigger] bcd_major(raw)
            &&& v.minor == bcd_minor(raw)
            &&& v.sub_minor == bcd_sub_minor(raw)
        }
}

/// The composite ordering key compares versions lexicographically by
/// major, then minor, then sub-minor field.
pub proof fn lemma_key_is_lexicographic(a: Version, b: Version)
    ensures
        a.key() >= b.key() <==> (a.major > b.major || (a.major == b.major && a.minor > b.minor) || (
        a.major == b.major && a.minor == b.minor && a.sub_minor >= b.sub_minor)),
{
}

/// Compare a device version against a required minimum by the composite
/// ordering key. The boundary is inclusive; a too-old device version yields
/// an unsupported-firmware error carrying both versions.
pub fn check_version(device: Version, min: Version) -> (r: Result<(), Error>)
    ensures
        r is Ok <==> device.key() >= min.key(),
        r is Err ==> r == Err::<(), Error>(Error::Version { device, min }),
{
    if device.to_key() >= min.to_key() {
        Ok(())
    } else {
        Err(Error::Version { device, min })
    }
}

} // verus!
