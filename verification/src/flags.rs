//! The capability flags of a camera model.
//!
//! Each flag is one bit of a 32-bit word, at the position the SDK gives it.

use vstd::prelude::*;

verus! {

/// CMOS sensor.
pub const FLAG_CMOS: u32 = 0x0000_0001;

/// Progressive CCD sensor.
pub const FLAG_CCD_PROGRESSIVE: u32 = 0x0000_0002;

/// Interlaced CCD sensor.
pub const FLAG_CCD_INTERLACED: u32 = 0x0000_0004;

/// Hardware region of interest.
pub const FLAG_ROI_HARDWARE: u32 = 0x0000_0008;

/// Monochromatic sensor.
pub const FLAG_MONO: u32 = 0x0000_0010;

/// Bin and skip sampling modes.
pub const FLAG_BINSKIP_SUPPORTED: u32 = 0x0000_0020;

/// USB 3.0.
pub const FLAG_USB30: u32 = 0x0000_0040;

/// Cooled sensor.
pub const FLAG_COOLED: u32 = 0x0000_0080;

/// USB 3.0 camera connected to a USB 2.0 port.
pub const FLAG_USB30_OVER_USB20: u32 = 0x0000_0100;

/// ST4 guiding port.
pub const FLAG_ST4: u32 = 0x0000_0200;

/// The sensor temperature can be read.
pub const FLAG_GETTEMPERATURE: u32 = 0x0000_0400;

/// The sensor temperature can be set.
pub const FLAG_PUTTEMPERATURE: u32 = 0x0000_0800;

/// Maximum bit depth of 10.
pub const FLAG_BITDEPTH10: u32 = 0x0000_1000;

/// Maximum bit depth of 12.
pub const FLAG_BITDEPTH12: u32 = 0x0000_2000;

/// Maximum bit depth of 14.
pub const FLAG_BITDEPTH14: u32 = 0x0000_4000;

/// Maximum bit depth of 16.
pub const FLAG_BITDEPTH16: u32 = 0x0000_8000;

/// Cooling fan.
pub const FLAG_FAN: u32 = 0x0001_0000;

/// The cooler can be switched on and off.
pub const FLAG_COOLERONOFF: u32 = 0x0002_0000;

/// Image signal processing.
pub const FLAG_ISP: u32 = 0x0004_0000;

/// Trigger mode.
pub const FLAG_TRIGGER: u32 = 0x0008_0000;

/// Every bit that names a capability.
pub const FLAGS_ALL: u32 = 0x000f_ffff;

/// A set of capability flags. It never holds a bit that names no capability.
#[derive(Copy, Clone, PartialEq, Eq, Debug, Hash)]
pub struct Flags {
    bits: u32,
}

impl Flags {
    /// The word that holds the set, one bit per flag.
    pub closed spec fn bits_spec(&self) -> u32 {
        self.bits
    }

    /// Whether a word sets capability bits only.
    pub open spec fn known(bits: u32) -> bool {
        bits & !FLAGS_ALL == 0
    }

    /// Whether every bit of `flags` is in the set.
    pub open spec fn contains_spec(&self, flags: u32) -> bool {
        self.bits_spec() & flags == flags
    }

    #[verifier::type_invariant]
    spec fn holds_known_bits(self) -> bool {
        Flags::known(self.bits)
    }

    /// The set that a word stands for, or `None` if the word sets a bit that
    /// names no capability.
    pub fn from_bits(bits: u32) -> (flags: Option<Flags>)
        ensures
            Flags::known(bits) ==> (flags matches Some(f) && f.bits_spec() == bits),
            !Flags::known(bits) ==> flags is None,
    {
        if bits & !FLAGS_ALL == 0 {
            Some(Flags { bits })
        } else {
            None
        }
    }

    #[verifier::when_used_as_spec(bits_spec)]
    pub fn bits(&self) -> (bits: u32)
        ensures
            bits == self.bits_spec(),
            Flags::known(bits),
    {
        proof {
            use_type_invariant(self);
        }
        self.bits
    }

    #[verifier::when_used_as_spec(contains_spec)]
    pub fn contains(&self, flags: u32) -> (all: bool)
        ensures
            all == self.contains_spec(flags),
    {
        self.bits & flags == flags
    }
}

/// The bits that a set may hold are those of the twenty named capabilities.
pub proof fn lemma_flags_cover_all()
    ensures
        FLAGS_ALL == FLAG_CMOS | FLAG_CCD_PROGRESSIVE | FLAG_CCD_INTERLACED | FLAG_ROI_HARDWARE
            | FLAG_MONO | FLAG_BINSKIP_SUPPORTED | FLAG_USB30 | FLAG_COOLED
            | FLAG_USB30_OVER_USB20 | FLAG_ST4 | FLAG_GETTEMPERATURE | FLAG_PUTTEMPERATURE
            | FLAG_BITDEPTH10 | FLAG_BITDEPTH12 | FLAG_BITDEPTH14 | FLAG_BITDEPTH16 | FLAG_FAN
            | FLAG_COOLERONOFF | FLAG_ISP | FLAG_TRIGGER,
{
    assert(0x000f_ffffu32 == 0x1u32 | 0x2u32 | 0x4u32 | 0x8u32 | 0x10u32 | 0x20u32 | 0x40u32
        | 0x80u32 | 0x100u32 | 0x200u32 | 0x400u32 | 0x800u32 | 0x1000u32 | 0x2000u32 | 0x4000u32
        | 0x8000u32 | 0x1_0000u32 | 0x2_0000u32 | 0x4_0000u32 | 0x8_0000u32) by (bit_vector);
}

} // verus!
