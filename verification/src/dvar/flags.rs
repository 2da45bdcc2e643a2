use vstd::prelude::*;

verus! {

/// The set of flags a dvar carries, as a bit set over `u32`.
///
/// The associated constants name the single bits; `DvarFlags::from_bits`
/// turns one of them (or a union of them) into a flag set.
#[derive(Clone, Copy, PartialEq, Eq, Structural, Debug, Default)]
pub struct DvarFlags {
    pub bits: u32,
}

impl DvarFlags {
    /// Unknown purpose; some dvars are registered with it set.
    pub const ARCHIVE: u32 = 0x00000001;
    /// Unknown purpose; some dvars are registered with it set.
    pub const USER_INFO: u32 = 0x00000002;
    /// Rarely used.
    pub const SERVER_INFO: u32 = 0x00000004;
    /// Related to system information.
    pub const SYSTEM_INFO: u32 = 0x00000008;
    /// The dvar cannot be written from outside, but may still be updated
    /// internally.
    pub const WRITE_PROTECTED: u32 = 0x00000010;
    /// The dvar has a latched value, applied on restart.
    pub const LATCHED: u32 = 0x00000020;
    /// The dvar cannot be modified from outside.
    pub const READ_ONLY: u32 = 0x00000040;
    /// The dvar is protected by the cheat setting.
    pub const CHEAT_PROTECTED: u32 = 0x00000080;
    /// Unknown purpose; some dvars are registered with it set.
    pub const UNKNOWN_00000100_D: u32 = 0x00000100;
    /// The reset value of the dvar may be changed.
    pub const CHANGEABLE_RESET: u32 = 0x00000200;
    /// Unknown purpose; some dvars are registered with it set.
    pub const UNKNOWN_00000400: u32 = 0x00000400;
    /// The dvar may be modified from the developer GUI.
    pub const ALLOW_SET_FROM_DEVGUI: u32 = 0x00000800;
    /// The dvar is preserved across launches.
    pub const SAVED: u32 = 0x00001000;
    /// Unknown purpose; some dvars are registered with it set.
    pub const UNKNOWN_00002000: u32 = 0x00002000;
    /// The dvar was created from outside (developer GUI, other modules).
    pub const EXTERNAL: u32 = 0x00004000;
    /// The dvar was set while an autoexec file was loading.
    pub const AUTOEXEC: u32 = 0x00008000;
    /// The dvar may be accessed while console access is restricted.
    pub const CON_ACCESS: u32 = 0x00010000;

    /// Whether every bit of `other` is set in `self`.
    pub open spec fn spec_contains(self, other: DvarFlags) -> bool {
        self.bits & other.bits == other.bits
    }

    /// Whether the single bit (or bit union) `bit` is set in `self`.
    pub open spec fn has(self, bit: u32) -> bool {
        self.bits & bit == bit
    }

    /// The empty flag set.
    pub fn empty() -> (r: DvarFlags)
        ensures
            r.bits == 0,
    {
        DvarFlags { bits: 0 }
    }

    /// The flag set with exactly the bits of `bits`.
    pub fn from_bits(bits: u32) -> (r: DvarFlags)
        ensures
            r.bits == bits,
    {
        DvarFlags { bits }
    }

    /// Whether the set is empty.
    pub fn is_empty(&self) -> (r: bool)
        ensures
            r == (self.bits == 0),
    {
        self.bits == 0
    }

    /// Whether every flag of `other` is set in `self`.
    pub fn contains(&self, other: DvarFlags) -> (r: bool)
        ensures
            r == self.spec_contains(other),
    {
        self.bits & other.bits == other.bits
    }

    /// Whether the bit (or bit union) `bit` is set in `self`.
    pub fn contains_bits(&self, bit: u32) -> (r: bool)
        ensures
            r == self.has(bit),
    {
        self.bits & bit == bit
    }

    /// The union of both sets.
    pub fn union(&self, other: DvarFlags) -> (r: DvarFlags)
        ensures
            r.bits == self.bits | other.bits,
    {
        DvarFlags { bits: self.bits | other.bits }
    }

    /// Adds the flags of `other` to `self`.
    pub fn insert(&mut self, other: DvarFlags)
        ensures
            final(self).bits == old(self).bits | other.bits,
    {
        self.bits = self.bits | other.bits;
    }

    /// Removes the flags of `other` from `self`.
    pub fn remove(&mut self, other: DvarFlags)
        ensures
            final(self).bits == old(self).bits & !other.bits,
    {
        self.bits = self.bits & !other.bits;
    }
}

} // verus!
