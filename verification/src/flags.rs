//! Bit-flag sets carried in 32-bit fields of the timing records.
//!
//! Both sets are independent bitmasks over a `u32`. A driver may set bits
//! this library does not name; those unknown bits must be preserved, not
//! masked, when a field is round-tripped, so the carriers keep the whole
//! word and every update is proved to leave unrelated bits alone.

use vstd::prelude::*;

verus! {

/// Time-code flag: the time code is valid.
pub const TIME_CODE_VALID: u32 = 0x1;

/// Time-code flag: the transport is running.
pub const TIME_CODE_RUNNING: u32 = 0x2;

/// Time-code flag: the transport runs in reverse.
pub const TIME_CODE_REVERSE: u32 = 0x4;

/// Time-code flag: the transport runs on speed.
pub const TIME_CODE_ONSPEED: u32 = 0x8;

/// Time-code flag: the transport stands still.
pub const TIME_CODE_STILL: u32 = 0x10;

/// Time-code flag: the speed field is valid.
pub const TIME_CODE_SPEED_VALID: u32 = 0x100;

/// Time-info flag: the system timestamp is valid.
pub const TIME_INFO_SYSTEM_TIME_VALID: u32 = 0x1;

/// Time-info flag: the sample position is valid.
pub const TIME_INFO_SAMPLE_POSITION_VALID: u32 = 0x2;

/// Time-info flag: the sample rate field is valid.
pub const TIME_INFO_SAMPLE_RATE_VALID: u32 = 0x4;

/// Time-info flag: the speed field is valid.
pub const TIME_INFO_SPEED_VALID: u32 = 0x8;

/// Time-info flag: the sample rate changed out of band.
pub const TIME_INFO_SAMPLE_RATE_CHANGED: u32 = 0x10;

/// Time-info flag: the clock source changed.
pub const TIME_INFO_CLOCK_SOURCE_CHANGED: u32 = 0x20;

/// The flag word of a time-code record. The carrier keeps the full
/// 32-bit field, unknown bits included.
#[derive(Debug, Clone, Copy, PartialEq, Eq, Hash, Structural)]
pub struct AsioTimeCodeFlags {
    pub bits: u32,
}

impl AsioTimeCodeFlags {
    /// Wraps a wire value whole: no bit is masked away.
    pub fn from_bits(bits: u32) -> (r: AsioTimeCodeFlags)
        ensures
            r.bits == bits,
    {
        AsioTimeCodeFlags { bits }
    }

    /// The wire value carried, every bit of it.
    pub fn to_bits(&self) -> (r: u32)
        ensures
            r == self.bits,
    {
        self.bits
    }

    /// Whether every bit of `mask` is set.
    pub fn contains(&self, mask: u32) -> (r: bool)
        ensures
            r == (self.bits & mask == mask),
    {
        self.bits & mask == mask
    }

    /// Sets the bits of `mask` and touches no other bit.
    pub fn insert(&mut self, mask: u32)
        ensures
            final(self).bits == old(self).bits | mask,
    {
        self.bits = self.bits | mask;
    }

    /// Clears the bits of `mask` and touches no other bit.
    pub fn remove(&mut self, mask: u32)
        ensures
            final(self).bits == old(self).bits & !mask,
    {
        self.bits = self.bits & !mask;
    }
}

/// The flag word of a time-info record. The carrier keeps the full
/// 32-bit field, unknown bits included.
#[derive(Debug, Clone, Copy, PartialEq, Eq, Hash, Structural)]
pub struct AsioTimeInfoFlags {
    pub bits: u32,
}

impl AsioTimeInfoFlags {
    /// Wraps a wire value whole: no bit is masked away.
    pub fn from_bits(bits: u32) -> (r: AsioTimeInfoFlags)
        ensures
            r.bits == bits,
    {
        AsioTimeInfoFlags { bits }
    }

    /// The wire value carried, every bit of it.
    pub fn to_bits(&self) -> (r: u32)
        ensures
            r == self.bits,
    {
        self.bits
    }

    /// Whether every bit of `mask` is set.
    pub fn contains(&self, mask: u32) -> (r: bool)
        ensures
            r == (self.bits & mask == mask),
    {
        self.bits & mask == mask
    }

    /// Sets the bits of `mask` and touches no other bit.
    pub fn insert(&mut self, mask: u32)
        ensures
            final(self).bits == old(self).bits | mask,
    {
        self.bits = self.bits | mask;
    }

    /// Clears the bits of `mask` and touches no other bit.
    pub fn remove(&mut self, mask: u32)
        ensures
            final(self).bits == old(self).bits & !mask,
    {
        self.bits = self.bits & !mask;
    }
}

/// Setting or clearing one mask leaves every bit outside it as it was:
/// unknown bits survive any update made through the named flags.
pub proof fn lemma_flag_update_preserves_other_bits(bits: u32, mask: u32, other: u32)
    requires
        other & mask == 0,
    ensures
        (bits | mask) & other == bits & other,
        (bits & !mask) & other == bits & other,
{
    assert((bits | mask) & other == bits & other && (bits & !mask) & other == bits & other)
        by (bit_vector)
        requires
            other & mask == 0,
    ;
}

} // verus!
