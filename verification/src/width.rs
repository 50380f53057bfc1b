//! Width selection: the smallest unsigned integer type able to hold one
//! bit per tracked field.

use vstd::prelude::*;
use crate::error::TrackError;

verus! {

/// An unsigned integer bit-width usable for the injected bitmask field.
#[derive(Clone, Copy, Debug, PartialEq, Eq, Structural)]
pub enum IntWidth {
    /// 8 bits (`u8`).
    W8,
    /// 16 bits (`u16`).
    W16,
    /// 32 bits (`u32`).
    W32,
    /// 64 bits (`u64`).
    W64,
    /// 128 bits (`u128`).
    W128,
}

impl IntWidth {
    /// The number of bits of this width.
    pub open spec fn spec_bits(self) -> nat {
        match self {
            IntWidth::W8 => 8,
            IntWidth::W16 => 16,
            IntWidth::W32 => 32,
            IntWidth::W64 => 64,
            IntWidth::W128 => 128,
        }
    }

    /// The number of bits of this width.
    pub fn bits(&self) -> (n: u32)
        ensures
            n as nat == self.spec_bits(),
    {
        match self {
            IntWidth::W8 => 8,
            IntWidth::W16 => 16,
            IntWidth::W32 => 32,
            IntWidth::W64 => 64,
            IntWidth::W128 => 128,
        }
    }

    /// The all-ones value of this width: the mask that covers every bit,
    /// widened to 128 bits.
    pub open spec fn spec_all_ones(self) -> u128 {
        match self {
            IntWidth::W8 => 0xff,
            IntWidth::W16 => 0xffff,
            IntWidth::W32 => 0xffff_ffff,
            IntWidth::W64 => 0xffff_ffff_ffff_ffff,
            IntWidth::W128 => u128::MAX,
        }
    }

    /// The all-ones value of this width, widened to 128 bits.
    pub fn all_ones(&self) -> (m: u128)
        ensures
            m == self.spec_all_ones(),
    {
        match self {
            IntWidth::W8 => 0xff,
            IntWidth::W16 => 0xffff,
            IntWidth::W32 => 0xffff_ffff,
            IntWidth::W64 => 0xffff_ffff_ffff_ffff,
            IntWidth::W128 => u128::MAX,
        }
    }

    /// The source-text name of the integer type of this width.
    pub open spec fn spec_name(self) -> Seq<char> {
        match self {
            IntWidth::W8 => "u8"@,
            IntWidth::W16 => "u16"@,
            IntWidth::W32 => "u32"@,
            IntWidth::W64 => "u64"@,
            IntWidth::W128 => "u128"@,
        }
    }

    /// The source-text name of the integer type of this width.
    pub fn name(&self) -> (r: &'static str)
        ensures
            r@ == self.spec_name(),
    {
        match self {
            IntWidth::W8 => "u8",
            IntWidth::W16 => "u16",
            IntWidth::W32 => "u32",
            IntWidth::W64 => "u64",
            IntWidth::W128 => "u128",
        }
    }
}

/// The width bucket documented for a tracked-field count of at most 128:
/// `[0, 8]` maps to 8 bits, `[9, 16]` to 16, `[17, 32]` to 32,
/// `[33, 64]` to 64 and `[65, 128]` to 128.
pub open spec fn width_for(count: nat) -> IntWidth {
    if count <= 8 {
        IntWidth::W8
    } else if count <= 16 {
        IntWidth::W16
    } else if count <= 32 {
        IntWidth::W32
    } else if count <= 64 {
        IntWidth::W64
    } else {
        IntWidth::W128
    }
}

/// Width Selector: picks the smallest unsigned integer width able to
/// represent one bit per tracked field, and rejects counts above 128.
pub fn tracker_type(len: usize) -> (r: Result<IntWidth, TrackError>)
    ensures
        len <= 128 ==> r == Ok::<IntWidth, TrackError>(width_for(len as nat)),
        len > 128 ==> r == Err::<IntWidth, TrackError>(TrackError::TooManyTrackedFields),
{
    if len <= 8 {
        Ok(IntWidth::W8)
    } else if len <= 16 {
        Ok(IntWidth::W16)
    } else if len <= 32 {
        Ok(IntWidth::W32)
    } else if len <= 64 {
        Ok(IntWidth::W64)
    } else if len <= 128 {
        Ok(IntWidth::W128)
    } else {
        Err(TrackError::TooManyTrackedFields)
    }
}

/// The selected width always has at least one bit per tracked field: for
/// every count the selector accepts, the count fits the chosen width.
pub proof fn lemma_width_covers(count: nat)
    requires
        count <= 128,
    ensures
        count <= width_for(count).spec_bits(),
{
}

} // verus!
