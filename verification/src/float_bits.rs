//! Bit patterns of the single-precision floats that the fixed scene uses.
//!
//! Buffers hold floats; this library carries each float as its 32-bit
//! IEEE 754 pattern and never computes with it.

use vstd::prelude::*;

verus! {

/// 0.0
pub const ZERO: u32 = 0x0000_0000;

/// 1.0
pub const ONE: u32 = 0x3F80_0000;

/// 1.1, rounded to single precision.
pub const ONE_AND_A_TENTH: u32 = 0x3F8C_CCCD;

/// 2.0
pub const TWO: u32 = 0x4000_0000;

/// 3.0
pub const THREE: u32 = 0x4040_0000;

/// 5.0
pub const FIVE: u32 = 0x40A0_0000;

/// 6.0
pub const SIX: u32 = 0x40C0_0000;

/// 20.0
pub const TWENTY: u32 = 0x41A0_0000;

/// 40.0
pub const FORTY: u32 = 0x4220_0000;

/// 480.0
pub const FOUR_HUNDRED_EIGHTY: u32 = 0x43F0_0000;

/// 640.0
pub const SIX_HUNDRED_FORTY: u32 = 0x4420_0000;

} // verus!
