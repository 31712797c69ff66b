//! On-board SPI flash.

use vstd::prelude::*;

verus! {

/// Above this core clock frequency the flash needs eight dummy cycles on
/// fast reads.
pub const FLASH_DUMMY8_ABOVE_HZ: u32 = 208_000_000;

/// Whether the flash must be set up with eight dummy cycles for a core
/// clock of `coreclk_hz`.
pub fn needs_dummy8(coreclk_hz: u32) -> (r: bool)
    ensures
        r == (coreclk_hz > FLASH_DUMMY8_ABOVE_HZ),
{
    coreclk_hz > FLASH_DUMMY8_ABOVE_HZ
}

} // verus!
