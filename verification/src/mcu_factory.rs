use vstd::prelude::*;

use crate::mcu::Mcu;

verus! {

use crate::mcu::spec_power_on;

/// Creates MCUs by target name, fixing each target's memory-bank sizes.
pub struct McuFactory;

impl McuFactory {
    /// Builds the machine for the named target. The one supported target
    /// is `attiny85`, with 512 bytes of data memory and 8 KiB of program
    /// memory.
    pub fn create(mcu_name: &str) -> (r: Mcu)
        requires
            mcu_name@ == "attiny85"@,
        ensures
            r@ == spec_power_on(512, 8192),
            r@.wf(),
    {
        proof {
            assert(511u32 & 512u32 == 0 && 8191u32 & 8192u32 == 0) by (bit_vector);
        }
        Mcu::new(512, 8 * 1024)
    }
}

} // verus!
