//! What a backend reports about the device it drives.

use vstd::prelude::*;

verus! {

/// The limits of a device.
#[derive(Clone, Copy, Debug, PartialEq, Eq, Structural)]
pub struct Limits {
    pub max_texture_size: u32,
    pub max_uniform_blocks: u32,
}

impl Default for Limits {
    fn default() -> (limits: Limits)
        ensures
            limits == (Limits { max_texture_size: 8192, max_uniform_blocks: 8 }),
    {
        Limits { max_texture_size: 8192, max_uniform_blocks: 8 }
    }
}

} // verus!
