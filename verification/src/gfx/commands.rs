//! The drawing operations a command list is made of.

use crate::gfx::color::Color;
use crate::gfx::pipeline::{DrawPrimitive, PipelineOptions};
use vstd::prelude::*;

verus! {

/// One recorded drawing operation. Coordinates and sizes are in logical
/// pixels, with the origin in the top left corner.
#[derive(Clone, Copy, Debug, PartialEq, Eq)]
pub enum Commands {
    /// Starts a pass and clears what is named. `depth` is the IEEE-754
    /// single-precision bit pattern of the depth to clear to.
    Begin { color: Option<Color>, depth: Option<u32>, stencil: Option<i32> },
    /// Ends the pass.
    End,
    Pipeline { id: u64, options: PipelineOptions },
    BindBuffer { id: u64 },
    Draw { primitive: DrawPrimitive, offset: i32, count: i32 },
    DrawInstanced { primitive: DrawPrimitive, offset: i32, count: i32, length: i32 },
    BindTexture { id: u64, slot: u32, location: u32 },
    Size { width: i32, height: i32 },
    Viewport { x: i32, y: i32, width: i32, height: i32 },
    Scissors { x: i32, y: i32, width: i32, height: i32 },
}

} // verus!
