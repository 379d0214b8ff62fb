//! What one frame draws.

use vstd::prelude::*;
use crate::swapchain::Extent;

verus! {

/// Number of vertices of the triangle.
pub const VERTEX_COUNT: u32 = 3;

/// A colour with eight bits for each channel.
#[derive(Clone, Copy, Debug, PartialEq, Eq, Structural)]
pub struct Rgba {
    pub red: u8,
    pub green: u8,
    pub blue: u8,
    pub alpha: u8,
}

/// The part of a framebuffer that is drawn to, and the depth range that
/// goes with it. The depth bounds are whole numbers: 0 is nearest, 1 farthest.
#[derive(Clone, Copy, Debug, PartialEq, Eq, Structural)]
pub struct Viewport {
    pub left: u32,
    pub top: u32,
    pub dimensions: Extent,
    pub min_depth: u32,
    pub max_depth: u32,
}

/// One step of a frame's command buffer.
#[derive(Clone, Copy, Debug, PartialEq, Eq, Structural)]
pub enum Command {
    /// Enters the render pass on a framebuffer and clears it.
    BeginRenderPass { framebuffer: usize, clear: Rgba },
    /// Draws the vertex buffer through the pipeline.
    Draw { viewport: Viewport, vertices: u32 },
    /// Leaves the render pass, which stores the image.
    EndRenderPass,
}

/// The colour that every frame is cleared to: opaque blue.
pub open spec fn background() -> Rgba {
    Rgba { red: 0, green: 0, blue: 255, alpha: 255 }
}

/// The viewport that covers a surface of the given size, with the full
/// depth range.
pub open spec fn full_viewport(dimensions: Extent) -> Viewport {
    Viewport { left: 0, top: 0, dimensions, min_depth: 0, max_depth: 1 }
}

/// The commands of a frame that draws to framebuffer `which`.
pub open spec fn frame_commands(which: usize, viewport: Viewport) -> Seq<Command> {
    seq![
        Command::BeginRenderPass { framebuffer: which, clear: background() },
        Command::Draw { viewport, vertices: VERTEX_COUNT },
        Command::EndRenderPass,
    ]
}

/// The colour that every frame is cleared to.
pub fn background_color() -> (color: Rgba)
    ensures
        color == background(),
{
    Rgba { red: 0, green: 0, blue: 255, alpha: 255 }
}

/// The dynamic state for a surface of the given size: one viewport over the
/// whole surface. No scissor and no line width are set.
pub fn create_dynamicstate(dimensions: Extent) -> (viewport: Viewport)
    ensures
        viewport == full_viewport(dimensions),
{
    Viewport { left: 0, top: 0, dimensions, min_depth: 0, max_depth: 1 }
}

/// Records the commands of one frame: enter the render pass on framebuffer
/// `which` with the background colour, draw the triangle once, leave the pass.
pub fn record_commands(which: usize, viewport: Viewport) -> (commands: Vec<Command>)
    ensures
        commands@ == frame_commands(which, viewport),
{
    let mut commands: Vec<Command> = Vec::with_capacity(3);
    commands.push(Command::BeginRenderPass { framebuffer: which, clear: background_color() });
    commands.push(Command::Draw { viewport, vertices: VERTEX_COUNT });
    commands.push(Command::EndRenderPass);
    commands
}

} // verus!
