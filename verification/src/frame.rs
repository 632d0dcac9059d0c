//! The one frame a run produces: what gets recorded, and in what order the
//! host may touch the results.
//!
//! GPU work is asynchronous: submission returns at once, and the host may
//! read GPU-written memory only after the fence for that submission has
//! signaled.  That ordering is the one genuine hazard in the whole program,
//! so it is tracked here as a small state machine whose reading step is
//! refused until the wait has happened.

use vstd::prelude::*;
use crate::pipeline::PipelineConfig;
use crate::png::{encode_png, png_of};
use crate::raster::{clear_color, solid_raster, spec_clear_color, spec_solid_raster, Rgba};

verus! {

/// Extent of the offscreen target image, fixed for every run.
pub const OFFSCREEN_WIDTH: u32 = 1024;

/// Extent of the offscreen target image, fixed for every run.
pub const OFFSCREEN_HEIGHT: u32 = 1024;

/// One command of the offscreen frame's command sequence.
#[derive(Clone, Copy, PartialEq, Eq, Structural, Debug)]
pub enum Command {
    /// Clear the whole target image to one color.
    ClearColorImage { color: Rgba },
    /// Copy the target image's contents into the readback buffer.
    CopyImageToBuffer,
}

/// How far the frame's submission has progressed.
#[derive(Clone, Copy, PartialEq, Eq, Structural, Debug)]
pub enum FrameStage {
    /// The command sequence is built but not yet handed to the queue.
    Recorded,
    /// The command sequence is on the queue; the GPU may still be writing.
    Submitted,
    /// The fence for the submission has signaled: all writes are visible.
    Signaled,
}

/// Why consuming the frame's results failed.
#[derive(Clone, Copy, PartialEq, Eq, Structural, Debug)]
pub enum FrameError {
    /// The readback buffer was touched before the fence wait completed.
    NotSynchronized,
}

/// Synchronization state of the one submission a run makes.
#[derive(Clone, Copy, PartialEq, Eq, Structural, Debug)]
pub struct FrameSync {
    pub stage: FrameStage,
}

impl FrameSync {
    /// A freshly recorded, not yet submitted frame.
    pub fn new() -> (s: FrameSync)
        ensures
            s.stage is Recorded,
    {
        FrameSync { stage: FrameStage::Recorded }
    }

    /// Hand the recorded frame to the queue.
    pub fn submit(&mut self)
        requires
            old(self).stage is Recorded,
        ensures
            final(self).stage is Submitted,
    {
        self.stage = FrameStage::Submitted;
    }

    /// Block until the fence for the submission signals.
    pub fn wait(&mut self)
        requires
            old(self).stage is Submitted,
        ensures
            final(self).stage is Signaled,
    {
        self.stage = FrameStage::Signaled;
    }

    /// Whether the host may now read GPU-written memory.
    pub fn read_permitted(&self) -> (r: bool)
        ensures
            r <==> self.stage is Signaled,
    {
        matches!(self.stage, FrameStage::Signaled)
    }
}

/// The offscreen frame's command sequence: clear the image to the fixed
/// color, then copy it into the readback buffer — exactly those two
/// commands, in that order.
pub fn record_offscreen_commands() -> (cmds: Vec<Command>)
    ensures
        cmds@.len() == 2,
        cmds@[0] == (Command::ClearColorImage { color: spec_clear_color() }),
        cmds@[1] is CopyImageToBuffer,
{
    let mut cmds: Vec<Command> = Vec::new();
    cmds.push(Command::ClearColorImage { color: clear_color() });
    cmds.push(Command::CopyImageToBuffer);
    cmds
}

/// One command of the windowed frame's command sequence.
#[derive(Clone, Copy, PartialEq, Eq, Structural, Debug)]
pub enum WindowedCommand {
    /// Begin the render pass on the framebuffer, clearing to one color.
    BeginRenderPass { clear_to: Rgba },
    /// Draw the vertex buffer with the bound pipeline.
    Draw { vertex_count: u32 },
    /// End the render pass.
    EndRenderPass,
}

/// The windowed frame's command sequence: begin the render pass clearing to
/// the fixed color, draw the pipeline's triangle, end the render pass —
/// exactly those three commands, in that order.
pub fn record_windowed_commands(p: &PipelineConfig) -> (cmds: Vec<WindowedCommand>)
    ensures
        cmds@.len() == 3,
        cmds@[0] == (WindowedCommand::BeginRenderPass { clear_to: spec_clear_color() }),
        cmds@[1] == (WindowedCommand::Draw { vertex_count: p.vertex_count }),
        cmds@[2] is EndRenderPass,
{
    let mut cmds: Vec<WindowedCommand> = Vec::new();
    cmds.push(WindowedCommand::BeginRenderPass { clear_to: clear_color() });
    cmds.push(WindowedCommand::Draw { vertex_count: p.vertex_count });
    cmds.push(WindowedCommand::EndRenderPass);
    cmds
}

/// The raster a successful offscreen run's readback buffer holds: every
/// pixel of the fixed extent equal to the clear color, since the frame's
/// only rendering command is a clear to that color.
pub fn expected_offscreen_raster() -> (r: Vec<u8>)
    ensures
        r@ == spec_solid_raster(OFFSCREEN_WIDTH, OFFSCREEN_HEIGHT, spec_clear_color()),
        r@.len() == OFFSCREEN_WIDTH as int * OFFSCREEN_HEIGHT as int * 4,
{
    solid_raster(OFFSCREEN_WIDTH, OFFSCREEN_HEIGHT, clear_color())
}

/// Read the readback buffer, refusing the read unless the fence wait has
/// completed.  Succeeds exactly when the submission has signaled, and then
/// returns the buffer's bytes unchanged.
pub fn read_back(sync: &FrameSync, bytes: &Vec<u8>) -> (r: Result<Vec<u8>, FrameError>)
    ensures
        r matches Ok(v) ==> sync.stage is Signaled && v@ == bytes@,
        r is Ok <==> sync.stage is Signaled,
        r matches Err(e) ==> e is NotSynchronized,
{
    if sync.read_permitted() {
        Ok(bytes.clone())
    } else {
        Err(FrameError::NotSynchronized)
    }
}

/// Produce the offscreen run's output: read the readback buffer — only
/// after the wait — and encode it as a PNG.  Succeeds exactly when the
/// submission has signaled, and then returns exactly the PNG encoding of
/// the buffer's bytes at the fixed extent.
pub fn offscreen_output(sync: &FrameSync, readback: &Vec<u8>) -> (r: Result<Vec<u8>, FrameError>)
    requires
        readback@.len() == OFFSCREEN_WIDTH as int * OFFSCREEN_HEIGHT as int * 4,
    ensures
        r is Ok <==> sync.stage is Signaled,
        r matches Ok(v) ==> v@ == png_of(readback@, OFFSCREEN_WIDTH, OFFSCREEN_HEIGHT),
        r matches Err(e) ==> e is NotSynchronized,
{
    let pixels = match read_back(sync, readback) {
        Ok(v) => v,
        Err(e) => {
            return Err(e);
        },
    };
    Ok(encode_png(&pixels, OFFSCREEN_WIDTH, OFFSCREEN_HEIGHT))
}

} // verus!
