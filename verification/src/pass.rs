//! A render pass as the list of commands recorded into it.
//!
//! The pass names buffers by [`BufferId`] and pipelines by [`PipelineKind`];
//! whoever owns the GPU objects replays the commands on them in order.

use vstd::prelude::*;
use crate::buffer::{IndexFormat, Ratio};
use crate::pipeline::PipelineKind;
use crate::upload::BufferId;

verus! {

/// A colour with alpha, each channel a fraction between zero and one.
#[derive(Clone, Copy, Debug, PartialEq, Eq, Structural)]
pub struct Color {
    pub r: Ratio,
    pub g: Ratio,
    pub b: Ratio,
    pub a: Ratio,
}

/// One command of a render pass.
#[derive(Clone, Copy, Debug, PartialEq, Eq, Structural)]
pub enum RenderCommand {
    /// Draw with this pipeline from here on.
    SetPipeline { pipeline: PipelineKind },
    /// Bind the whole of `buffer` as vertex buffer number `slot`.
    SetVertexBuffer { slot: u32, buffer: BufferId },
    /// Bind the whole of `buffer` as the index buffer.
    SetIndexBuffer { buffer: BufferId, index_format: IndexFormat },
    /// Draw the indices `first_index..end_index` for the instances
    /// `first_instance..end_instance`, adding `base_vertex` to each index.
    DrawIndexed {
        first_index: u32,
        end_index: u32,
        base_vertex: i32,
        first_instance: u32,
        end_instance: u32,
    },
}

/// The background that every frame is cleared to: red 0.1, green 0.2,
/// blue 0.3, opaque.
pub open spec fn background() -> Color {
    Color {
        r: Ratio { num: 1, den: 10 },
        g: Ratio { num: 2, den: 10 },
        b: Ratio { num: 3, den: 10 },
        a: Ratio { num: 1, den: 1 },
    }
}

/// The mathematical value of a [`RenderPass`].
pub struct RenderPassView {
    pub clear: Color,
    pub commands: Seq<RenderCommand>,
}

/// A render pass that is being recorded.
#[derive(Debug, PartialEq, Eq)]
pub struct RenderPass {
    clear: Color,
    commands: Vec<RenderCommand>,
}

impl View for RenderPass {
    type V = RenderPassView;

    closed spec fn view(&self) -> RenderPassView {
        RenderPassView { clear: self.clear, commands: self.commands@ }
    }
}

impl RenderPass {
    /// Begins a pass that clears its target to [`background`] and holds no
    /// command yet.
    pub fn begin() -> (pass: Self)
        ensures
            pass@.clear == background(),
            pass@.commands == Seq::<RenderCommand>::empty(),
    {
        RenderPass {
            clear: Color {
                r: Ratio { num: 1, den: 10 },
                g: Ratio { num: 2, den: 10 },
                b: Ratio { num: 3, den: 10 },
                a: Ratio { num: 1, den: 1 },
            },
            commands: Vec::new(),
        }
    }

    /// Records the choice of a pipeline.
    pub fn set_pipeline(&mut self, pipeline: PipelineKind)
        ensures
            final(self)@.clear == old(self)@.clear,
            final(self)@.commands == old(self)@.commands.push(
                RenderCommand::SetPipeline { pipeline },
            ),
    {
        self.commands.push(RenderCommand::SetPipeline { pipeline });
    }

    /// Records the binding of a whole buffer as vertex buffer number `slot`.
    pub fn set_vertex_buffer(&mut self, slot: u32, buffer: BufferId)
        ensures
            final(self)@.clear == old(self)@.clear,
            final(self)@.commands == old(self)@.commands.push(
                RenderCommand::SetVertexBuffer { slot, buffer },
            ),
    {
        self.commands.push(RenderCommand::SetVertexBuffer { slot, buffer });
    }

    /// Records the binding of a whole buffer as the index buffer.
    pub fn set_index_buffer(&mut self, buffer: BufferId, index_format: IndexFormat)
        ensures
            final(self)@.clear == old(self)@.clear,
            final(self)@.commands == old(self)@.commands.push(
                RenderCommand::SetIndexBuffer { buffer, index_format },
            ),
    {
        self.commands.push(RenderCommand::SetIndexBuffer { buffer, index_format });
    }

    /// Records an indexed draw of the first `index_count` indices, once.
    pub fn draw_indexed(&mut self, index_count: u32)
        ensures
            final(self)@.clear == old(self)@.clear,
            final(self)@.commands == old(self)@.commands.push(draw_once(index_count)),
    {
        self.commands.push(
            RenderCommand::DrawIndexed {
                first_index: 0,
                end_index: index_count,
                base_vertex: 0,
                first_instance: 0,
                end_instance: 1,
            },
        );
    }

    /// The colour that the pass clears its target to.
    pub fn clear_color(&self) -> (clear: Color)
        ensures
            clear == self@.clear,
    {
        self.clear
    }

    /// The commands recorded so far, oldest first.
    pub fn commands(&self) -> (commands: &Vec<RenderCommand>)
        ensures
            commands@ == self@.commands,
    {
        &self.commands
    }
}

/// The draw of the indices `0..index_count`, with nothing added to them, for
/// the single instance 0.
pub open spec fn draw_once(index_count: u32) -> RenderCommand {
    RenderCommand::DrawIndexed {
        first_index: 0,
        end_index: index_count,
        base_vertex: 0,
        first_instance: 0,
        end_instance: 1,
    }
}

} // verus!
