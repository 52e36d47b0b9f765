//! Drawing helpers that travel with the renderer.

use vstd::prelude::*;
use crate::buffer::IndexFormat;
use crate::component::Rectangle;
use crate::pass::{draw_once, RenderCommand, RenderPass};

verus! {

/// Drawing helpers and the switch that says whether the grid is shown.
#[derive(Clone, Copy, Debug, PartialEq, Eq)]
pub struct RenderUtil {
    is_draw_grid: bool,
}

/// The commands that draw one rectangle: bind its vertex buffer in slot 0,
/// bind its index buffer as 16-bit indices, draw all its indices once.
pub open spec fn rect_commands(rect: Rectangle) -> Seq<RenderCommand> {
    seq![
        RenderCommand::SetVertexBuffer { slot: 0, buffer: rect.vertex_buffer },
        RenderCommand::SetIndexBuffer {
            buffer: rect.index_buffer,
            index_format: IndexFormat::Uint16,
        },
        draw_once(rect.num_indices),
    ]
}

impl RenderUtil {
    /// Whether the grid is shown.
    pub closed spec fn draws_grid(&self) -> bool {
        self.is_draw_grid
    }

    /// A helper with the grid switched on.
    pub fn new() -> (util: Self)
        ensures
            util.draws_grid(),
    {
        RenderUtil { is_draw_grid: true }
    }

    /// Records the drawing of `rect` at the end of `render_pass`.
    pub fn draw_rect(render_pass: &mut RenderPass, rect: &Rectangle)
        ensures
            final(render_pass)@.clear == old(render_pass)@.clear,
            final(render_pass)@.commands == old(render_pass)@.commands + rect_commands(*rect),
    {
        render_pass.set_vertex_buffer(0, rect.vertex_buffer);
        render_pass.set_index_buffer(rect.index_buffer, IndexFormat::Uint16);
        render_pass.draw_indexed(rect.num_indices);
    }

    /// Records the grid. The grid has no geometry of its own, so this
    /// records nothing, whether the switch is on or off.
    pub fn draw_grid(&mut self, render_pass: &mut RenderPass)
        ensures
            *final(self) == *old(self),
            final(render_pass)@ == old(render_pass)@,
    {
    }

    /// Flips the grid switch.
    pub fn switch_draw_grid(&mut self)
        ensures
            final(self).draws_grid() == !old(self).draws_grid(),
    {
        self.is_draw_grid = !self.is_draw_grid;
    }

    /// Whether the grid is shown.
    pub fn is_draw_grid(&self) -> (shown: bool)
        ensures
            shown == self.draws_grid(),
    {
        self.is_draw_grid
    }
}

} // verus!
