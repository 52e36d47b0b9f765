//! Vertex and index data, and the layout in which a vertex reaches the GPU.

use vstd::prelude::*;

verus! {

/// The fraction `num / den`.
///
/// Coordinates and colour channels are kept exact; whoever uploads them
/// performs the division.
#[derive(Clone, Copy, Debug, PartialEq, Eq, Structural)]
pub struct Ratio {
    pub num: i64,
    pub den: i64,
}

impl Ratio {
    /// Whether the fraction is the whole number `k`.
    pub open spec fn is_whole(self, k: int) -> bool {
        self.den != 0 && self.num == k * self.den
    }

    /// Whether the fraction lies between minus one and one, ends included.
    pub open spec fn in_unit_range(self) -> bool {
        self.den > 0 && -self.den <= self.num <= self.den
    }

    /// Whether `(self + 1) * scale` is the whole number `k`.
    pub open spec fn plus_one_scaled_is(self, scale: int, k: int) -> bool {
        self.den != 0 && (self.num + self.den) * scale == k * self.den
    }

    /// Whether `(1 - self) * scale` is the whole number `k`.
    pub open spec fn one_minus_scaled_is(self, scale: int, k: int) -> bool {
        self.den != 0 && (self.den - self.num) * scale == k * self.den
    }
}

/// One corner of a shape: a position in normalized device space and a colour.
#[derive(Clone, Copy, Debug, PartialEq, Eq)]
pub struct Vertex {
    pub position: [Ratio; 3],
    pub color: [Ratio; 3],
}

/// The two triangles of a rectangle, as indices into its four corners.
pub const RECT_INDICES: [u16; 6] = [0, 1, 2, 0, 2, 3];

/// The width of the indices in an index buffer.
#[derive(Clone, Copy, Debug, PartialEq, Eq, Structural)]
pub enum IndexFormat {
    Uint16,
    Uint32,
}

/// How one vertex attribute is stored.
#[derive(Clone, Copy, Debug, PartialEq, Eq, Structural)]
pub enum VertexFormat {
    Float32,
    Float32x2,
    Float32x3,
    Float32x4,
}

impl VertexFormat {
    /// The number of bytes that one attribute of this format takes.
    pub open spec fn size(self) -> nat {
        match self {
            VertexFormat::Float32 => 4,
            VertexFormat::Float32x2 => 8,
            VertexFormat::Float32x3 => 12,
            VertexFormat::Float32x4 => 16,
        }
    }
}

/// Whether a vertex buffer advances per vertex or per instance.
#[derive(Clone, Copy, Debug, PartialEq, Eq, Structural)]
pub enum VertexStepMode {
    Vertex,
    Instance,
}

/// One input of the vertex shader.
#[derive(Clone, Copy, Debug, PartialEq, Eq, Structural)]
pub struct VertexAttribute {
    pub format: VertexFormat,
    /// Byte offset of the attribute within a vertex.
    pub offset: u64,
    pub shader_location: u32,
}

/// How a vertex buffer is read.
#[derive(Clone, Copy, Debug, PartialEq, Eq)]
pub struct VertexBufferLayout {
    /// Bytes from one vertex to the next.
    pub array_stride: u64,
    pub step_mode: VertexStepMode,
    pub attributes: [VertexAttribute; 2],
}

/// Asks `wgpu::VertexFormat::size` for the byte size of a format.
///
/// Trusted: the result is the size that wgpu's table gives for the format of
/// the same name, which is four bytes for each 32-bit component.
#[verifier::external_body]
fn format_size(format: VertexFormat) -> (size: u64)
    ensures
        size == format.size(),
{
    let format = match format {
        VertexFormat::Float32 => wgpu::VertexFormat::Float32,
        VertexFormat::Float32x2 => wgpu::VertexFormat::Float32x2,
        VertexFormat::Float32x3 => wgpu::VertexFormat::Float32x3,
        VertexFormat::Float32x4 => wgpu::VertexFormat::Float32x4,
    };
    format.size()
}

impl Vertex {
    /// The layout of a vertex: position at shader location 0, colour at
    /// location 1, both three 32-bit components, tightly packed.
    pub open spec fn layout() -> VertexBufferLayout {
        VertexBufferLayout {
            array_stride: 24,
            step_mode: VertexStepMode::Vertex,
            attributes: [
                VertexAttribute { format: VertexFormat::Float32x3, offset: 0, shader_location: 0 },
                VertexAttribute { format: VertexFormat::Float32x3, offset: 12, shader_location: 1 },
            ],
        }
    }

    /// Computes the vertex layout, with each offset following from the sizes
    /// of the attributes before it and the stride from the size of them all.
    pub fn desc() -> (layout: VertexBufferLayout)
        ensures
            layout == Self::layout(),
    {
        let position = VertexFormat::Float32x3;
        let color = VertexFormat::Float32x3;
        let color_offset: u64 = format_size(position);
        let array_stride: u64 = color_offset + format_size(color);
        let layout = VertexBufferLayout {
            array_stride,
            step_mode: VertexStepMode::Vertex,
            attributes: [
                VertexAttribute { format: position, offset: 0, shader_location: 0 },
                VertexAttribute { format: color, offset: color_offset, shader_location: 1 },
            ],
        };
        assert(layout.attributes@ =~= Self::layout().attributes@);
        layout
    }
}

} // verus!
