//! Vertex attribute layouts.
//!
//! A [`VertexBufferLayout`] describes one vertex record's memory shape as
//! the GPU sees it: an ordered list of (format, byte offset, shader slot)
//! and the record's stride.  The layouts are an unchecked cross-boundary
//! contract between CPU-side buffers and shader expectations, so they are
//! stated and proved exactly.

use vstd::prelude::*;

verus! {

/// The data format of one vertex attribute.
#[derive(Clone, Copy, PartialEq, Eq, Structural, Debug)]
pub enum VertexFormat {
    Float32x2,
    Float32x3,
    Float32x4,
    Uint32x2,
}

/// The byte size of a vertex attribute format.
pub open spec fn format_size(f: VertexFormat) -> int {
    match f {
        VertexFormat::Float32x2 => 8,
        VertexFormat::Float32x3 => 12,
        VertexFormat::Float32x4 => 16,
        VertexFormat::Uint32x2 => 8,
    }
}

impl VertexFormat {
    /// Executable mirror of [`format_size`].
    pub fn size_bytes(&self) -> (r: u32)
        ensures
            r == format_size(*self),
    {
        match self {
            VertexFormat::Float32x2 => 8,
            VertexFormat::Float32x3 => 12,
            VertexFormat::Float32x4 => 16,
            VertexFormat::Uint32x2 => 8,
        }
    }
}

/// One attribute of a vertex record.
#[derive(Clone, Copy, PartialEq, Eq, Structural, Debug)]
pub struct VertexAttribute {
    pub format: VertexFormat,
    pub offset: u32,
    pub shader_location: u32,
}

/// Whether a buffer advances per vertex or per instance.
#[derive(Clone, Copy, PartialEq, Eq, Structural, Debug)]
pub enum VertexStepMode {
    Vertex,
    Instance,
}

/// One vertex buffer's memory shape.
#[derive(Debug)]
pub struct VertexBufferLayout {
    pub array_stride: u32,
    pub step_mode: VertexStepMode,
    pub attributes: Vec<VertexAttribute>,
}

/// A layout is well formed when its attributes sit in increasing,
/// non-overlapping byte ranges inside the stride and climb through shader
/// locations in order.
pub open spec fn layout_well_formed(l: VertexBufferLayout) -> bool {
    &&& forall|i: int|
        0 <= i < l.attributes@.len() ==> (#[trigger] l.attributes@[i]).offset + format_size(
            l.attributes@[i].format,
        ) <= l.array_stride
    &&& forall|i: int|
        0 <= i < l.attributes@.len() - 1 ==> (#[trigger] l.attributes@[i]).offset + format_size(
            l.attributes@[i].format,
        ) <= l.attributes@[i + 1].offset
    &&& forall|i: int|
        0 <= i < l.attributes@.len() - 1 ==> (#[trigger] l.attributes@[i]).shader_location
            < l.attributes@[i + 1].shader_location
}

/// A type that can describe its own vertex buffer layout.
pub trait Vertex {
    fn desc() -> VertexBufferLayout;
}

/// The per-instance buffer's memory shape: one four-by-four transform as
/// four rows, advancing per instance, in the shader locations after the
/// per-vertex attributes.
pub fn instance_raw_layout() -> (l: VertexBufferLayout)
    ensures
        l.array_stride == 64,
        l.step_mode == VertexStepMode::Instance,
        l.attributes@.len() == 4,
        l.attributes@[0] == (VertexAttribute {
            format: VertexFormat::Float32x4,
            offset: 0,
            shader_location: 5,
        }),
        l.attributes@[1] == (VertexAttribute {
            format: VertexFormat::Float32x4,
            offset: 16,
            shader_location: 6,
        }),
        l.attributes@[2] == (VertexAttribute {
            format: VertexFormat::Float32x4,
            offset: 32,
            shader_location: 7,
        }),
        l.attributes@[3] == (VertexAttribute {
            format: VertexFormat::Float32x4,
            offset: 48,
            shader_location: 8,
        }),
        layout_well_formed(l),
{
    let mut attributes: Vec<VertexAttribute> = Vec::new();
    attributes.push(
        VertexAttribute { format: VertexFormat::Float32x4, offset: 0, shader_location: 5 },
    );
    attributes.push(
        VertexAttribute { format: VertexFormat::Float32x4, offset: 16, shader_location: 6 },
    );
    attributes.push(
        VertexAttribute { format: VertexFormat::Float32x4, offset: 32, shader_location: 7 },
    );
    attributes.push(
        VertexAttribute { format: VertexFormat::Float32x4, offset: 48, shader_location: 8 },
    );
    VertexBufferLayout { array_stride: 64, step_mode: VertexStepMode::Instance, attributes }
}

} // verus!
