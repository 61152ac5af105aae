//! Pipeline factory.
//!
//! Render and compute pipelines are immutable configuration values built
//! fully before one creation call.  The fixed-function choices are pinned:
//! triangle-list topology, counter-clockwise front face, no culling, fill
//! polygon mode; and when a depth format is configured, less-or-equal
//! depth testing with writes on and an asymmetric stencil — front faces
//! always pass and replace the reference value, back faces never pass.
//! An unresolved shader entry point is refused at creation time.

use core::marker::PhantomData;
use vstd::prelude::*;

use crate::binding::BindingError;
use crate::binding::BindingLayout;
use crate::binding::BindingSet;
use crate::binding::LayoutEntry;
use crate::binding::LayoutError;
use crate::binding::BoundResource;
use crate::binding::build_layout;
use crate::binding::create_binding_set;
use crate::texture::CompareFunction;
use crate::texture::TextureFormat;
use crate::vertex::VertexBufferLayout;

verus! {

/// A compiled shader unit with named entry points.
#[derive(Debug)]
pub struct ShaderProgram {
    pub label: String,
    pub entry_points: Vec<String>,
}

/// True when the shader declares an entry point of the given name.
pub open spec fn shader_has_entry(shader: ShaderProgram, name: Seq<char>) -> bool {
    exists|i: int|
        0 <= i < shader.entry_points@.len() && (#[trigger] shader.entry_points@[i])@ == name
}

/// True when the shader declares both entry points a render pipeline
/// resolves.
pub open spec fn render_shader_ok(shader: ShaderProgram) -> bool {
    shader_has_entry(shader, "vertex_main"@) && shader_has_entry(shader, "fragment_main"@)
}

/// Executable membership test for [`shader_has_entry`].
pub fn has_entry_point(shader: &ShaderProgram, name: &str) -> (r: bool)
    ensures
        r == shader_has_entry(*shader, name@),
{
    let needle: String = name.to_owned();
    let n = shader.entry_points.len();
    let mut i: usize = 0;
    while i < n
        invariant
            i <= n,
            n == shader.entry_points@.len(),
            needle@ == name@,
            forall|j: int| 0 <= j < i ==> (#[trigger] shader.entry_points@[j])@ != name@,
        decreases n - i,
    {
        if shader.entry_points[i].eq(&needle) {
            return true;
        }
        i += 1;
    }
    false
}

/// How primitives are assembled.
#[derive(Clone, Copy, PartialEq, Eq, Structural, Debug)]
pub enum PrimitiveTopology {
    PointList,
    LineList,
    TriangleList,
    TriangleStrip,
}

/// Which winding counts as front-facing.
#[derive(Clone, Copy, PartialEq, Eq, Structural, Debug)]
pub enum FrontFace {
    Ccw,
    Cw,
}

/// Which faces culling would discard.
#[derive(Clone, Copy, PartialEq, Eq, Structural, Debug)]
pub enum CullFace {
    Front,
    Back,
}

/// How polygons are rasterised.
#[derive(Clone, Copy, PartialEq, Eq, Structural, Debug)]
pub enum PolygonMode {
    Fill,
    Line,
    Point,
}

/// The fixed-function primitive state of a render pipeline.
#[derive(Clone, Copy, PartialEq, Eq, Structural, Debug)]
pub struct PrimitiveConfig {
    pub topology: PrimitiveTopology,
    pub front_face: FrontFace,
    pub cull_mode: Option<CullFace>,
    pub polygon_mode: PolygonMode,
}

/// What a stencil test does to the stored value.
#[derive(Clone, Copy, PartialEq, Eq, Structural, Debug)]
pub enum StencilOperation {
    Keep,
    Zero,
    Replace,
}

/// The stencil behaviour of one face orientation.
#[derive(Clone, Copy, PartialEq, Eq, Structural, Debug)]
pub struct StencilFaceState {
    pub compare: CompareFunction,
    pub fail_op: StencilOperation,
    pub depth_fail_op: StencilOperation,
    pub pass_op: StencilOperation,
}

/// The stencil configuration of a depth-stencil target.
#[derive(Clone, Copy, PartialEq, Eq, Structural, Debug)]
pub struct StencilConfig {
    pub front: StencilFaceState,
    pub back: StencilFaceState,
    pub read_mask: u32,
    pub write_mask: u32,
}

/// Depth and stencil state of a render pipeline.
#[derive(Clone, Copy, PartialEq, Eq, Structural, Debug)]
pub struct DepthStencilConfig {
    pub format: TextureFormat,
    pub depth_write_enabled: bool,
    pub depth_compare: CompareFunction,
    pub stencil: StencilConfig,
}

/// How fragment output blends into a colour target.
#[derive(Clone, Copy, PartialEq, Eq, Structural, Debug)]
pub enum BlendMode {
    Replace,
    AlphaBlending,
}

/// One colour target of a render pipeline.
#[derive(Clone, Copy, PartialEq, Eq, Structural, Debug)]
pub struct ColorTargetConfig {
    pub format: TextureFormat,
    pub blend: BlendMode,
}

/// The one primitive state every render pipeline of this core uses.
pub open spec fn spec_fixed_primitive() -> PrimitiveConfig {
    PrimitiveConfig {
        topology: PrimitiveTopology::TriangleList,
        front_face: FrontFace::Ccw,
        cull_mode: None,
        polygon_mode: PolygonMode::Fill,
    }
}

/// The depth-stencil state derived from a depth format: less-or-equal
/// depth testing with writes on; front-facing fragments always pass and
/// replace the stencil reference, back-facing fragments never pass.
pub open spec fn spec_depth_stencil(format: TextureFormat) -> DepthStencilConfig {
    DepthStencilConfig {
        format,
        depth_write_enabled: true,
        depth_compare: CompareFunction::LessEqual,
        stencil: StencilConfig {
            front: StencilFaceState {
                compare: CompareFunction::Always,
                fail_op: StencilOperation::Keep,
                depth_fail_op: StencilOperation::Keep,
                pass_op: StencilOperation::Replace,
            },
            back: StencilFaceState {
                compare: CompareFunction::Never,
                fail_op: StencilOperation::Keep,
                depth_fail_op: StencilOperation::Keep,
                pass_op: StencilOperation::Keep,
            },
            read_mask: 0xFF,
            write_mask: 0xFF,
        },
    }
}

/// A validated render pipeline configuration.
#[derive(Debug)]
pub struct RenderPipeline {
    pub label: String,
    pub vertex_layouts: Vec<VertexBufferLayout>,
    pub color_targets: Vec<ColorTargetConfig>,
    pub depth_stencil: Option<DepthStencilConfig>,
    pub primitive: PrimitiveConfig,
}

/// A validated compute pipeline configuration.
#[derive(Debug)]
pub struct ComputePipeline {
    pub label: String,
    pub layout_entries: Vec<Vec<LayoutEntry>>,
}

/// Why pipeline creation failed.  Creation failures are fatal and never
/// retried.
#[derive(Clone, Copy, PartialEq, Eq, Structural, Debug)]
pub enum PipelineError {
    /// The shader does not declare the `vertex_main` entry point.
    MissingVertexEntry,
    /// The shader does not declare the `fragment_main` entry point.
    MissingFragmentEntry,
    /// The shader does not declare the `main` compute entry point.
    MissingComputeEntry,
}

/// Builds a render pipeline configuration from a shader program, the
/// vertex buffer layouts it consumes, its colour targets and an optional
/// depth format.  Fails exactly when an entry point is unresolved.
pub fn create_render_pipeline(
    depth_format: Option<TextureFormat>,
    vertex_layouts: Vec<VertexBufferLayout>,
    shader: &ShaderProgram,
    targets: Vec<ColorTargetConfig>,
    label: &str,
) -> (r: Result<RenderPipeline, PipelineError>)
    ensures
        r is Ok <==> shader_has_entry(*shader, "vertex_main"@) && shader_has_entry(
            *shader,
            "fragment_main"@,
        ),
        r matches Ok(p) ==> p.primitive == spec_fixed_primitive() && p.label@ == label@
            && p.vertex_layouts@ == vertex_layouts@ && p.color_targets@ == targets@ && (
        match depth_format {
            Some(f) => p.depth_stencil == Some(spec_depth_stencil(f)),
            None => p.depth_stencil is None,
        }),
        r matches Err(PipelineError::MissingVertexEntry) ==> !shader_has_entry(
            *shader,
            "vertex_main"@,
        ),
        r matches Err(PipelineError::MissingFragmentEntry) ==> shader_has_entry(
            *shader,
            "vertex_main"@,
        ) && !shader_has_entry(*shader, "fragment_main"@),
        !(r matches Err(PipelineError::MissingComputeEntry)),
{
    if !has_entry_point(shader, "vertex_main") {
        return Err(PipelineError::MissingVertexEntry);
    }
    if !has_entry_point(shader, "fragment_main") {
        return Err(PipelineError::MissingFragmentEntry);
    }
    let depth_stencil = match depth_format {
        Some(format) => Some(
            DepthStencilConfig {
                format,
                depth_write_enabled: true,
                depth_compare: CompareFunction::LessEqual,
                stencil: StencilConfig {
                    front: StencilFaceState {
                        compare: CompareFunction::Always,
                        fail_op: StencilOperation::Keep,
                        depth_fail_op: StencilOperation::Keep,
                        pass_op: StencilOperation::Replace,
                    },
                    back: StencilFaceState {
                        compare: CompareFunction::Never,
                        fail_op: StencilOperation::Keep,
                        depth_fail_op: StencilOperation::Keep,
                        pass_op: StencilOperation::Keep,
                    },
                    read_mask: 0xFF,
                    write_mask: 0xFF,
                },
            },
        ),
        None => None,
    };
    Ok(
        RenderPipeline {
            label: label.to_owned(),
            vertex_layouts,
            color_targets: targets,
            depth_stencil,
            primitive: PrimitiveConfig {
                topology: PrimitiveTopology::TriangleList,
                front_face: FrontFace::Ccw,
                cull_mode: None,
                polygon_mode: PolygonMode::Fill,
            },
        },
    )
}

/// Builds a compute pipeline configuration over the given binding
/// layouts, with the single `main` entry point.  Fails exactly when that
/// entry point is unresolved.
pub fn create_compute_pipeline(
    bind_group_layouts: &Vec<BindingLayout>,
    shader: &ShaderProgram,
    label: &str,
) -> (r: Result<ComputePipeline, PipelineError>)
    ensures
        r is Ok <==> shader_has_entry(*shader, "main"@),
        r matches Ok(p) ==> p.label@ == label@ && p.layout_entries@.len()
            == bind_group_layouts@.len() && (forall|i: int|
            0 <= i < bind_group_layouts@.len() ==> (#[trigger] p.layout_entries@[i])@
                == bind_group_layouts@[i].entries@),
        r matches Err(e) ==> e == PipelineError::MissingComputeEntry && !shader_has_entry(
            *shader,
            "main"@,
        ),
{
    if !has_entry_point(shader, "main") {
        return Err(PipelineError::MissingComputeEntry);
    }
    let n = bind_group_layouts.len();
    let mut layout_entries: Vec<Vec<LayoutEntry>> = Vec::new();
    let mut i: usize = 0;
    while i < n
        invariant
            i <= n,
            n == bind_group_layouts@.len(),
            layout_entries@.len() == i,
            forall|j: int|
                0 <= j < i ==> (#[trigger] layout_entries@[j])@ == bind_group_layouts@[j].entries@,
        decreases n - i,
    {
        layout_entries.push(copy_layout_entries(&bind_group_layouts[i].entries));
        i += 1;
    }
    Ok(ComputePipeline { label: label.to_owned(), layout_entries })
}

/// Copies a layout's entry list for a pipeline configuration to keep.
fn copy_layout_entries(entries: &Vec<LayoutEntry>) -> (r: Vec<LayoutEntry>)
    ensures
        r@ == entries@,
{
    let mut out: Vec<LayoutEntry> = Vec::new();
    let n = entries.len();
    let mut i: usize = 0;
    while i < n
        invariant
            i <= n,
            n == entries@.len(),
            out@ == entries@.subrange(0, i as int),
        decreases n - i,
    {
        out.push(entries[i]);
        i += 1;
    }
    proof {
        assert(out@ =~= entries@);
    }
    out
}

/// A type that can declare its own binding layout and, per instance, the
/// concrete resources to attach.  The layout description is pinned at the
/// specification level, so a binder built for the type holds exactly the
/// declared entries; conformance of the instance list stays validated
/// when the binding set is created, not by the type system.
pub trait Bindable {
    /// The declared binding layout, as a specification value.
    spec fn spec_layout() -> Seq<LayoutEntry>;

    /// The declared binding layout, as the GPU API receives it.
    fn layout_entries() -> (r: Vec<LayoutEntry>)
        ensures
            r@ == Self::spec_layout(),
    ;

    fn bind_group_entries(&self) -> Vec<BoundResource>;
}

/// Builds one binding layout for a bindable type and instantiates binding
/// sets against it.
#[derive(Debug)]
pub struct Binder<T: Bindable> {
    pub layout: BindingLayout,
    pub marker: PhantomData<T>,
}

impl<T: Bindable> Binder<T> {
    /// Builds the layout from exactly the type's own static description,
    /// once per type.  Succeeds exactly when that description's slots are
    /// numbered consecutively from zero.
    pub fn new(label: &str) -> (r: Result<Self, LayoutError>)
        ensures
            r is Ok <==> crate::binding::entries_well_formed(T::spec_layout()),
            r matches Ok(b) ==> b.layout.wf() && b.layout.entries@ == T::spec_layout()
                && b.layout.label@ == label@,
            r matches Err(e) ==> e matches LayoutError::SlotOutOfOrder { position } && 0 <= position
                < T::spec_layout().len() && T::spec_layout()[position as int].binding != position,
    {
        let entries = T::layout_entries();
        match build_layout(entries, label) {
            Ok(layout) => Ok(Binder { layout, marker: PhantomData }),
            Err(e) => Err(e),
        }
    }

    /// Attaches one instance's resources against the built layout.  The
    /// result, whatever the instance handed over, conforms to the layout.
    pub fn create_bind_group(&self, data: &T, label: &str) -> (r: Result<BindingSet, BindingError>)
        requires
            self.layout.wf(),
        ensures
            r matches Ok(s) ==> s.wf() && s.entries@ == self.layout.entries@ && s.label@ == label@,
    {
        let resources = data.bind_group_entries();
        create_binding_set(resources, &self.layout, label)
    }
}

} // verus!
