//! The renderer's state: render targets, binding sets, pipelines, and the
//! per-frame two-pass protocol.
//!
//! The state owns the geometry-pass colour targets, the depth-stencil
//! target and the binding set that the compositing pass samples them
//! through.  Resizing recreates every target at the new surface
//! dimensions times the render scale and rebuilds the dependent binding
//! set — never patches it — so no binding set ever references a
//! pre-resize target.  A frame is planned as exactly two passes, geometry
//! then compositing, recorded in one command sequence.
//!
//! The per-frame light rotation and the view-projection matrix are
//! floating-point work of the outside math collaborator and live with the
//! presentation layer, which feeds this state plain values.

use vstd::prelude::*;

use crate::binding::BindingLayout;
use crate::binding::BindingSet;
use crate::binding::BoundResource;
use crate::binding::IdGen;
use crate::binding::LayoutEntry;
use crate::binding::ResourceId;
use crate::binding::ResourceKind;
use crate::binding::StageSet;
use crate::binding::build_layout;
use crate::binding::create_binding_set;
use crate::binding::entries_well_formed;
use crate::binding::kind_of;
use crate::camera::Camera;
use crate::camera::CameraController;
use crate::camera::WindowInput;
use crate::camera::input_recognised;
use crate::camera::key_state;
use crate::camera::KeyCode;
use crate::model::Material;
use crate::model::Mesh;
use crate::model::Model;
use crate::model::ModelLoader;
use crate::model::Vec3I;
use crate::model::create_material;
use crate::model::material_layout_entries;
use crate::model::model_vertex_layout;
use crate::model::quad_vertex_layout;
use crate::model::spec_material_layout;
use crate::model::spec_material_resources;
use crate::model::lemma_material_resources_conform;
use crate::pipeline::ColorTargetConfig;
use crate::pipeline::BlendMode;
use crate::pipeline::PipelineError;
use crate::pipeline::RenderPipeline;
use crate::pipeline::ShaderProgram;
use crate::pipeline::create_render_pipeline;
use crate::pipeline::has_entry_point;
use crate::pipeline::render_shader_ok;
use crate::pipeline::spec_depth_stencil;
use crate::pipeline::spec_fixed_primitive;
use crate::texture::RenderScale;
use crate::texture::SurfaceConfig;
use crate::texture::Texture;
use crate::texture::TextureFormat;
use crate::texture::spec_scaled_dim;
use crate::vertex::VertexBufferLayout;

verus! {

/// The stencil reference the light-marker draws write.
pub const LIGHT_STENCIL_REF: u32 = 32;

/// The stencil reference the scene-geometry draws write.
pub const MODEL_STENCIL_REF: u32 = 64;

/// The value the stencil buffer is cleared to each frame.
pub const STENCIL_CLEAR_VALUE: u32 = 0xFF;

/// The stable identity slot of the depth-stencil target.
pub const DEPTH_TARGET_SLOT: u64 = 0;

/// The stable identity slot of the diffuse colour target.
pub const DIFFUSE_TARGET_SLOT: u64 = 1;

/// The stable identity slot of the specular/normal colour target.
pub const SPECULAR_TARGET_SLOT: u64 = 2;

/// The first identity slot handed to buffers, past the fixed target
/// slots.
pub const FIRST_BUFFER_SLOT: u64 = 3;

/// An 8-bit colour; normalising it to the floating-point range the GPU
/// API wants is the presentation layer's work.
#[derive(Clone, Copy, PartialEq, Eq, Structural, Debug)]
pub struct Rgb8 {
    pub r: u8,
    pub g: u8,
    pub b: u8,
}

/// The window's pixel dimensions.
#[derive(Clone, Copy, PartialEq, Eq, Structural, Debug)]
pub struct SurfaceSize {
    pub width: u32,
    pub height: u32,
}

/// The binding layout of a single uniform buffer read by the vertex and
/// fragment stages, used by the camera uniforms and the light.
pub open spec fn spec_uniform_layout() -> Seq<LayoutEntry> {
    seq![
        LayoutEntry {
            binding: 0,
            visibility: StageSet::VertexFragment,
            kind: ResourceKind::UniformBuffer,
        },
    ]
}

/// Executable mirror of [`spec_uniform_layout`].
pub fn uniform_layout_entries() -> (r: Vec<LayoutEntry>)
    ensures
        r@ =~= spec_uniform_layout(),
        entries_well_formed(r@),
{
    let mut r: Vec<LayoutEntry> = Vec::new();
    r.push(
        LayoutEntry {
            binding: 0,
            visibility: StageSet::VertexFragment,
            kind: ResourceKind::UniformBuffer,
        },
    );
    r
}

/// A render target that is current for this state: the expected identity
/// slot, the current generation, and dimensions equal to the surface
/// dimensions times the render scale, floored.
pub open spec fn target_current(
    t: Texture,
    slot: u64,
    generation: u64,
    config: SurfaceConfig,
    scale: RenderScale,
) -> bool {
    &&& t.id.slot == slot
    &&& t.id.generation == generation
    &&& t.width == spec_scaled_dim(config.width as int, scale.num as int, scale.den as int)
    &&& t.height == spec_scaled_dim(config.height as int, scale.num as int, scale.den as int)
}

/// How a colour attachment begins its pass.
#[derive(Clone, Copy, PartialEq, Eq, Structural, Debug)]
pub enum AttachmentLoad {
    Clear(Rgb8),
    Load,
}

/// How the depth plane begins its pass.
#[derive(Clone, Copy, PartialEq, Eq, Structural, Debug)]
pub enum DepthLoad {
    /// Cleared to the farthest depth, so every fragment passes the
    /// less-or-equal test.
    ClearToFarthest,
    Load,
}

/// How the stencil plane begins its pass.
#[derive(Clone, Copy, PartialEq, Eq, Structural, Debug)]
pub enum StencilLoad {
    Clear(u32),
    Load,
}

/// One colour attachment of a pass.
#[derive(Clone, Copy, PartialEq, Eq, Structural, Debug)]
pub struct ColorAttachment {
    pub target: ResourceId,
    pub load: AttachmentLoad,
}

/// The depth-stencil attachment of the geometry pass.
#[derive(Clone, Copy, PartialEq, Eq, Structural, Debug)]
pub struct DepthAttachment {
    pub target: ResourceId,
    pub depth_load: DepthLoad,
    pub stencil_load: StencilLoad,
}

/// Which pipeline a draw uses.
#[derive(Clone, Copy, PartialEq, Eq, Structural, Debug)]
pub enum PassPipeline {
    Light,
    Deferred,
    Output,
}

/// One recorded draw.
#[derive(Clone, Copy, PartialEq, Eq, Structural, Debug)]
pub struct DrawCall {
    pub pipeline: PassPipeline,
    pub stencil_reference: u32,
    pub mesh_index: usize,
    pub index_count: u32,
    pub instance_count: u32,
}

/// The geometry pass: both colour targets and the depth-stencil target
/// cleared, light markers drawn first, then the instanced scene draws.
#[derive(Debug)]
pub struct GeometryPass {
    pub color_attachments: Vec<ColorAttachment>,
    pub depth_attachment: DepthAttachment,
    pub draws: Vec<DrawCall>,
}

/// The compositing pass: the presentation surface cleared, the two
/// geometry-pass colour targets sampled, one full-screen quad drawn.
#[derive(Debug)]
pub struct CompositePass {
    pub surface_load: AttachmentLoad,
    pub source_targets: (ResourceId, ResourceId),
    pub draw: DrawCall,
}

/// One frame's plan: the geometry pass, then the compositing pass,
/// recorded strictly in that order in one command sequence, then a
/// present.
#[derive(Debug)]
pub struct FramePlan {
    pub geometry: GeometryPass,
    pub composite: CompositePass,
    pub present: bool,
}

/// What the platform reports when acquiring the presentable target
/// fails.
#[derive(Clone, Copy, PartialEq, Eq, Structural, Debug)]
pub enum SurfaceError {
    Timeout,
    Outdated,
    Lost,
    OutOfMemory,
}

/// What the frame loop does about a failed acquisition.
#[derive(Clone, Copy, PartialEq, Eq, Structural, Debug)]
pub enum RecoveryAction {
    /// Reconfigure the targets at the current size and resume.
    ReconfigureAndContinue,
    /// Stop the frame loop.
    Halt,
    /// Log and skip this frame.
    SkipFrame,
}

/// Classifies a surface-acquisition failure: a lost target triggers
/// immediate reconfiguration at the current size, out-of-memory stops the
/// loop, anything else skips the frame.
pub fn classify_surface_error(e: &SurfaceError) -> (a: RecoveryAction)
    ensures
        a == RecoveryAction::ReconfigureAndContinue <==> e is Lost,
        a == RecoveryAction::Halt <==> e is OutOfMemory,
        a == RecoveryAction::SkipFrame <==> (e is Timeout || e is Outdated),
{
    match e {
        SurfaceError::Lost => RecoveryAction::ReconfigureAndContinue,
        SurfaceError::OutOfMemory => RecoveryAction::Halt,
        SurfaceError::Timeout => RecoveryAction::SkipFrame,
        SurfaceError::Outdated => RecoveryAction::SkipFrame,
    }
}

/// Creates one uniform-buffer binding set: a fresh buffer identity
/// attached against the single-slot uniform layout.
fn create_uniform_bind_group(ids: &mut IdGen, label: &str) -> (s: BindingSet)
    requires
        old(ids).next_slot < u64::MAX,
    ensures
        s.wf(),
        s.entries@ =~= spec_uniform_layout(),
        s.label@ == label@,
        final(ids).next_slot == old(ids).next_slot + 1,
{
    let layout = match build_layout(uniform_layout_entries(), "Uniform Bind Group Layout") {
        Ok(l) => l,
        Err(_) => {
            proof {
                assert(false);
            }
            BindingLayout { label: String::new(), entries: Vec::new() }
        },
    };
    let buffer = ids.fresh();
    let mut resources: Vec<BoundResource> = Vec::new();
    resources.push(BoundResource::UniformBuffer { id: buffer });
    proof {
        assert forall|i: int| 0 <= i < 1 implies kind_of(#[trigger] resources@[i])
            == layout.entries@[i].kind by {
            assert(i == 0);
        }
    }
    match create_binding_set(resources, &layout, label) {
        Ok(s) => s,
        Err(_) => {
            proof {
                assert(false);
            }
            BindingSet { label: String::new(), entries: Vec::new(), resources: Vec::new() }
        },
    }
}

/// Creates the depth target, the two colour targets and the compositing
/// material over them, all at the given generation and sized to the
/// surface dimensions times the render scale.
fn create_frame_resources(config: &SurfaceConfig, render_scale: RenderScale, generation: u64) -> (r:
    (Texture, Material))
    requires
        render_scale.wf(),
    ensures
        target_current(r.0, DEPTH_TARGET_SLOT, generation, *config, render_scale),
        r.0.format == Texture::spec_depth_format(),
        r.1.textures@.len() == 2,
        r.1.textures@[0].0@ == "ss_diffuse"@,
        r.1.textures@[1].0@ == "ss_specular"@,
        target_current(r.1.textures@[0].1, DIFFUSE_TARGET_SLOT, generation, *config, render_scale),
        target_current(r.1.textures@[1].1, SPECULAR_TARGET_SLOT, generation, *config, render_scale),
        r.1.textures@[0].1.format == config.format,
        r.1.textures@[1].1.format == config.format,
        r.1.textures@[0].1.sampler.compare is None,
        r.1.textures@[1].1.sampler.compare is None,
        r.1.bind_group.wf(),
        r.1.bind_group.entries@ =~= spec_material_layout(),
        r.1.bind_group.resources@ =~= spec_material_resources(
            r.1.textures@[0].1,
            r.1.textures@[1].1,
        ),
{
    let depth_texture = Texture::create_depth_texture(
        config,
        render_scale,
        ResourceId { slot: DEPTH_TARGET_SLOT, generation },
    );
    let diffuse_texture = Texture::create_render_texture(
        config,
        render_scale,
        ResourceId { slot: DIFFUSE_TARGET_SLOT, generation },
    );
    let specular_texture = Texture::create_render_texture(
        config,
        render_scale,
        ResourceId { slot: SPECULAR_TARGET_SLOT, generation },
    );
    let output_binding_layout = match build_layout(
        material_layout_entries(),
        "Texture bind group layout",
    ) {
        Ok(l) => l,
        Err(_) => {
            proof {
                assert(false);
            }
            BindingLayout { label: String::new(), entries: Vec::new() }
        },
    };
    proof {
        lemma_material_resources_conform(diffuse_texture, specular_texture);
    }
    let render_material = match create_material(
        "Output Quad Textures",
        "ss_diffuse",
        diffuse_texture,
        "ss_specular",
        specular_texture,
        &output_binding_layout,
    ) {
        Ok(m) => m,
        Err(_) => {
            proof {
                assert(false);
            }
            Material {
                name: String::new(),
                textures: Vec::new(),
                bind_group: BindingSet {
                    label: String::new(),
                    entries: Vec::new(),
                    resources: Vec::new(),
                },
            }
        },
    };
    (depth_texture, render_material)
}

/// Builds the deferred geometry pipeline: fixed depth-stencil state and
/// two colour targets of the surface format.
#[verifier::rlimit(100)]
fn build_deferred_pipeline(format: TextureFormat, shader: &ShaderProgram) -> (p: RenderPipeline)
    requires
        render_shader_ok(*shader),
    ensures
        p.primitive == spec_fixed_primitive(),
        p.depth_stencil == Some(spec_depth_stencil(Texture::spec_depth_format())),
        p.color_targets@.len() == 2,
        p.color_targets@[0].format == format,
        p.color_targets@[1].format == format,
{
    let mut vertex_layouts: Vec<VertexBufferLayout> = Vec::new();
    vertex_layouts.push(model_vertex_layout());
    vertex_layouts.push(crate::vertex::instance_raw_layout());
    let mut targets: Vec<ColorTargetConfig> = Vec::new();
    targets.push(ColorTargetConfig { format, blend: BlendMode::Replace });
    targets.push(ColorTargetConfig { format, blend: BlendMode::Replace });
    match create_render_pipeline(
        Some(Texture::depth_format()),
        vertex_layouts,
        shader,
        targets,
        "Render Pipeline",
    ) {
        Ok(p) => p,
        Err(_) => {
            proof {
                assert(false);
            }
            dummy_pipeline()
        },
    }
}

/// Builds the light-marker pipeline: fixed depth-stencil state and two
/// colour targets of the surface format.
#[verifier::rlimit(100)]
fn build_light_pipeline(format: TextureFormat, shader: &ShaderProgram) -> (p: RenderPipeline)
    requires
        render_shader_ok(*shader),
    ensures
        p.primitive == spec_fixed_primitive(),
        p.depth_stencil == Some(spec_depth_stencil(Texture::spec_depth_format())),
        p.color_targets@.len() == 2,
        p.color_targets@[0].format == format,
        p.color_targets@[1].format == format,
{
    let mut vertex_layouts: Vec<VertexBufferLayout> = Vec::new();
    vertex_layouts.push(model_vertex_layout());
    let mut targets: Vec<ColorTargetConfig> = Vec::new();
    targets.push(ColorTargetConfig { format, blend: BlendMode::Replace });
    targets.push(ColorTargetConfig { format, blend: BlendMode::Replace });
    match create_render_pipeline(
        Some(Texture::depth_format()),
        vertex_layouts,
        shader,
        targets,
        "Light render pipeline",
    ) {
        Ok(p) => p,
        Err(_) => {
            proof {
                assert(false);
            }
            dummy_pipeline()
        },
    }
}

/// Builds the compositing pipeline: one colour target of the surface
/// format, no depth.
fn build_output_pipeline(format: TextureFormat, shader: &ShaderProgram) -> (p: RenderPipeline)
    requires
        render_shader_ok(*shader),
    ensures
        p.primitive == spec_fixed_primitive(),
        p.depth_stencil is None,
        p.color_targets@.len() == 1,
        p.color_targets@[0].format == format,
{
    let mut vertex_layouts: Vec<VertexBufferLayout> = Vec::new();
    vertex_layouts.push(quad_vertex_layout());
    let mut targets: Vec<ColorTargetConfig> = Vec::new();
    targets.push(ColorTargetConfig { format, blend: BlendMode::Replace });
    match create_render_pipeline(None, vertex_layouts, shader, targets, "Output Pipeline") {
        Ok(p) => p,
        Err(_) => {
            proof {
                assert(false);
            }
            dummy_pipeline()
        },
    }
}

/// A placeholder pipeline value for branches proved unreachable.
fn dummy_pipeline() -> RenderPipeline {
    RenderPipeline {
        label: String::new(),
        vertex_layouts: Vec::new(),
        color_targets: Vec::new(),
        depth_stencil: None,
        primitive: crate::pipeline::PrimitiveConfig {
            topology: crate::pipeline::PrimitiveTopology::TriangleList,
            front_face: crate::pipeline::FrontFace::Ccw,
            cull_mode: None,
            polygon_mode: crate::pipeline::PolygonMode::Fill,
        },
    }
}

/// Why resizing was refused.
#[derive(Clone, Copy, PartialEq, Eq, Structural, Debug)]
pub enum ResizeError {
    /// A zero width or height: the surface cannot be configured to it.
    DegenerateSize,
    /// The generation counter cannot grow further.
    GenerationExhausted,
}

/// Everything of two states agrees but the camera controller.
pub open spec fn unchanged_but_controller(a: State, b: State) -> bool {
    &&& a.surface_config == b.surface_config
    &&& a.size == b.size
    &&& a.bg_color == b.bg_color
    &&& a.render_scale == b.render_scale
    &&& a.camera == b.camera
    &&& a.uniform_bind_group == b.uniform_bind_group
    &&& a.light_bind_group == b.light_bind_group
    &&& a.instance_count == b.instance_count
    &&& a.depth_texture == b.depth_texture
    &&& a.obj_model == b.obj_model
    &&& a.screen_quad == b.screen_quad
    &&& a.render_material == b.render_material
    &&& a.deferred_render_pipeline == b.deferred_render_pipeline
    &&& a.light_render_pipeline == b.light_render_pipeline
    &&& a.output_render_pipeline == b.output_render_pipeline
    &&& a.generation == b.generation
    &&& a.ids == b.ids
}

/// Which pipeline creation failed while building the state.
#[derive(Clone, Copy, PartialEq, Eq, Structural, Debug)]
pub enum PipelineStage {
    Deferred,
    Light,
    Output,
}

/// Why building the state failed.  All of these are fatal: the process
/// has nothing to render with.
#[derive(Clone, Copy, PartialEq, Eq, Structural, Debug)]
pub enum StateError {
    /// The surface has a zero dimension.
    DegenerateSurface,
    /// The render scale is not a positive rational.
    InvalidRenderScale,
    /// The first mesh whose material index is outside the model's
    /// material list.
    InvalidModel { mesh: usize },
    /// A shader of the named stage lacks a required entry point.
    Pipeline { stage: PipelineStage, error: PipelineError },
}

/// The renderer's state.
#[derive(Debug)]
pub struct State {
    pub surface_config: SurfaceConfig,
    pub size: SurfaceSize,
    pub bg_color: Rgb8,
    pub render_scale: RenderScale,
    pub camera: Camera,
    pub camera_controller: CameraController,
    pub uniform_bind_group: BindingSet,
    pub light_bind_group: BindingSet,
    pub instance_count: u32,
    pub depth_texture: Texture,
    pub obj_model: Model,
    pub screen_quad: Mesh,
    pub render_material: Material,
    pub deferred_render_pipeline: RenderPipeline,
    pub light_render_pipeline: RenderPipeline,
    pub output_render_pipeline: RenderPipeline,
    pub generation: u64,
    pub ids: IdGen,
}

impl State {
    /// The two colour targets the compositing pass samples.
    pub open spec fn diffuse_target(self) -> Texture {
        self.render_material.textures@[0].1
    }

    pub open spec fn specular_target(self) -> Texture {
        self.render_material.textures@[1].1
    }

    /// The state's invariant: the surface is non-degenerate, the camera
    /// aspect tracks it exactly, every render target is current — sized
    /// to the surface dimensions times the render scale, at the current
    /// generation — and the compositing binding set conforms to the
    /// material layout over exactly those targets.
    #[verifier::opaque]
    pub open spec fn wf(self) -> bool {
        &&& self.surface_config.width > 0
        &&& self.surface_config.height > 0
        &&& self.size.width == self.surface_config.width
        &&& self.size.height == self.surface_config.height
        &&& self.render_scale.wf()
        &&& self.camera.aspect_num == self.surface_config.width
        &&& self.camera.aspect_den == self.surface_config.height
        &&& target_current(
            self.depth_texture,
            DEPTH_TARGET_SLOT,
            self.generation,
            self.surface_config,
            self.render_scale,
        )
        &&& self.depth_texture.format == Texture::spec_depth_format()
        &&& self.render_material.textures@.len() == 2
        &&& target_current(
            self.diffuse_target(),
            DIFFUSE_TARGET_SLOT,
            self.generation,
            self.surface_config,
            self.render_scale,
        )
        &&& target_current(
            self.specular_target(),
            SPECULAR_TARGET_SLOT,
            self.generation,
            self.surface_config,
            self.render_scale,
        )
        &&& self.diffuse_target().format == self.surface_config.format
        &&& self.specular_target().format == self.surface_config.format
        &&& self.diffuse_target().sampler.compare is None
        &&& self.specular_target().sampler.compare is None
        &&& self.render_material.bind_group.wf()
        &&& self.render_material.bind_group.entries@ =~= spec_material_layout()
        &&& self.render_material.bind_group.resources@ =~= spec_material_resources(
            self.diffuse_target(),
            self.specular_target(),
        )
        &&& self.uniform_bind_group.wf()
        &&& self.uniform_bind_group.entries@ =~= spec_uniform_layout()
        &&& self.light_bind_group.wf()
        &&& self.light_bind_group.entries@ =~= spec_uniform_layout()
        &&& self.screen_quad.num_elements == 6
        &&& self.obj_model.wf()
        &&& self.deferred_render_pipeline.primitive == spec_fixed_primitive()
        &&& self.deferred_render_pipeline.depth_stencil == Some(
            spec_depth_stencil(Texture::spec_depth_format()),
        )
        &&& self.deferred_render_pipeline.color_targets@.len() == 2
        &&& self.light_render_pipeline.primitive == spec_fixed_primitive()
        &&& self.light_render_pipeline.depth_stencil == Some(
            spec_depth_stencil(Texture::spec_depth_format()),
        )
        &&& self.light_render_pipeline.color_targets@.len() == 2
        &&& self.output_render_pipeline.primitive == spec_fixed_primitive()
        &&& self.output_render_pipeline.depth_stencil is None
        &&& self.output_render_pipeline.color_targets@.len() == 1
        &&& self.output_render_pipeline.color_targets@[0].format == self.surface_config.format
    }

    /// Builds the renderer state: camera and controller, the uniform and
    /// light binding sets, the three render pipelines, the three render
    /// targets at surface dimensions times the render scale, the
    /// compositing binding set over the two colour targets, and the
    /// full-screen quad.  Fails exactly on a degenerate surface, a
    /// degenerate render scale, a model whose mesh names a missing
    /// material, or an unresolved shader entry point; every failure is
    /// fatal.
    #[verifier::rlimit(100)]
    pub fn new(
        config: SurfaceConfig,
        render_scale: RenderScale,
        bg_color: Rgb8,
        shader: &ShaderProgram,
        light_shader: &ShaderProgram,
        output_shader: &ShaderProgram,
        obj_model: Model,
        instance_count: u32,
    ) -> (r: Result<State, StateError>)
        ensures
            r is Ok <==> config.width > 0 && config.height > 0 && render_scale.wf()
                && obj_model.wf() && render_shader_ok(*shader) && render_shader_ok(*light_shader)
                && render_shader_ok(*output_shader),
            r matches Ok(s) ==> s.wf() && s.surface_config == config && s.bg_color == bg_color
                && s.render_scale == render_scale && s.instance_count == instance_count
                && s.generation == 0 && s.obj_model == obj_model && s.camera == (Camera {
                eye: Vec3I { x: 0i64, y: 1000i64, z: 2000i64 },
                target: Vec3I { x: 0i64, y: 0i64, z: 0i64 },
                up: Vec3I { x: 0i64, y: 1000i64, z: 0i64 },
                aspect_num: config.width,
                aspect_den: config.height,
                fov_y_milli_deg: 45000u32,
                z_near_milli: 100u32,
                z_far_milli: 1000000u32,
            }) && s.camera_controller == (CameraController {
                speed_milli: 200u32,
                up_pressed: false,
                down_pressed: false,
                forward_pressed: false,
                backward_pressed: false,
                left_pressed: false,
                right_pressed: false,
            }),
            r matches Err(StateError::DegenerateSurface) ==> config.width == 0 || config.height
                == 0,
            r matches Err(StateError::InvalidRenderScale) ==> config.width > 0 && config.height > 0
                && !render_scale.wf(),
            r matches Err(StateError::InvalidModel { mesh }) ==> config.width > 0 && config.height
                > 0 && render_scale.wf() && 0 <= mesh < obj_model.meshes@.len()
                && obj_model.meshes@[mesh as int].material >= obj_model.materials@.len(),
            r matches Err(StateError::Pipeline { stage, error }) ==> config.width > 0
                && config.height > 0 && render_scale.wf() && obj_model.wf() && (match stage {
                PipelineStage::Deferred => !render_shader_ok(*shader),
                PipelineStage::Light => render_shader_ok(*shader) && !render_shader_ok(
                    *light_shader,
                ),
                PipelineStage::Output => render_shader_ok(*shader) && render_shader_ok(
                    *light_shader,
                ) && !render_shader_ok(*output_shader),
            }) && (error == PipelineError::MissingComputeEntry ==> false),
    {
        if config.width == 0 || config.height == 0 {
            return Err(StateError::DegenerateSurface);
        }
        if render_scale.num == 0 || render_scale.den == 0 {
            return Err(StateError::InvalidRenderScale);
        }
        let nm = obj_model.meshes.len();
        let mut m: usize = 0;
        while m < nm
            invariant
                m <= nm,
                nm == obj_model.meshes@.len(),
                config.width > 0,
                config.height > 0,
                render_scale.wf(),
                forall|j: int|
                    0 <= j < m ==> (#[trigger] obj_model.meshes@[j]).material
                        < obj_model.materials@.len(),
            decreases nm - m,
        {
            if obj_model.meshes[m].material >= obj_model.materials.len() {
                return Err(StateError::InvalidModel { mesh: m });
            }
            m += 1;
        }
        if !has_entry_point(shader, "vertex_main") {
            return Err(
                StateError::Pipeline {
                    stage: PipelineStage::Deferred,
                    error: PipelineError::MissingVertexEntry,
                },
            );
        }
        if !has_entry_point(shader, "fragment_main") {
            return Err(
                StateError::Pipeline {
                    stage: PipelineStage::Deferred,
                    error: PipelineError::MissingFragmentEntry,
                },
            );
        }
        if !has_entry_point(light_shader, "vertex_main") {
            return Err(
                StateError::Pipeline {
                    stage: PipelineStage::Light,
                    error: PipelineError::MissingVertexEntry,
                },
            );
        }
        if !has_entry_point(light_shader, "fragment_main") {
            return Err(
                StateError::Pipeline {
                    stage: PipelineStage::Light,
                    error: PipelineError::MissingFragmentEntry,
                },
            );
        }
        if !has_entry_point(output_shader, "vertex_main") {
            return Err(
                StateError::Pipeline {
                    stage: PipelineStage::Output,
                    error: PipelineError::MissingVertexEntry,
                },
            );
        }
        if !has_entry_point(output_shader, "fragment_main") {
            return Err(
                StateError::Pipeline {
                    stage: PipelineStage::Output,
                    error: PipelineError::MissingFragmentEntry,
                },
            );
        }
        let camera = Camera {
            eye: Vec3I { x: 0, y: 1000, z: 2000 },
            target: Vec3I { x: 0, y: 0, z: 0 },
            up: Vec3I { x: 0, y: 1000, z: 0 },
            aspect_num: config.width,
            aspect_den: config.height,
            fov_y_milli_deg: 45000,
            z_near_milli: 100,
            z_far_milli: 1000000,
        };
        let camera_controller = CameraController::new(200);
        let mut ids = IdGen { next_slot: FIRST_BUFFER_SLOT };
        let uniform_bind_group = create_uniform_bind_group(&mut ids, "Uniform Bind Group");
        let light_bind_group = create_uniform_bind_group(&mut ids, "Light Bind Group");
        let deferred_render_pipeline = build_deferred_pipeline(config.format, shader);
        let light_render_pipeline = build_light_pipeline(config.format, light_shader);
        let output_render_pipeline = build_output_pipeline(config.format, output_shader);
        let (depth_texture, render_material) = create_frame_resources(&config, render_scale, 0);
        let (screen_quad, _, _) = ModelLoader::create_screen_quad_mesh(&mut ids);
        let st = State {
            surface_config: config,
            size: SurfaceSize { width: config.width, height: config.height },
            bg_color,
            render_scale,
            camera,
            camera_controller,
            uniform_bind_group,
            light_bind_group,
            instance_count,
            depth_texture,
            obj_model,
            screen_quad,
            render_material,
            deferred_render_pipeline,
            light_render_pipeline,
            output_render_pipeline,
            generation: 0,
            ids,
        };
        proof {
            reveal(State::wf);
            assert(st.wf());
        }
        Ok(st)
    }

    /// Hands one window input to the camera controller.  Everything but
    /// the controller's held-key flags is unchanged.
    pub fn input(&mut self, event: &WindowInput) -> (handled: bool)
        ensures
            handled == input_recognised(*event),
            unchanged_but_controller(*old(self), *final(self)),
            final(self).camera_controller.speed_milli == old(self).camera_controller.speed_milli,
            final(self).camera_controller.up_pressed == key_state(
                *event,
                KeyCode::Space,
                old(self).camera_controller.up_pressed,
            ),
            final(self).camera_controller.down_pressed == key_state(
                *event,
                KeyCode::Control,
                old(self).camera_controller.down_pressed,
            ),
            final(self).camera_controller.forward_pressed == key_state(
                *event,
                KeyCode::CharW,
                old(self).camera_controller.forward_pressed,
            ),
            final(self).camera_controller.backward_pressed == key_state(
                *event,
                KeyCode::CharS,
                old(self).camera_controller.backward_pressed,
            ),
            final(self).camera_controller.left_pressed == key_state(
                *event,
                KeyCode::CharA,
                old(self).camera_controller.left_pressed,
            ),
            final(self).camera_controller.right_pressed == key_state(
                *event,
                KeyCode::CharD,
                old(self).camera_controller.right_pressed,
            ),
            old(self).wf() ==> final(self).wf(),
    {
        proof {
            reveal(State::wf);
        }
        self.camera_controller.process_inputs(event)
    }

    /// Recreates every render target at the new dimensions times the
    /// render scale, reconfigures the surface to the new size, recomputes
    /// the camera aspect ratio, and rebuilds the compositing binding set
    /// over the new targets — the old set is discarded, never patched, so
    /// nothing references a pre-resize target.  Degenerate sizes are
    /// rejected and leave the state untouched.
    #[verifier::rlimit(100)]
    pub fn resize(&mut self, width: u32, height: u32) -> (r: Result<(), ResizeError>)
        requires
            old(self).wf(),
        ensures
            r is Ok <==> width > 0 && height > 0 && old(self).generation < u64::MAX,
            r matches Err(ResizeError::DegenerateSize) ==> (width == 0 || height == 0)
                && *final(self) == *old(self),
            r matches Err(ResizeError::GenerationExhausted) ==> width > 0 && height > 0
                && old(self).generation == u64::MAX && *final(self) == *old(self),
            r is Ok ==> {
                &&& final(self).wf()
                &&& final(self).surface_config == (SurfaceConfig {
                    width,
                    height,
                    format: old(self).surface_config.format,
                })
                &&& final(self).size == (SurfaceSize { width, height })
                &&& final(self).generation == old(self).generation + 1
                &&& final(self).depth_texture.width == spec_scaled_dim(
                    width as int,
                    old(self).render_scale.num as int,
                    old(self).render_scale.den as int,
                )
                &&& final(self).depth_texture.height == spec_scaled_dim(
                    height as int,
                    old(self).render_scale.num as int,
                    old(self).render_scale.den as int,
                )
                &&& final(self).diffuse_target().width == spec_scaled_dim(
                    width as int,
                    old(self).render_scale.num as int,
                    old(self).render_scale.den as int,
                )
                &&& final(self).diffuse_target().height == spec_scaled_dim(
                    height as int,
                    old(self).render_scale.num as int,
                    old(self).render_scale.den as int,
                )
                &&& final(self).specular_target().width == spec_scaled_dim(
                    width as int,
                    old(self).render_scale.num as int,
                    old(self).render_scale.den as int,
                )
                &&& final(self).specular_target().height == spec_scaled_dim(
                    height as int,
                    old(self).render_scale.num as int,
                    old(self).render_scale.den as int,
                )
                &&& final(self).render_material.bind_group.all_of_generation(
                    final(self).generation,
                )
                &&& final(self).camera.aspect_num == width
                &&& final(self).camera.aspect_den == height
                &&& final(self).camera.eye == old(self).camera.eye
                &&& final(self).camera.target == old(self).camera.target
                &&& final(self).camera.up == old(self).camera.up
                &&& final(self).bg_color == old(self).bg_color
                &&& final(self).render_scale == old(self).render_scale
                &&& final(self).instance_count == old(self).instance_count
                &&& final(self).camera_controller == old(self).camera_controller
                &&& final(self).obj_model == old(self).obj_model
                &&& final(self).screen_quad == old(self).screen_quad
                &&& final(self).uniform_bind_group == old(self).uniform_bind_group
                &&& final(self).light_bind_group == old(self).light_bind_group
                &&& final(self).deferred_render_pipeline == old(self).deferred_render_pipeline
                &&& final(self).light_render_pipeline == old(self).light_render_pipeline
                &&& final(self).output_render_pipeline == old(self).output_render_pipeline
            },
    {
        proof {
            reveal(State::wf);
        }
        if width == 0 || height == 0 {
            return Err(ResizeError::DegenerateSize);
        }
        if self.generation == u64::MAX {
            return Err(ResizeError::GenerationExhausted);
        }
        let generation = self.generation + 1;
        self.generation = generation;
        self.surface_config = SurfaceConfig {
            width,
            height,
            format: self.surface_config.format,
        };
        self.size = SurfaceSize { width, height };
        self.camera.aspect_num = width;
        self.camera.aspect_den = height;
        let (depth_texture, render_material) = create_frame_resources(
            &self.surface_config,
            self.render_scale,
            generation,
        );
        self.depth_texture = depth_texture;
        self.render_material = render_material;
        proof {
            assert forall|i: int|
                0 <= i < self.render_material.bind_group.resources@.len() implies crate::binding::id_of(
                #[trigger] self.render_material.bind_group.resources@[i],
            ).generation == self.generation by {
                assert(self.render_material.bind_group.resources@ =~= spec_material_resources(
                    self.diffuse_target(),
                    self.specular_target(),
                ));
                assert(0 <= i && i < 4);
            }
            assert(self.wf());
        }
        Ok(())
    }

    /// Plans one frame as exactly two passes in one command sequence.
    /// The geometry pass clears both colour targets and the depth-stencil
    /// target, draws each mesh's light marker with the light stencil
    /// reference, then draws each mesh instanced with the model stencil
    /// reference.  The compositing pass clears the presentation surface
    /// to the configured background colour and draws the full-screen quad
    /// over the two colour targets.  The plan ends in a present, and an
    /// empty scene still yields a presented frame cleared to the
    /// background colour.
    pub fn render(&self) -> (plan: FramePlan)
        requires
            self.wf(),
        ensures
            plan.present,
            plan.geometry.color_attachments@.len() == 2,
            plan.geometry.color_attachments@[0] == (ColorAttachment {
                target: self.diffuse_target().id,
                load: AttachmentLoad::Clear(self.bg_color),
            }),
            plan.geometry.color_attachments@[1] == (ColorAttachment {
                target: self.specular_target().id,
                load: AttachmentLoad::Clear(self.bg_color),
            }),
            plan.geometry.depth_attachment == (DepthAttachment {
                target: self.depth_texture.id,
                depth_load: DepthLoad::ClearToFarthest,
                stencil_load: StencilLoad::Clear(STENCIL_CLEAR_VALUE),
            }),
            plan.geometry.draws@.len() == 2 * self.obj_model.meshes@.len(),
            forall|i: int|
                0 <= i < self.obj_model.meshes@.len() ==> {
                    let d = #[trigger] plan.geometry.draws@[i];
                    &&& d.pipeline == PassPipeline::Light
                    &&& d.stencil_reference == LIGHT_STENCIL_REF
                    &&& d.mesh_index == i
                    &&& d.index_count == self.obj_model.meshes@[i].num_elements
                    &&& d.instance_count == 1
                },
            forall|i: int|
                0 <= i < self.obj_model.meshes@.len() ==> {
                    let d = #[trigger] plan.geometry.draws@[self.obj_model.meshes@.len() + i];
                    &&& d.pipeline == PassPipeline::Deferred
                    &&& d.stencil_reference == MODEL_STENCIL_REF
                    &&& d.mesh_index == i
                    &&& d.index_count == self.obj_model.meshes@[i].num_elements
                    &&& d.instance_count == self.instance_count
                },
            plan.composite.surface_load == AttachmentLoad::Clear(self.bg_color),
            plan.composite.source_targets == (self.diffuse_target().id, self.specular_target().id),
            plan.composite.draw == (DrawCall {
                pipeline: PassPipeline::Output,
                stencil_reference: 0u32,
                mesh_index: 0usize,
                index_count: 6u32,
                instance_count: 1u32,
            }),
    {
        proof {
            reveal(State::wf);
        }
        let n = self.obj_model.meshes.len();
        let mut draws: Vec<DrawCall> = Vec::new();
        let mut i: usize = 0;
        while i < n
            invariant
                i <= n,
                n == self.obj_model.meshes@.len(),
                draws@.len() == i,
                forall|j: int|
                    0 <= j < i ==> {
                        let d = #[trigger] draws@[j];
                        &&& d.pipeline == PassPipeline::Light
                        &&& d.stencil_reference == LIGHT_STENCIL_REF
                        &&& d.mesh_index == j
                        &&& d.index_count == self.obj_model.meshes@[j].num_elements
                        &&& d.instance_count == 1
                    },
            decreases n - i,
        {
            draws.push(
                DrawCall {
                    pipeline: PassPipeline::Light,
                    stencil_reference: LIGHT_STENCIL_REF,
                    mesh_index: i,
                    index_count: self.obj_model.meshes[i].num_elements,
                    instance_count: 1,
                },
            );
            i += 1;
        }
        let mut i: usize = 0;
        while i < n
            invariant
                i <= n,
                n == self.obj_model.meshes@.len(),
                draws@.len() == n + i,
                forall|j: int|
                    0 <= j < n ==> {
                        let d = #[trigger] draws@[j];
                        &&& d.pipeline == PassPipeline::Light
                        &&& d.stencil_reference == LIGHT_STENCIL_REF
                        &&& d.mesh_index == j
                        &&& d.index_count == self.obj_model.meshes@[j].num_elements
                        &&& d.instance_count == 1
                    },
                forall|j: int|
                    0 <= j < i ==> {
                        let d = #[trigger] draws@[n + j];
                        &&& d.pipeline == PassPipeline::Deferred
                        &&& d.stencil_reference == MODEL_STENCIL_REF
                        &&& d.mesh_index == j
                        &&& d.index_count == self.obj_model.meshes@[j].num_elements
                        &&& d.instance_count == self.instance_count
                    },
            decreases n - i,
        {
            draws.push(
                DrawCall {
                    pipeline: PassPipeline::Deferred,
                    stencil_reference: MODEL_STENCIL_REF,
                    mesh_index: i,
                    index_count: self.obj_model.meshes[i].num_elements,
                    instance_count: self.instance_count,
                },
            );
            i += 1;
        }
        let mut color_attachments: Vec<ColorAttachment> = Vec::new();
        color_attachments.push(
            ColorAttachment {
                target: self.render_material.textures[0].1.id,
                load: AttachmentLoad::Clear(self.bg_color),
            },
        );
        color_attachments.push(
            ColorAttachment {
                target: self.render_material.textures[1].1.id,
                load: AttachmentLoad::Clear(self.bg_color),
            },
        );
        let geometry = GeometryPass {
            color_attachments,
            depth_attachment: DepthAttachment {
                target: self.depth_texture.id,
                depth_load: DepthLoad::ClearToFarthest,
                stencil_load: StencilLoad::Clear(STENCIL_CLEAR_VALUE),
            },
            draws,
        };
        let composite = CompositePass {
            surface_load: AttachmentLoad::Clear(self.bg_color),
            source_targets: (
                self.render_material.textures[0].1.id,
                self.render_material.textures[1].1.id,
            ),
            draw: DrawCall {
                pipeline: PassPipeline::Output,
                stencil_reference: 0,
                mesh_index: 0,
                index_count: 6,
                instance_count: 1,
            },
        };
        FramePlan { geometry, composite, present: true }
    }

    /// No slot of the compositing binding set references a target of any
    /// generation but the current one.
    pub proof fn lemma_no_stale_bindings(self)
        requires
            self.wf(),
        ensures
            self.render_material.bind_group.all_of_generation(self.generation),
    {
        reveal(State::wf);
        let resources = self.render_material.bind_group.resources@;
        assert forall|i: int|
            0 <= i < resources.len() implies crate::binding::id_of(
            #[trigger] resources[i],
        ).generation == self.generation by {
            assert(resources =~= spec_material_resources(
                self.diffuse_target(),
                self.specular_target(),
            ));
            assert(0 <= i && i < 4);
        }
    }
}

} // verus!
