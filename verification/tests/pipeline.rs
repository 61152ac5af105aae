use render_core::binding::BoundResource;
use render_core::binding::LayoutEntry;
use render_core::binding::ResourceId;
use render_core::binding::ResourceKind;
use render_core::binding::StageSet;
use render_core::binding::build_layout;
use render_core::model::BitangentComputeBinding;
use render_core::model::ComputeInfo;
use render_core::model::quad_vertex_layout;
use render_core::pipeline::Bindable;
use render_core::pipeline::Binder;
use render_core::pipeline::BlendMode;
use render_core::pipeline::ColorTargetConfig;
use render_core::pipeline::CullFace;
use render_core::pipeline::FrontFace;
use render_core::pipeline::PipelineError;
use render_core::pipeline::PolygonMode;
use render_core::pipeline::PrimitiveTopology;
use render_core::pipeline::ShaderProgram;
use render_core::pipeline::StencilOperation;
use render_core::pipeline::create_compute_pipeline;
use render_core::pipeline::create_render_pipeline;
use render_core::pipeline::has_entry_point;
use render_core::texture::CompareFunction;
use render_core::texture::TextureFormat;

fn shader(entries: &[&str]) -> ShaderProgram {
    ShaderProgram {
        label: "test shader".to_string(),
        entry_points: entries.iter().map(|e| e.to_string()).collect(),
    }
}

fn full_shader() -> ShaderProgram {
    shader(&["vertex_main", "fragment_main"])
}

fn one_target() -> Vec<ColorTargetConfig> {
    vec![ColorTargetConfig {
        format: TextureFormat::Bgra8UnormSrgb,
        blend: BlendMode::Replace,
    }]
}

#[test]
fn entry_point_lookup_finds_declared_names() {
    let s = full_shader();
    assert!(has_entry_point(&s, "vertex_main"));
    assert!(has_entry_point(&s, "fragment_main"));
    assert!(!has_entry_point(&s, "main"));
}

#[test]
fn render_pipeline_fixed_function_state() {
    let p = create_render_pipeline(
        None,
        vec![quad_vertex_layout()],
        &full_shader(),
        one_target(),
        "output",
    )
    .unwrap();
    assert_eq!(p.label, "output");
    assert_eq!(p.primitive.topology, PrimitiveTopology::TriangleList);
    assert_eq!(p.primitive.front_face, FrontFace::Ccw);
    assert_eq!(p.primitive.cull_mode, None::<CullFace>);
    assert_eq!(p.primitive.polygon_mode, PolygonMode::Fill);
    assert!(p.depth_stencil.is_none());
    assert_eq!(p.color_targets.len(), 1);
}

#[test]
fn render_pipeline_depth_stencil_state() {
    let p = create_render_pipeline(
        Some(TextureFormat::Depth24PlusStencil8),
        vec![quad_vertex_layout()],
        &full_shader(),
        one_target(),
        "geometry",
    )
    .unwrap();
    let ds = p.depth_stencil.unwrap();
    assert_eq!(ds.format, TextureFormat::Depth24PlusStencil8);
    assert!(ds.depth_write_enabled);
    assert_eq!(ds.depth_compare, CompareFunction::LessEqual);
    assert_eq!(ds.stencil.front.compare, CompareFunction::Always);
    assert_eq!(ds.stencil.front.pass_op, StencilOperation::Replace);
    assert_eq!(ds.stencil.front.fail_op, StencilOperation::Keep);
    assert_eq!(ds.stencil.back.compare, CompareFunction::Never);
    assert_eq!(ds.stencil.back.pass_op, StencilOperation::Keep);
    assert_eq!(ds.stencil.read_mask, 0xFF);
    assert_eq!(ds.stencil.write_mask, 0xFF);
}

#[test]
fn render_pipeline_requires_vertex_entry() {
    let err = create_render_pipeline(
        None,
        vec![],
        &shader(&["fragment_main"]),
        one_target(),
        "broken",
    )
    .unwrap_err();
    assert_eq!(err, PipelineError::MissingVertexEntry);
}

#[test]
fn render_pipeline_requires_fragment_entry() {
    let err = create_render_pipeline(
        None,
        vec![],
        &shader(&["vertex_main"]),
        one_target(),
        "broken",
    )
    .unwrap_err();
    assert_eq!(err, PipelineError::MissingFragmentEntry);
}

#[test]
fn compute_pipeline_requires_main_entry() {
    let layouts = vec![];
    let ok = create_compute_pipeline(&layouts, &shader(&["main"]), "compute");
    assert!(ok.is_ok());
    let err = create_compute_pipeline(&layouts, &shader(&["vertex_main"]), "compute").unwrap_err();
    assert_eq!(err, PipelineError::MissingComputeEntry);
}

#[test]
fn compute_pipeline_copies_its_layouts() {
    let entries = vec![LayoutEntry {
        binding: 0,
        visibility: StageSet::Compute,
        kind: ResourceKind::UniformBuffer,
    }];
    let layouts = vec![build_layout(entries.clone(), "l").unwrap()];
    let p = create_compute_pipeline(&layouts, &shader(&["main"]), "compute").unwrap();
    assert_eq!(p.layout_entries.len(), 1);
    assert_eq!(p.layout_entries[0], entries);
}

#[test]
fn binder_round_trip_for_the_compute_job() {
    let binder: Binder<BitangentComputeBinding> = Binder::new("job binder").unwrap();
    let mut ids = render_core::binding::IdGen::new();
    let job = BitangentComputeBinding {
        src_vertex_buffer: ids.fresh(),
        dst_vertex_buffer: ids.fresh(),
        index_buffer: ids.fresh(),
        info_buffer: ids.fresh(),
        compute_info: ComputeInfo {
            num_vertices: 4,
            num_indices: 6,
        },
    };
    let set = binder.create_bind_group(&job, "job group").unwrap();
    assert_eq!(set.resources.len(), 4);
    assert_eq!(set.entries, binder.layout.entries);
    // The binder holds exactly the type's declared layout.
    assert_eq!(
        binder.layout.entries,
        render_core::model::bitangent_layout_entries()
    );
}
