use render_core::binding::IdGen;
use render_core::binding::ResourceKind;
use render_core::binding::StageSet;
use render_core::model::BitangentComputeBinding;
use render_core::model::ComputeInfo;
use render_core::model::GeometryError;
use render_core::model::ModelLoader;
use render_core::model::ModelVertex;
use render_core::model::Vec2I;
use render_core::model::Vec3I;
use render_core::model::bitangent_layout_entries;
use render_core::model::compute_tangents;
use render_core::model::material_layout_entries;
use render_core::model::model_vertex_layout;
use render_core::model::quad_vertex_layout;
use render_core::model::screen_quad_indices;
use render_core::model::screen_quad_vertices;
use render_core::pipeline::ShaderProgram;
use render_core::vertex::VertexFormat;
use render_core::vertex::VertexStepMode;

fn v3(x: i64, y: i64, z: i64) -> Vec3I {
    Vec3I { x, y, z }
}

fn vertex(pos: Vec3I, uv: Vec2I) -> ModelVertex {
    ModelVertex {
        position: pos,
        tex_coords: uv,
        normal: v3(0, 0, 1),
        tangent: v3(9, 9, 9),
        bitangent: v3(9, 9, 9),
    }
}

fn right_triangle() -> Vec<ModelVertex> {
    vec![
        vertex(v3(0, 0, 0), Vec2I { x: 0, y: 0 }),
        vertex(v3(2, 0, 0), Vec2I { x: 2, y: 0 }),
        vertex(v3(0, 2, 0), Vec2I { x: 0, y: 2 }),
    ]
}

#[test]
fn one_triangle_accumulates_expected_tangents() {
    let vertices = right_triangle();
    let indices = vec![0u32, 1, 2];
    let dst = compute_tangents(&vertices, &indices).unwrap();
    assert_eq!(dst.len(), 3);
    for v in &dst {
        assert_eq!(v.tangent, v3(1, 0, 0));
        assert_eq!(v.bitangent, v3(0, 1, 0));
    }
}

#[test]
fn accumulators_start_from_zero_not_from_input() {
    // The input tangents are deliberately non-zero; preprocessing must
    // reset them before accumulating.
    let vertices = right_triangle();
    let dst = compute_tangents(&vertices, &Vec::<u32>::new()).unwrap();
    assert_eq!(dst.len(), 3);
    for (out, src) in dst.iter().zip(vertices.iter()) {
        assert_eq!(out.position, src.position);
        assert_eq!(out.tex_coords, src.tex_coords);
        assert_eq!(out.normal, src.normal);
        assert_eq!(out.tangent, v3(0, 0, 0));
        assert_eq!(out.bitangent, v3(0, 0, 0));
    }
}

#[test]
fn shared_vertex_accumulates_both_triangles() {
    let vertices = right_triangle();
    let indices = vec![0u32, 1, 2, 0, 1, 2];
    let dst = compute_tangents(&vertices, &indices).unwrap();
    for v in &dst {
        assert_eq!(v.tangent, v3(2, 0, 0));
        assert_eq!(v.bitangent, v3(0, 2, 0));
    }
}

#[test]
fn degenerate_texture_mapping_contributes_nothing() {
    // All three vertices share one texture coordinate, so the linear
    // system's determinant vanishes.
    let vertices = vec![
        vertex(v3(0, 0, 0), Vec2I { x: 1, y: 1 }),
        vertex(v3(2, 0, 0), Vec2I { x: 1, y: 1 }),
        vertex(v3(0, 2, 0), Vec2I { x: 1, y: 1 }),
    ];
    let indices = vec![0u32, 1, 2];
    let dst = compute_tangents(&vertices, &indices).unwrap();
    for v in &dst {
        assert_eq!(v.tangent, v3(0, 0, 0));
        assert_eq!(v.bitangent, v3(0, 0, 0));
    }
}

#[test]
fn division_truncates_toward_zero() {
    // Tangent numerator -4 against determinant 6: truncation gives 0
    // where flooring would give -1.
    let vertices = vec![
        vertex(v3(0, 0, 0), Vec2I { x: 0, y: 0 }),
        vertex(v3(-2, 0, 0), Vec2I { x: 3, y: 0 }),
        vertex(v3(0, 2, 0), Vec2I { x: 0, y: 2 }),
    ];
    let indices = vec![0u32, 1, 2];
    let dst = compute_tangents(&vertices, &indices).unwrap();
    assert_eq!(dst[0].tangent.x, 0);
}

#[test]
fn repeated_runs_reproduce_the_result() {
    let vertices = right_triangle();
    let indices = vec![0u32, 1, 2, 0, 1, 2];
    let first = compute_tangents(&vertices, &indices).unwrap();
    let second = compute_tangents(&vertices, &indices).unwrap();
    assert_eq!(first, second);
}

#[test]
fn index_count_must_be_whole_triangles() {
    let vertices = right_triangle();
    let indices = vec![0u32, 1];
    let err = compute_tangents(&vertices, &indices).unwrap_err();
    assert_eq!(err, GeometryError::IndexCountNotTriangles);
}

#[test]
fn out_of_bounds_index_is_reported() {
    let vertices = right_triangle();
    let indices = vec![0u32, 1, 3];
    let err = compute_tangents(&vertices, &indices).unwrap_err();
    assert_eq!(err, GeometryError::IndexOutOfBounds { position: 2 });
}

#[test]
fn out_of_range_coordinate_is_reported() {
    let mut vertices = right_triangle();
    vertices[1].position.x = 65537;
    let indices = vec![0u32, 1, 2];
    let err = compute_tangents(&vertices, &indices).unwrap_err();
    assert_eq!(err, GeometryError::CoordinateOutOfRange { vertex: 1 });
}

#[test]
fn model_vertex_layout_matches_gpu_record() {
    let l = model_vertex_layout();
    assert_eq!(l.array_stride, 64);
    assert_eq!(l.step_mode, VertexStepMode::Vertex);
    let offsets: Vec<u32> = l.attributes.iter().map(|a| a.offset).collect();
    assert_eq!(offsets, vec![0, 12, 20, 32, 44]);
    let locations: Vec<u32> = l.attributes.iter().map(|a| a.shader_location).collect();
    assert_eq!(locations, vec![0, 1, 2, 3, 4]);
    assert_eq!(l.attributes[0].format, VertexFormat::Float32x3);
    assert_eq!(l.attributes[1].format, VertexFormat::Float32x2);
    assert_eq!(l.attributes[4].format, VertexFormat::Float32x3);
}

#[test]
fn quad_vertex_layout_matches_gpu_record() {
    let l = quad_vertex_layout();
    assert_eq!(l.array_stride, 16);
    assert_eq!(l.attributes.len(), 2);
    assert_eq!(l.attributes[0].offset, 0);
    assert_eq!(l.attributes[1].offset, 8);
    assert_eq!(l.attributes[1].format, VertexFormat::Float32x2);
}

#[test]
fn screen_quad_is_two_triangles_over_four_vertices() {
    let vertices = screen_quad_vertices();
    let indices = screen_quad_indices();
    assert_eq!(vertices.len(), 4);
    assert_eq!(indices, vec![0u32, 1, 2, 0, 2, 3]);
    assert_eq!(vertices[0].position, Vec2I { x: -1, y: 1 });
    assert_eq!(vertices[2].position, Vec2I { x: 1, y: -1 });
    assert_eq!(vertices[0].tex_coords, Vec2I { x: 0, y: 0 });
    assert_eq!(vertices[2].tex_coords, Vec2I { x: 1, y: 1 });
}

#[test]
fn bitangent_layout_describes_the_dispatch_bindings() {
    let entries = bitangent_layout_entries();
    assert_eq!(entries.len(), 4);
    for (i, e) in entries.iter().enumerate() {
        assert_eq!(e.binding as usize, i);
        assert_eq!(e.visibility, StageSet::Compute);
    }
    assert_eq!(
        entries[0].kind,
        ResourceKind::StorageBuffer { read_only: true }
    );
    assert_eq!(
        entries[1].kind,
        ResourceKind::StorageBuffer { read_only: false }
    );
    assert_eq!(
        entries[2].kind,
        ResourceKind::StorageBuffer { read_only: true }
    );
    assert_eq!(entries[3].kind, ResourceKind::UniformBuffer);
}

#[test]
fn material_layout_alternates_textures_and_samplers() {
    let entries = material_layout_entries();
    assert_eq!(entries.len(), 4);
    assert_eq!(entries[0].kind, ResourceKind::SampledTexture);
    assert_eq!(entries[1].kind, ResourceKind::FilteringSampler);
    assert_eq!(entries[2].kind, ResourceKind::SampledTexture);
    assert_eq!(entries[3].kind, ResourceKind::FilteringSampler);
    for e in &entries {
        assert_eq!(e.visibility, StageSet::Fragment);
    }
}

fn compute_shader() -> ShaderProgram {
    ShaderProgram {
        label: "bitangent shader".to_string(),
        entry_points: vec!["main".to_string()],
    }
}

#[test]
fn loader_prepares_a_mesh_with_one_invocation_per_vertex() {
    let loader = ModelLoader::new(&compute_shader()).unwrap();
    let vertices = right_triangle();
    let indices = vec![0u32, 1, 2];
    let mut ids = IdGen::new();
    let prepared = loader
        .load("cube", &vertices, &indices, 0, &mut ids)
        .unwrap();
    assert_eq!(prepared.dispatch_count, 3);
    assert_eq!(prepared.mesh.name, "cube");
    assert_eq!(prepared.mesh.num_elements, 3);
    assert_eq!(prepared.mesh.material, 0);
    assert_eq!(
        prepared.binding.compute_info,
        ComputeInfo {
            num_vertices: 3,
            num_indices: 3
        }
    );
    assert_eq!(prepared.mesh.vertex_buffer, prepared.binding.dst_vertex_buffer);
    assert_eq!(prepared.mesh.index_buffer, prepared.binding.index_buffer);
    assert_eq!(
        prepared.vertices,
        compute_tangents(&vertices, &indices).unwrap()
    );
    assert_eq!(prepared.bind_group.resources.len(), 4);
}

#[test]
fn loader_requires_the_compute_entry_point() {
    let shader = ShaderProgram {
        label: "wrong shader".to_string(),
        entry_points: vec!["vertex_main".to_string()],
    };
    assert!(ModelLoader::new(&shader).is_err());
}

#[test]
fn loader_rejects_bad_meshes() {
    let loader = ModelLoader::new(&compute_shader()).unwrap();
    let vertices = right_triangle();
    let mut ids = IdGen::new();
    let err = loader
        .load("cube", &vertices, &vec![0u32, 1, 2, 2], 0, &mut ids)
        .unwrap_err();
    assert_eq!(err, GeometryError::IndexCountNotTriangles);
}

#[test]
fn job_binding_set_conforms_to_the_bitangent_layout() {
    let mut ids = IdGen::new();
    let binding = BitangentComputeBinding {
        src_vertex_buffer: ids.fresh(),
        dst_vertex_buffer: ids.fresh(),
        index_buffer: ids.fresh(),
        info_buffer: ids.fresh(),
        compute_info: ComputeInfo {
            num_vertices: 8,
            num_indices: 36,
        },
    };
    let layout =
        render_core::binding::build_layout(bitangent_layout_entries(), "job layout").unwrap();
    let set =
        render_core::binding::create_binding_set(binding.resources(), &layout, "job").unwrap();
    assert_eq!(set.resources.len(), 4);
}

#[test]
fn oversized_index_list_is_rejected() {
    let vertices = right_triangle();
    // One triangle past the preprocessing bound, still whole triangles.
    let indices = vec![0u32; 50_331_651];
    let err = compute_tangents(&vertices, &indices).unwrap_err();
    assert_eq!(err, GeometryError::MeshTooLarge);
}

#[test]
fn vertex_formats_know_their_sizes() {
    assert_eq!(VertexFormat::Float32x2.size_bytes(), 8);
    assert_eq!(VertexFormat::Float32x3.size_bytes(), 12);
    assert_eq!(VertexFormat::Float32x4.size_bytes(), 16);
    assert_eq!(VertexFormat::Uint32x2.size_bytes(), 8);
}

#[test]
fn instance_layout_advances_per_instance() {
    let l = render_core::vertex::instance_raw_layout();
    assert_eq!(l.array_stride, 64);
    assert_eq!(l.step_mode, VertexStepMode::Instance);
    let locations: Vec<u32> = l.attributes.iter().map(|a| a.shader_location).collect();
    assert_eq!(locations, vec![5, 6, 7, 8]);
    let offsets: Vec<u32> = l.attributes.iter().map(|a| a.offset).collect();
    assert_eq!(offsets, vec![0, 16, 32, 48]);
}

#[test]
fn screen_quad_mesh_pins_corners_and_fresh_buffers() {
    let mut ids = IdGen::new();
    let (mesh, vertices, indices) = ModelLoader::create_screen_quad_mesh(&mut ids);
    assert_eq!(mesh.name, "Output Quad");
    assert_eq!(mesh.num_elements, 6);
    assert_eq!(mesh.material, 0);
    assert_eq!(mesh.vertex_buffer.slot, 0);
    assert_eq!(mesh.index_buffer.slot, 1);
    assert_eq!(ids.next_slot, 2);
    let positions: Vec<(i64, i64)> = vertices.iter().map(|v| (v.position.x, v.position.y)).collect();
    assert_eq!(positions, vec![(-1, 1), (1, 1), (1, -1), (-1, -1)]);
    let uvs: Vec<(i64, i64)> = vertices
        .iter()
        .map(|v| (v.tex_coords.x, v.tex_coords.y))
        .collect();
    assert_eq!(uvs, vec![(0, 0), (1, 0), (1, 1), (0, 1)]);
    assert_eq!(indices, vec![0u32, 1, 2, 0, 2, 3]);
}

#[test]
fn loader_hands_out_four_consecutive_buffer_identities() {
    let loader = ModelLoader::new(&compute_shader()).unwrap();
    let vertices = right_triangle();
    let indices = vec![0u32, 1, 2];
    let mut ids = IdGen::new();
    let prepared = loader
        .load("cube", &vertices, &indices, 0, &mut ids)
        .unwrap();
    assert_eq!(prepared.binding.src_vertex_buffer.slot, 0);
    assert_eq!(prepared.binding.dst_vertex_buffer.slot, 1);
    assert_eq!(prepared.binding.index_buffer.slot, 2);
    assert_eq!(prepared.binding.info_buffer.slot, 3);
    assert_eq!(ids.next_slot, 4);
}
