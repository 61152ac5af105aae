//! Mesh data and the tangent/bitangent preprocessing step.
//!
//! Vertex positions and texture coordinates are held as fixed-point
//! integers, the core's own plain-value picture of the mesh an asset
//! collaborator hands over.  [`compute_tangents`] is the preprocessing
//! pass: per vertex it accumulates a tangent and a bitangent contribution
//! from every triangle the vertex takes part in, derived from the
//! triangle's edge vectors and texture-coordinate deltas, in a fixed
//! (index-order) accumulation order.

use vstd::arithmetic::div_mod::lemma_div_multiples_vanish_fancy;
use vstd::arithmetic::div_mod::lemma_div_nonincreasing;
use vstd::arithmetic::div_mod::lemma_div_pos_is_pos;
use vstd::arithmetic::div_mod::lemma_fundamental_div_mod;
use vstd::arithmetic::div_mod::lemma_mod_division_less_than_divisor;
use vstd::prelude::*;

use crate::binding::BindingSet;
use crate::binding::BoundResource;
use crate::binding::IdGen;
use crate::binding::LayoutEntry;
use crate::binding::ResourceId;
use crate::binding::ResourceKind;
use crate::binding::StageSet;
use crate::binding::build_layout;
use crate::binding::conforms;
use crate::binding::create_binding_set;
use crate::binding::entries_well_formed;
use crate::binding::kind_of;
use crate::pipeline::Bindable;
use crate::pipeline::Binder;
use crate::pipeline::ComputePipeline;
use crate::pipeline::PipelineError;
use crate::pipeline::ShaderProgram;
use crate::pipeline::create_compute_pipeline;
use crate::pipeline::shader_has_entry;
use crate::texture::Texture;
use crate::vertex::Vertex;
use crate::vertex::VertexAttribute;
use crate::vertex::VertexBufferLayout;
use crate::vertex::VertexFormat;
use crate::vertex::VertexStepMode;
use crate::vertex::layout_well_formed;

verus! {

/// Bound on the magnitude of each position and texture coordinate a mesh
/// may carry into preprocessing; it keeps every accumulated sum inside
/// `i64`.
pub const COORD_LIMIT: i64 = 65536;

/// Bound on how many indices a mesh may carry into preprocessing.
pub const MAX_TANGENT_INDICES: usize = 50331648;

/// Bound on the magnitude of one triangle's tangent or bitangent
/// contribution per component.
pub const CONTRIB_BOUND: i64 = 0x8_0000_0000;

/// A three-component fixed-point vector.
#[derive(Clone, Copy, PartialEq, Eq, Structural, Debug)]
pub struct Vec3I {
    pub x: i64,
    pub y: i64,
    pub z: i64,
}

/// A two-component fixed-point vector.
#[derive(Clone, Copy, PartialEq, Eq, Structural, Debug)]
pub struct Vec2I {
    pub x: i64,
    pub y: i64,
}

impl Vec3I {
    pub fn zero() -> (r: Vec3I)
        ensures
            r == (Vec3I { x: 0i64, y: 0i64, z: 0i64 }),
    {
        Vec3I { x: 0, y: 0, z: 0 }
    }
}

/// A three-component vector of unbounded integers, the mathematical model
/// of [`Vec3I`].
pub struct V3 {
    pub x: int,
    pub y: int,
    pub z: int,
}

pub open spec fn v3_of(v: Vec3I) -> V3 {
    V3 { x: v.x as int, y: v.y as int, z: v.z as int }
}

pub open spec fn v3_zero() -> V3 {
    V3 { x: 0, y: 0, z: 0 }
}

pub open spec fn v3_add(a: V3, b: V3) -> V3 {
    V3 { x: a.x + b.x, y: a.y + b.y, z: a.z + b.z }
}

pub open spec fn v3_sub(a: V3, b: V3) -> V3 {
    V3 { x: a.x - b.x, y: a.y - b.y, z: a.z - b.z }
}

pub open spec fn v3_scale(a: V3, k: int) -> V3 {
    V3 { x: a.x * k, y: a.y * k, z: a.z * k }
}

/// Magnitude of an integer.
pub open spec fn mag(a: int) -> int {
    if a < 0 {
        -a
    } else {
        a
    }
}

/// Truncating division, the rounding the executable `i64` division uses.
pub open spec fn tdiv(a: int, b: int) -> int
    recommends
        b != 0,
{
    if (a < 0) != (b < 0) {
        -(mag(a) / mag(b))
    } else {
        mag(a) / mag(b)
    }
}

pub open spec fn v3_tdiv(a: V3, k: int) -> V3 {
    V3 { x: tdiv(a.x, k), y: tdiv(a.y, k), z: tdiv(a.z, k) }
}

/// True when a fixed-point vector equals its mathematical model.
pub open spec fn v3_is(a: Vec3I, b: V3) -> bool {
    a.x == b.x && a.y == b.y && a.z == b.z
}

/// One vertex of a model mesh.
#[derive(Clone, Copy, PartialEq, Eq, Structural, Debug)]
pub struct ModelVertex {
    pub position: Vec3I,
    pub tex_coords: Vec2I,
    pub normal: Vec3I,
    pub tangent: Vec3I,
    pub bitangent: Vec3I,
}

/// Truncating `i64` division.
fn div_i64(a: i64, b: i64) -> (r: i64)
    requires
        b != 0,
        -0x4000_0000_0000_0000 <= a <= 0x4000_0000_0000_0000,
        -0x4000_0000_0000_0000 <= b <= 0x4000_0000_0000_0000,
    ensures
        r as int == tdiv(a as int, b as int),
        mag(r as int) <= mag(a as int),
{
    let na: u64 = if a < 0 {
        (-a) as u64
    } else {
        a as u64
    };
    let nb: u64 = if b < 0 {
        (-b) as u64
    } else {
        b as u64
    };
    let q: u64 = na / nb;
    proof {
        assert(na == mag(a as int));
        assert(nb == mag(b as int));
        assert(q == mag(a as int) / mag(b as int));
        lemma_div_nonincreasing(na as int, nb as int);
        lemma_div_pos_is_pos(na as int, nb as int);
    }
    if (a < 0) != (b < 0) {
        -(q as i64)
    } else {
        q as i64
    }
}

/// The tangent and bitangent contribution of one triangle, solved from the
/// edge-vector / texture-delta linear system; a triangle whose
/// texture-coordinate determinant vanishes contributes nothing.
pub open spec fn tri_contrib(p0: ModelVertex, p1: ModelVertex, p2: ModelVertex) -> (V3, V3) {
    let e1 = v3_sub(v3_of(p1.position), v3_of(p0.position));
    let e2 = v3_sub(v3_of(p2.position), v3_of(p0.position));
    let du1 = p1.tex_coords.x as int - p0.tex_coords.x as int;
    let dv1 = p1.tex_coords.y as int - p0.tex_coords.y as int;
    let du2 = p2.tex_coords.x as int - p0.tex_coords.x as int;
    let dv2 = p2.tex_coords.y as int - p0.tex_coords.y as int;
    let det = du1 * dv2 - du2 * dv1;
    if det == 0 {
        (v3_zero(), v3_zero())
    } else {
        (
            v3_tdiv(v3_sub(v3_scale(e1, dv2), v3_scale(e2, dv1)), det),
            v3_tdiv(v3_sub(v3_scale(e2, du1), v3_scale(e1, du2)), det),
        )
    }
}

/// The contribution of the triangle that owns index slot `j`.
pub open spec fn slot_contrib(vertices: Seq<ModelVertex>, indices: Seq<u32>, j: int) -> (V3, V3) {
    let t = j / 3;
    tri_contrib(
        vertices[indices[3 * t] as int],
        vertices[indices[3 * t + 1] as int],
        vertices[indices[3 * t + 2] as int],
    )
}

/// Tangent accumulated at vertex `v` after the first `k` index slots, in
/// slot order.
pub open spec fn accum_tangent(
    vertices: Seq<ModelVertex>,
    indices: Seq<u32>,
    k: int,
    v: int,
) -> V3
    decreases k,
{
    if k <= 0 {
        v3_zero()
    } else {
        let prev = accum_tangent(vertices, indices, k - 1, v);
        if indices[k - 1] as int == v {
            v3_add(prev, slot_contrib(vertices, indices, k - 1).0)
        } else {
            prev
        }
    }
}

/// Bitangent accumulated at vertex `v` after the first `k` index slots.
pub open spec fn accum_bitangent(
    vertices: Seq<ModelVertex>,
    indices: Seq<u32>,
    k: int,
    v: int,
) -> V3
    decreases k,
{
    if k <= 0 {
        v3_zero()
    } else {
        let prev = accum_bitangent(vertices, indices, k - 1, v);
        if indices[k - 1] as int == v {
            v3_add(prev, slot_contrib(vertices, indices, k - 1).1)
        } else {
            prev
        }
    }
}

/// Bound on one vertex's preprocessing inputs.
pub open spec fn vertex_in_range(v: ModelVertex) -> bool {
    &&& mag(v.position.x as int) <= COORD_LIMIT
    &&& mag(v.position.y as int) <= COORD_LIMIT
    &&& mag(v.position.z as int) <= COORD_LIMIT
    &&& mag(v.tex_coords.x as int) <= COORD_LIMIT
    &&& mag(v.tex_coords.y as int) <= COORD_LIMIT
}

/// What preprocessing accepts: whole triangles, indices inside the vertex
/// list, counts that fit the device's records, coordinates inside the
/// fixed-point range.
pub open spec fn mesh_inputs_valid(vertices: Seq<ModelVertex>, indices: Seq<u32>) -> bool {
    &&& vertices.len() <= u32::MAX
    &&& indices.len() <= MAX_TANGENT_INDICES
    &&& indices.len() % 3 == 0
    &&& forall|i: int| 0 <= i < indices.len() ==> (#[trigger] indices[i]) < vertices.len()
    &&& forall|v: int| 0 <= v < vertices.len() ==> vertex_in_range(#[trigger] vertices[v])
}

proof fn lemma_mul_bound17(a: int, b: int)
    requires
        -131072 <= a <= 131072,
        -131072 <= b <= 131072,
    ensures
        -17179869184 <= a * b <= 17179869184,
{
    assert(-17179869184 <= a * b <= 17179869184) by (nonlinear_arith)
        requires
            -131072 <= a <= 131072,
            -131072 <= b <= 131072,
    ;
}

proof fn lemma_tdiv_bound(a: int, b: int)
    requires
        b != 0,
    ensures
        mag(tdiv(a, b)) <= mag(a),
        mag(tdiv(a, b)) >= 0,
{
    lemma_div_nonincreasing(mag(a), mag(b));
    lemma_div_pos_is_pos(mag(a), mag(b));
}

/// One triangle's contribution stays inside [`CONTRIB_BOUND`] per
/// component whenever its three vertices are in range.
pub proof fn lemma_contrib_bound(p0: ModelVertex, p1: ModelVertex, p2: ModelVertex)
    ensures
        vertex_in_range(p0) && vertex_in_range(p1) && vertex_in_range(p2) ==> ({
            let (t, b) = tri_contrib(p0, p1, p2);
            &&& mag(t.x) <= CONTRIB_BOUND
            &&& mag(t.y) <= CONTRIB_BOUND
            &&& mag(t.z) <= CONTRIB_BOUND
            &&& mag(b.x) <= CONTRIB_BOUND
            &&& mag(b.y) <= CONTRIB_BOUND
            &&& mag(b.z) <= CONTRIB_BOUND
        }),
{
    if vertex_in_range(p0) && vertex_in_range(p1) && vertex_in_range(p2) {
        let e1 = v3_sub(v3_of(p1.position), v3_of(p0.position));
        let e2 = v3_sub(v3_of(p2.position), v3_of(p0.position));
        let du1 = p1.tex_coords.x as int - p0.tex_coords.x as int;
        let dv1 = p1.tex_coords.y as int - p0.tex_coords.y as int;
        let du2 = p2.tex_coords.x as int - p0.tex_coords.x as int;
        let dv2 = p2.tex_coords.y as int - p0.tex_coords.y as int;
        let det = du1 * dv2 - du2 * dv1;
        if det != 0 {
            lemma_mul_bound17(e1.x, dv2);
            lemma_mul_bound17(e1.y, dv2);
            lemma_mul_bound17(e1.z, dv2);
            lemma_mul_bound17(e2.x, dv1);
            lemma_mul_bound17(e2.y, dv1);
            lemma_mul_bound17(e2.z, dv1);
            lemma_mul_bound17(e2.x, du1);
            lemma_mul_bound17(e2.y, du1);
            lemma_mul_bound17(e2.z, du1);
            lemma_mul_bound17(e1.x, du2);
            lemma_mul_bound17(e1.y, du2);
            lemma_mul_bound17(e1.z, du2);
            lemma_tdiv_bound(e1.x * dv2 - e2.x * dv1, det);
            lemma_tdiv_bound(e1.y * dv2 - e2.y * dv1, det);
            lemma_tdiv_bound(e1.z * dv2 - e2.z * dv1, det);
            lemma_tdiv_bound(e2.x * du1 - e1.x * du2, det);
            lemma_tdiv_bound(e2.y * du1 - e1.y * du2, det);
            lemma_tdiv_bound(e2.z * du1 - e1.z * du2, det);
        }
    }
}

/// Why preprocessing refused a mesh.
#[derive(Clone, Copy, PartialEq, Eq, Structural, Debug)]
pub enum GeometryError {
    /// The index count is not a multiple of three.
    IndexCountNotTriangles,
    /// The vertex or index count exceeds what the counts record holds.
    MeshTooLarge,
    /// The first index slot that points outside the vertex list.
    IndexOutOfBounds { position: usize },
    /// The first vertex whose position or texture coordinates leave the
    /// fixed-point range.
    CoordinateOutOfRange { vertex: usize },
}

/// The three index slots of the triangle that owns slot `j` all lie inside
/// a whole-triangle index list.
proof fn lemma_slot_triangle_range(len: int, j: int)
    requires
        len % 3 == 0,
        0 <= j < len,
    ensures
        0 <= 3 * (j / 3),
        3 * (j / 3) <= j,
        j < 3 * (j / 3) + 3,
        3 * (j / 3) + 2 < len,
{
    lemma_fundamental_div_mod(j, 3);
    lemma_mod_division_less_than_divisor(j, 3);
    lemma_fundamental_div_mod(len, 3);
    lemma_mod_division_less_than_divisor(len, 3);
}

/// One slot's contribution stays inside [`CONTRIB_BOUND`] per component on
/// a valid mesh.
pub proof fn lemma_slot_contrib_bound(vertices: Seq<ModelVertex>, indices: Seq<u32>, j: int)
    requires
        mesh_inputs_valid(vertices, indices),
        0 <= j < indices.len(),
    ensures
        ({
            let (t, b) = slot_contrib(vertices, indices, j);
            &&& mag(t.x) <= CONTRIB_BOUND
            &&& mag(t.y) <= CONTRIB_BOUND
            &&& mag(t.z) <= CONTRIB_BOUND
            &&& mag(b.x) <= CONTRIB_BOUND
            &&& mag(b.y) <= CONTRIB_BOUND
            &&& mag(b.z) <= CONTRIB_BOUND
        }),
{
    lemma_slot_triangle_range(indices.len() as int, j);
    let t = j / 3;
    lemma_contrib_bound(
        vertices[indices[3 * t] as int],
        vertices[indices[3 * t + 1] as int],
        vertices[indices[3 * t + 2] as int],
    );
}

/// The accumulated tangent and bitangent after `k` slots stay inside
/// `k * CONTRIB_BOUND` per component on a valid mesh.
pub proof fn lemma_accum_bound(vertices: Seq<ModelVertex>, indices: Seq<u32>, k: int, v: int)
    requires
        mesh_inputs_valid(vertices, indices),
        0 <= k <= indices.len(),
    ensures
        mag(accum_tangent(vertices, indices, k, v).x) <= k * (CONTRIB_BOUND as int),
        mag(accum_tangent(vertices, indices, k, v).y) <= k * (CONTRIB_BOUND as int),
        mag(accum_tangent(vertices, indices, k, v).z) <= k * (CONTRIB_BOUND as int),
        mag(accum_bitangent(vertices, indices, k, v).x) <= k * (CONTRIB_BOUND as int),
        mag(accum_bitangent(vertices, indices, k, v).y) <= k * (CONTRIB_BOUND as int),
        mag(accum_bitangent(vertices, indices, k, v).z) <= k * (CONTRIB_BOUND as int),
    decreases k,
{
    if k > 0 {
        lemma_accum_bound(vertices, indices, k - 1, v);
        lemma_slot_contrib_bound(vertices, indices, k - 1);
    }
}

/// The fields preprocessing passes through unchanged.
pub open spec fn static_fields_match(a: ModelVertex, b: ModelVertex) -> bool {
    a.position == b.position && a.tex_coords == b.tex_coords && a.normal == b.normal
}

/// The destination buffer's relation to the source after the first `k`
/// index slots have been accumulated.
pub open spec fn accum_state(
    dst: Seq<ModelVertex>,
    vertices: Seq<ModelVertex>,
    indices: Seq<u32>,
    k: int,
) -> bool {
    &&& dst.len() == vertices.len()
    &&& forall|v: int|
        0 <= v < vertices.len() ==> static_fields_match(#[trigger] dst[v], vertices[v]) && v3_is(
            dst[v].tangent,
            accum_tangent(vertices, indices, k, v),
        ) && v3_is(dst[v].bitangent, accum_bitangent(vertices, indices, k, v))
}

/// What preprocessing yields: one destination vertex per source vertex,
/// its static fields copied, its tangent and bitangent accumulated over
/// every index slot in slot order.
pub open spec fn preprocessed(
    vertices: Seq<ModelVertex>,
    indices: Seq<u32>,
    dst: Seq<ModelVertex>,
) -> bool {
    accum_state(dst, vertices, indices, indices.len() as int)
}

/// Preprocessing is a function of the mesh alone: any two destination
/// buffers it may yield for one input are equal, so repeated runs on
/// identical input reproduce the result bit for bit.
pub proof fn lemma_preprocess_deterministic(
    vertices: Seq<ModelVertex>,
    indices: Seq<u32>,
    a: Seq<ModelVertex>,
    b: Seq<ModelVertex>,
)
    requires
        preprocessed(vertices, indices, a),
        preprocessed(vertices, indices, b),
    ensures
        a =~= b,
{
    assert forall|v: int| 0 <= v < a.len() implies a[v] == b[v] by {
        assert(static_fields_match(a[v], vertices[v]));
        assert(static_fields_match(b[v], vertices[v]));
        assert(a[v].tangent == b[v].tangent);
        assert(a[v].bitangent == b[v].bitangent);
    }
}

/// Executable mirror of [`vertex_in_range`].
fn coords_in_range(v: &ModelVertex) -> (r: bool)
    ensures
        r == vertex_in_range(*v),
{
    -COORD_LIMIT <= v.position.x && v.position.x <= COORD_LIMIT && -COORD_LIMIT <= v.position.y
        && v.position.y <= COORD_LIMIT && -COORD_LIMIT <= v.position.z && v.position.z
        <= COORD_LIMIT && -COORD_LIMIT <= v.tex_coords.x && v.tex_coords.x <= COORD_LIMIT
        && -COORD_LIMIT <= v.tex_coords.y && v.tex_coords.y <= COORD_LIMIT
}

/// Validates a mesh for preprocessing; the error names the first fault in
/// checking order.
pub fn validate_mesh(vertices: &Vec<ModelVertex>, indices: &Vec<u32>) -> (r: Result<
    (),
    GeometryError,
>)
    ensures
        r is Ok <==> mesh_inputs_valid(vertices@, indices@),
        r matches Err(GeometryError::IndexCountNotTriangles) ==> indices@.len() % 3 != 0,
        r matches Err(GeometryError::MeshTooLarge) ==> indices@.len() % 3 == 0 && (vertices@.len()
            > u32::MAX || indices@.len() > MAX_TANGENT_INDICES),
        r matches Err(GeometryError::IndexOutOfBounds { position }) ==> indices@.len() % 3 == 0
            && vertices@.len() <= u32::MAX && indices@.len() <= MAX_TANGENT_INDICES && 0 <= position
            < indices@.len() && indices@[position as int] >= vertices@.len() && (forall|j: int|
            0 <= j < position ==> (#[trigger] indices@[j]) < vertices@.len()),
        r matches Err(GeometryError::CoordinateOutOfRange { vertex }) ==> indices@.len() % 3 == 0
            && vertices@.len() <= u32::MAX && indices@.len() <= MAX_TANGENT_INDICES && (forall|
            j: int,
        |
            0 <= j < indices@.len() ==> (#[trigger] indices@[j]) < vertices@.len()) && 0 <= vertex
            < vertices@.len() && !vertex_in_range(vertices@[vertex as int]) && (forall|j: int|
            0 <= j < vertex ==> vertex_in_range(#[trigger] vertices@[j])),
{
    if indices.len() % 3 != 0 {
        return Err(GeometryError::IndexCountNotTriangles);
    }
    if vertices.len() > u32::MAX as usize || indices.len() > MAX_TANGENT_INDICES {
        return Err(GeometryError::MeshTooLarge);
    }
    let ni = indices.len();
    let mut i: usize = 0;
    while i < ni
        invariant
            i <= ni,
            ni == indices@.len(),
            indices@.len() % 3 == 0,
            vertices@.len() <= u32::MAX,
            indices@.len() <= MAX_TANGENT_INDICES,
            forall|j: int| 0 <= j < i ==> (#[trigger] indices@[j]) < vertices@.len(),
        decreases ni - i,
    {
        if indices[i] as usize >= vertices.len() {
            return Err(GeometryError::IndexOutOfBounds { position: i });
        }
        i += 1;
    }
    let nv = vertices.len();
    let mut v: usize = 0;
    while v < nv
        invariant
            v <= nv,
            nv == vertices@.len(),
            indices@.len() % 3 == 0,
            vertices@.len() <= u32::MAX,
            indices@.len() <= MAX_TANGENT_INDICES,
            forall|j: int| 0 <= j < indices@.len() ==> (#[trigger] indices@[j]) < vertices@.len(),
            forall|j: int| 0 <= j < v ==> vertex_in_range(#[trigger] vertices@[j]),
        decreases nv - v,
    {
        if !coords_in_range(&vertices[v]) {
            return Err(GeometryError::CoordinateOutOfRange { vertex: v });
        }
        v += 1;
    }
    Ok(())
}

/// One triangle's tangent and bitangent contribution, computed in `i64`
/// fixed-point arithmetic.
fn triangle_contribution(p0: &ModelVertex, p1: &ModelVertex, p2: &ModelVertex) -> (r: (
    Vec3I,
    Vec3I,
))
    requires
        vertex_in_range(*p0),
        vertex_in_range(*p1),
        vertex_in_range(*p2),
    ensures
        v3_is(r.0, tri_contrib(*p0, *p1, *p2).0),
        v3_is(r.1, tri_contrib(*p0, *p1, *p2).1),
{
    let e1x = p1.position.x - p0.position.x;
    let e1y = p1.position.y - p0.position.y;
    let e1z = p1.position.z - p0.position.z;
    let e2x = p2.position.x - p0.position.x;
    let e2y = p2.position.y - p0.position.y;
    let e2z = p2.position.z - p0.position.z;
    let du1 = p1.tex_coords.x - p0.tex_coords.x;
    let dv1 = p1.tex_coords.y - p0.tex_coords.y;
    let du2 = p2.tex_coords.x - p0.tex_coords.x;
    let dv2 = p2.tex_coords.y - p0.tex_coords.y;
    proof {
        lemma_mul_bound17(du1 as int, dv2 as int);
        lemma_mul_bound17(du2 as int, dv1 as int);
        lemma_mul_bound17(e1x as int, dv2 as int);
        lemma_mul_bound17(e1y as int, dv2 as int);
        lemma_mul_bound17(e1z as int, dv2 as int);
        lemma_mul_bound17(e2x as int, dv1 as int);
        lemma_mul_bound17(e2y as int, dv1 as int);
        lemma_mul_bound17(e2z as int, dv1 as int);
        lemma_mul_bound17(e2x as int, du1 as int);
        lemma_mul_bound17(e2y as int, du1 as int);
        lemma_mul_bound17(e2z as int, du1 as int);
        lemma_mul_bound17(e1x as int, du2 as int);
        lemma_mul_bound17(e1y as int, du2 as int);
        lemma_mul_bound17(e1z as int, du2 as int);
    }
    let det = du1 * dv2 - du2 * dv1;
    if det == 0 {
        (Vec3I::zero(), Vec3I::zero())
    } else {
        let t = Vec3I {
            x: div_i64(e1x * dv2 - e2x * dv1, det),
            y: div_i64(e1y * dv2 - e2y * dv1, det),
            z: div_i64(e1z * dv2 - e2z * dv1, det),
        };
        let b = Vec3I {
            x: div_i64(e2x * du1 - e1x * du2, det),
            y: div_i64(e2y * du1 - e1y * du2, det),
            z: div_i64(e2z * du1 - e1z * du2, det),
        };
        (t, b)
    }
}

/// Seeds the destination buffer: one vertex per source vertex, static
/// fields copied, tangent and bitangent accumulators zeroed.
fn zeroed_accumulators(vertices: &Vec<ModelVertex>) -> (dst: Vec<ModelVertex>)
    ensures
        dst@.len() == vertices@.len(),
        forall|v: int|
            0 <= v < vertices@.len() ==> static_fields_match(#[trigger] dst@[v], vertices@[v])
                && dst@[v].tangent == (Vec3I { x: 0i64, y: 0i64, z: 0i64 }) && dst@[v].bitangent
                == (Vec3I { x: 0i64, y: 0i64, z: 0i64 }),
{
    let n = vertices.len();
    let mut dst: Vec<ModelVertex> = Vec::new();
    let mut i: usize = 0;
    while i < n
        invariant
            i <= n,
            n == vertices@.len(),
            dst@.len() == i,
            forall|v: int|
                0 <= v < i ==> static_fields_match(#[trigger] dst@[v], vertices@[v])
                    && dst@[v].tangent == (Vec3I { x: 0i64, y: 0i64, z: 0i64 }) && dst@[v].bitangent
                    == (Vec3I { x: 0i64, y: 0i64, z: 0i64 }),
        decreases n - i,
    {
        let s = vertices[i];
        dst.push(
            ModelVertex {
                position: s.position,
                tex_coords: s.tex_coords,
                normal: s.normal,
                tangent: Vec3I::zero(),
                bitangent: Vec3I::zero(),
            },
        );
        i += 1;
    }
    dst
}

/// Adds one slot's contribution into the destination vertex the slot names.
fn apply_slot(
    dst: &mut Vec<ModelVertex>,
    vertices: &Vec<ModelVertex>,
    indices: &Vec<u32>,
    j: usize,
    ct: Vec3I,
    cb: Vec3I,
)
    requires
        mesh_inputs_valid(vertices@, indices@),
        j < indices@.len(),
        v3_is(ct, slot_contrib(vertices@, indices@, j as int).0),
        v3_is(cb, slot_contrib(vertices@, indices@, j as int).1),
        accum_state(old(dst)@, vertices@, indices@, j as int),
    ensures
        accum_state(final(dst)@, vertices@, indices@, j as int + 1),
{
    let i = indices[j] as usize;
    proof {
        lemma_accum_bound(vertices@, indices@, j as int, i as int);
        lemma_slot_contrib_bound(vertices@, indices@, j as int);
        assert((j as int) * (CONTRIB_BOUND as int) + CONTRIB_BOUND <= (
        MAX_TANGENT_INDICES as int) * (CONTRIB_BOUND as int));
    }
    let s = dst[i];
    let updated = ModelVertex {
        position: s.position,
        tex_coords: s.tex_coords,
        normal: s.normal,
        tangent: Vec3I { x: s.tangent.x + ct.x, y: s.tangent.y + ct.y, z: s.tangent.z + ct.z },
        bitangent: Vec3I {
            x: s.bitangent.x + cb.x,
            y: s.bitangent.y + cb.y,
            z: s.bitangent.z + cb.z,
        },
    };
    dst[i] = updated;
    proof {
        assert forall|v: int|
            0 <= v < vertices@.len() implies static_fields_match(
            #[trigger] dst@[v],
            vertices@[v],
        ) && v3_is(dst@[v].tangent, accum_tangent(vertices@, indices@, j as int + 1, v)) && v3_is(
            dst@[v].bitangent,
            accum_bitangent(vertices@, indices@, j as int + 1, v),
        ) by {
            if v == i {
                assert(indices@[j as int] as int == v);
            } else {
                assert(indices@[j as int] as int != v);
            }
        }
    }
}

/// The preprocessing pass.
///
/// Validates the mesh, seeds a destination buffer of exactly one vertex
/// per source vertex with zeroed accumulators, and then, triangle by
/// triangle in index order, derives each triangle's tangent and bitangent
/// contribution and adds it into the triangle's three vertices.  The
/// result is pinned to [`preprocessed`], a function of the mesh alone, so
/// repeated runs on identical input reproduce it exactly.
pub fn compute_tangents(vertices: &Vec<ModelVertex>, indices: &Vec<u32>) -> (r: Result<
    Vec<ModelVertex>,
    GeometryError,
>)
    ensures
        r is Ok <==> mesh_inputs_valid(vertices@, indices@),
        r matches Ok(dst) ==> dst@.len() == vertices@.len() && preprocessed(
            vertices@,
            indices@,
            dst@,
        ),
        r matches Err(GeometryError::IndexCountNotTriangles) ==> indices@.len() % 3 != 0,
        r matches Err(GeometryError::MeshTooLarge) ==> indices@.len() % 3 == 0 && (vertices@.len()
            > u32::MAX || indices@.len() > MAX_TANGENT_INDICES),
        r matches Err(GeometryError::IndexOutOfBounds { position }) ==> indices@.len() % 3 == 0
            && vertices@.len() <= u32::MAX && indices@.len() <= MAX_TANGENT_INDICES && 0 <= position
            < indices@.len() && indices@[position as int] >= vertices@.len() && (forall|j: int|
            0 <= j < position ==> (#[trigger] indices@[j]) < vertices@.len()),
        r matches Err(GeometryError::CoordinateOutOfRange { vertex }) ==> indices@.len() % 3 == 0
            && vertices@.len() <= u32::MAX && indices@.len() <= MAX_TANGENT_INDICES && (forall|
            j: int,
        |
            0 <= j < indices@.len() ==> (#[trigger] indices@[j]) < vertices@.len()) && 0 <= vertex
            < vertices@.len() && !vertex_in_range(vertices@[vertex as int]) && (forall|j: int|
            0 <= j < vertex ==> vertex_in_range(#[trigger] vertices@[j])),
{
    match validate_mesh(vertices, indices) {
        Err(e) => {
            return Err(e);
        },
        Ok(()) => {},
    }
    let mut dst = zeroed_accumulators(vertices);
    let num_tris = indices.len() / 3;
    proof {
        lemma_fundamental_div_mod(indices@.len() as int, 3);
        assert(accum_state(dst@, vertices@, indices@, 0));
    }
    let mut t: usize = 0;
    while t < num_tris
        invariant
            mesh_inputs_valid(vertices@, indices@),
            t <= num_tris,
            num_tris == indices@.len() / 3,
            3 * (num_tris as int) == indices@.len(),
            accum_state(dst@, vertices@, indices@, 3 * (t as int)),
        decreases num_tris - t,
    {
        let j0 = 3 * t;
        let i0 = indices[j0] as usize;
        let i1 = indices[j0 + 1] as usize;
        let i2 = indices[j0 + 2] as usize;
        let (ct, cb) = triangle_contribution(&vertices[i0], &vertices[i1], &vertices[i2]);
        proof {
            lemma_div_multiples_vanish_fancy(t as int, 0, 3);
            lemma_div_multiples_vanish_fancy(t as int, 1, 3);
            lemma_div_multiples_vanish_fancy(t as int, 2, 3);
            assert((3 * (t as int)) / 3 == t as int);
            assert((3 * (t as int) + 1) / 3 == t as int);
            assert((3 * (t as int) + 2) / 3 == t as int);
        }
        apply_slot(&mut dst, vertices, indices, j0, ct, cb);
        apply_slot(&mut dst, vertices, indices, j0 + 1, ct, cb);
        apply_slot(&mut dst, vertices, indices, j0 + 2, ct, cb);
        t += 1;
    }
    Ok(dst)
}

/// One vertex of the full-screen compositing quad, in clip-space units.
#[derive(Clone, Copy, PartialEq, Eq, Structural, Debug)]
pub struct QuadVertex {
    pub position: Vec2I,
    pub tex_coords: Vec2I,
}

/// The memory shape of a [`ModelVertex`] record as the GPU reads it: five
/// attributes followed by eight bytes of padding, 64 bytes in all.
pub fn model_vertex_layout() -> (l: VertexBufferLayout)
    ensures
        l.array_stride == 64,
        l.step_mode == VertexStepMode::Vertex,
        l.attributes@.len() == 5,
        l.attributes@[0] == (VertexAttribute {
            format: VertexFormat::Float32x3,
            offset: 0,
            shader_location: 0,
        }),
        l.attributes@[1] == (VertexAttribute {
            format: VertexFormat::Float32x2,
            offset: 12,
            shader_location: 1,
        }),
        l.attributes@[2] == (VertexAttribute {
            format: VertexFormat::Float32x3,
            offset: 20,
            shader_location: 2,
        }),
        l.attributes@[3] == (VertexAttribute {
            format: VertexFormat::Float32x3,
            offset: 32,
            shader_location: 3,
        }),
        l.attributes@[4] == (VertexAttribute {
            format: VertexFormat::Float32x3,
            offset: 44,
            shader_location: 4,
        }),
        layout_well_formed(l),
{
    let mut attributes: Vec<VertexAttribute> = Vec::new();
    attributes.push(
        VertexAttribute { format: VertexFormat::Float32x3, offset: 0, shader_location: 0 },
    );
    attributes.push(
        VertexAttribute { format: VertexFormat::Float32x2, offset: 12, shader_location: 1 },
    );
    attributes.push(
        VertexAttribute { format: VertexFormat::Float32x3, offset: 20, shader_location: 2 },
    );
    attributes.push(
        VertexAttribute { format: VertexFormat::Float32x3, offset: 32, shader_location: 3 },
    );
    attributes.push(
        VertexAttribute { format: VertexFormat::Float32x3, offset: 44, shader_location: 4 },
    );
    VertexBufferLayout { array_stride: 64, step_mode: VertexStepMode::Vertex, attributes }
}

/// The memory shape of a [`QuadVertex`] record: two attributes, 16 bytes.
pub fn quad_vertex_layout() -> (l: VertexBufferLayout)
    ensures
        l.array_stride == 16,
        l.step_mode == VertexStepMode::Vertex,
        l.attributes@.len() == 2,
        l.attributes@[0] == (VertexAttribute {
            format: VertexFormat::Float32x2,
            offset: 0,
            shader_location: 0,
        }),
        l.attributes@[1] == (VertexAttribute {
            format: VertexFormat::Float32x2,
            offset: 8,
            shader_location: 1,
        }),
        layout_well_formed(l),
{
    let mut attributes: Vec<VertexAttribute> = Vec::new();
    attributes.push(
        VertexAttribute { format: VertexFormat::Float32x2, offset: 0, shader_location: 0 },
    );
    attributes.push(
        VertexAttribute { format: VertexFormat::Float32x2, offset: 8, shader_location: 1 },
    );
    VertexBufferLayout { array_stride: 16, step_mode: VertexStepMode::Vertex, attributes }
}

impl Vertex for ModelVertex {
    fn desc() -> VertexBufferLayout {
        model_vertex_layout()
    }
}

impl Vertex for QuadVertex {
    fn desc() -> VertexBufferLayout {
        quad_vertex_layout()
    }
}

/// One mesh as the renderer draws it: handles to its device buffers, the
/// number of indices to draw, and the material it uses.
#[derive(Debug)]
pub struct Mesh {
    pub name: String,
    pub vertex_buffer: ResourceId,
    pub index_buffer: ResourceId,
    pub num_elements: u32,
    pub material: usize,
}

/// The four corners of the full-screen quad, wound as two
/// counter-clockwise triangles by [`screen_quad_indices`].
pub fn screen_quad_vertices() -> (v: Vec<QuadVertex>)
    ensures
        v@.len() == 4,
        v@[0] == (QuadVertex {
            position: Vec2I { x: -1i64, y: 1i64 },
            tex_coords: Vec2I { x: 0i64, y: 0i64 },
        }),
        v@[1] == (QuadVertex {
            position: Vec2I { x: 1i64, y: 1i64 },
            tex_coords: Vec2I { x: 1i64, y: 0i64 },
        }),
        v@[2] == (QuadVertex {
            position: Vec2I { x: 1i64, y: -1i64 },
            tex_coords: Vec2I { x: 1i64, y: 1i64 },
        }),
        v@[3] == (QuadVertex {
            position: Vec2I { x: -1i64, y: -1i64 },
            tex_coords: Vec2I { x: 0i64, y: 1i64 },
        }),
{
    let mut v: Vec<QuadVertex> = Vec::new();
    v.push(
        QuadVertex { position: Vec2I { x: -1, y: 1 }, tex_coords: Vec2I { x: 0, y: 0 } },
    );
    v.push(QuadVertex { position: Vec2I { x: 1, y: 1 }, tex_coords: Vec2I { x: 1, y: 0 } });
    v.push(
        QuadVertex { position: Vec2I { x: 1, y: -1 }, tex_coords: Vec2I { x: 1, y: 1 } },
    );
    v.push(
        QuadVertex { position: Vec2I { x: -1, y: -1 }, tex_coords: Vec2I { x: 0, y: 1 } },
    );
    v
}

/// The six indices of the full-screen quad: two triangles over four
/// vertices.
pub fn screen_quad_indices() -> (idx: Vec<u32>)
    ensures
        idx@ =~= seq![0u32, 1u32, 2u32, 0u32, 2u32, 3u32],
{
    let mut idx: Vec<u32> = Vec::new();
    idx.push(0);
    idx.push(1);
    idx.push(2);
    idx.push(0);
    idx.push(2);
    idx.push(3);
    idx
}

/// The counts record the preprocessing dispatch reads as a uniform.
#[derive(Clone, Copy, PartialEq, Eq, Structural, Debug)]
pub struct ComputeInfo {
    pub num_vertices: u32,
    pub num_indices: u32,
}

/// The compute job descriptor of one preprocessing dispatch: source
/// vertices read-only, destination vertices read-write, indices
/// read-only, counts as a uniform.
#[derive(Clone, Copy, PartialEq, Eq, Structural, Debug)]
pub struct BitangentComputeBinding {
    pub src_vertex_buffer: ResourceId,
    pub dst_vertex_buffer: ResourceId,
    pub index_buffer: ResourceId,
    pub info_buffer: ResourceId,
    pub compute_info: ComputeInfo,
}

/// The binding layout the preprocessing shader expects.
pub open spec fn spec_bitangent_layout() -> Seq<LayoutEntry> {
    seq![
        LayoutEntry {
            binding: 0,
            visibility: StageSet::Compute,
            kind: ResourceKind::StorageBuffer { read_only: true },
        },
        LayoutEntry {
            binding: 1,
            visibility: StageSet::Compute,
            kind: ResourceKind::StorageBuffer { read_only: false },
        },
        LayoutEntry {
            binding: 2,
            visibility: StageSet::Compute,
            kind: ResourceKind::StorageBuffer { read_only: true },
        },
        LayoutEntry { binding: 3, visibility: StageSet::Compute, kind: ResourceKind::UniformBuffer },
    ]
}

/// Executable mirror of [`spec_bitangent_layout`].
pub fn bitangent_layout_entries() -> (r: Vec<LayoutEntry>)
    ensures
        r@ =~= spec_bitangent_layout(),
        entries_well_formed(r@),
{
    let mut r: Vec<LayoutEntry> = Vec::new();
    r.push(
        LayoutEntry {
            binding: 0,
            visibility: StageSet::Compute,
            kind: ResourceKind::StorageBuffer { read_only: true },
        },
    );
    r.push(
        LayoutEntry {
            binding: 1,
            visibility: StageSet::Compute,
            kind: ResourceKind::StorageBuffer { read_only: false },
        },
    );
    r.push(
        LayoutEntry {
            binding: 2,
            visibility: StageSet::Compute,
            kind: ResourceKind::StorageBuffer { read_only: true },
        },
    );
    r.push(
        LayoutEntry { binding: 3, visibility: StageSet::Compute, kind: ResourceKind::UniformBuffer },
    );
    r
}

impl BitangentComputeBinding {
    /// The concrete resources this job attaches, in layout order.
    pub open spec fn spec_resources(self) -> Seq<BoundResource> {
        seq![
            BoundResource::StorageBuffer { id: self.src_vertex_buffer, read_only: true },
            BoundResource::StorageBuffer { id: self.dst_vertex_buffer, read_only: false },
            BoundResource::StorageBuffer { id: self.index_buffer, read_only: true },
            BoundResource::UniformBuffer { id: self.info_buffer },
        ]
    }

    /// Executable mirror of [`BitangentComputeBinding::spec_resources`].
    pub fn resources(&self) -> (r: Vec<BoundResource>)
        ensures
            r@ =~= self.spec_resources(),
    {
        let mut r: Vec<BoundResource> = Vec::new();
        r.push(BoundResource::StorageBuffer { id: self.src_vertex_buffer, read_only: true });
        r.push(BoundResource::StorageBuffer { id: self.dst_vertex_buffer, read_only: false });
        r.push(BoundResource::StorageBuffer { id: self.index_buffer, read_only: true });
        r.push(BoundResource::UniformBuffer { id: self.info_buffer });
        r
    }

    /// A job's resources always conform to the preprocessing layout: the
    /// binding-set round trip for this job cannot fail.
    pub proof fn lemma_resources_conform(self)
        ensures
            conforms(self.spec_resources(), spec_bitangent_layout()),
            entries_well_formed(spec_bitangent_layout()),
    {
        assert forall|i: int| 0 <= i < 4 implies kind_of(
            #[trigger] self.spec_resources()[i],
        ) == spec_bitangent_layout()[i].kind by {
            assert(0 <= i && i < 4);
        }
        assert forall|i: int| 0 <= i < 4 implies (#[trigger] spec_bitangent_layout()[i]).binding
            == i by {
            assert(0 <= i && i < 4);
        }
    }
}

impl Bindable for BitangentComputeBinding {
    open spec fn spec_layout() -> Seq<LayoutEntry> {
        spec_bitangent_layout()
    }

    fn layout_entries() -> (r: Vec<LayoutEntry>) {
        let r = bitangent_layout_entries();
        proof {
            assert(r@ =~= spec_bitangent_layout());
        }
        r
    }

    fn bind_group_entries(&self) -> Vec<BoundResource> {
        self.resources()
    }
}

/// A named bundle of textures with the binding set that attaches them.
#[derive(Debug)]
pub struct Material {
    pub name: String,
    pub textures: Vec<(String, Texture)>,
    pub bind_group: BindingSet,
}

/// The binding layout a material's textures fill: texture and sampler for
/// the diffuse map, texture and sampler for the normal map, all read by
/// the fragment stage.
pub open spec fn spec_material_layout() -> Seq<LayoutEntry> {
    seq![
        LayoutEntry {
            binding: 0,
            visibility: StageSet::Fragment,
            kind: ResourceKind::SampledTexture,
        },
        LayoutEntry {
            binding: 1,
            visibility: StageSet::Fragment,
            kind: ResourceKind::FilteringSampler,
        },
        LayoutEntry {
            binding: 2,
            visibility: StageSet::Fragment,
            kind: ResourceKind::SampledTexture,
        },
        LayoutEntry {
            binding: 3,
            visibility: StageSet::Fragment,
            kind: ResourceKind::FilteringSampler,
        },
    ]
}

/// Executable mirror of [`spec_material_layout`].
pub fn material_layout_entries() -> (r: Vec<LayoutEntry>)
    ensures
        r@ =~= spec_material_layout(),
        entries_well_formed(r@),
{
    let mut r: Vec<LayoutEntry> = Vec::new();
    r.push(
        LayoutEntry {
            binding: 0,
            visibility: StageSet::Fragment,
            kind: ResourceKind::SampledTexture,
        },
    );
    r.push(
        LayoutEntry {
            binding: 1,
            visibility: StageSet::Fragment,
            kind: ResourceKind::FilteringSampler,
        },
    );
    r.push(
        LayoutEntry {
            binding: 2,
            visibility: StageSet::Fragment,
            kind: ResourceKind::SampledTexture,
        },
    );
    r.push(
        LayoutEntry {
            binding: 3,
            visibility: StageSet::Fragment,
            kind: ResourceKind::FilteringSampler,
        },
    );
    r
}

/// The resources two textures contribute to a material binding set, in
/// layout order: view and sampler of the first, view and sampler of the
/// second.
pub open spec fn spec_material_resources(t0: Texture, t1: Texture) -> Seq<BoundResource> {
    seq![
        BoundResource::TextureView { id: t0.id },
        BoundResource::Sampler { id: t0.id, comparison: t0.sampler.compare is Some },
        BoundResource::TextureView { id: t1.id },
        BoundResource::Sampler { id: t1.id, comparison: t1.sampler.compare is Some },
    ]
}

/// Executable mirror of [`spec_material_resources`].
pub fn material_resources(t0: &Texture, t1: &Texture) -> (r: Vec<BoundResource>)
    ensures
        r@ =~= spec_material_resources(*t0, *t1),
{
    let mut r: Vec<BoundResource> = Vec::new();
    r.push(BoundResource::TextureView { id: t0.id });
    r.push(BoundResource::Sampler { id: t0.id, comparison: t0.sampler.compare.is_some() });
    r.push(BoundResource::TextureView { id: t1.id });
    r.push(BoundResource::Sampler { id: t1.id, comparison: t1.sampler.compare.is_some() });
    r
}

/// Two non-comparison textures conform to the material layout.
pub proof fn lemma_material_resources_conform(t0: Texture, t1: Texture)
    requires
        t0.sampler.compare is None,
        t1.sampler.compare is None,
    ensures
        conforms(spec_material_resources(t0, t1), spec_material_layout()),
        entries_well_formed(spec_material_layout()),
{
    assert forall|i: int| 0 <= i < 4 implies kind_of(
        #[trigger] spec_material_resources(t0, t1)[i],
    ) == spec_material_layout()[i].kind by {
        assert(0 <= i && i < 4);
    }
    assert forall|i: int| 0 <= i < 4 implies (#[trigger] spec_material_layout()[i]).binding
        == i by {
        assert(0 <= i && i < 4);
    }
}

/// Builds a material over two textures against a layout of the material
/// shape.  Succeeds exactly when the textures' views and samplers conform
/// to the layout; a comparison sampler against a filtering slot is
/// refused, as the GPU API would.
pub fn create_material(
    name: &str,
    key0: &str,
    t0: Texture,
    key1: &str,
    t1: Texture,
    layout: &crate::binding::BindingLayout,
) -> (r: Result<Material, crate::binding::BindingError>)
    requires
        layout.wf(),
    ensures
        r is Ok <==> conforms(spec_material_resources(t0, t1), layout.entries@),
        r matches Ok(m) ==> m.name@ == name@ && m.bind_group.wf() && m.bind_group.resources@
            =~= spec_material_resources(t0, t1) && m.bind_group.entries@ == layout.entries@
            && m.textures@.len() == 2 && m.textures@[0].0@ == key0@ && m.textures@[0].1 == t0
            && m.textures@[1].0@ == key1@ && m.textures@[1].1 == t1,
{
    let resources = material_resources(&t0, &t1);
    let bind_group = match create_binding_set(resources, layout, name) {
        Ok(s) => s,
        Err(e) => {
            return Err(e);
        },
    };
    let mut textures: Vec<(String, Texture)> = Vec::new();
    textures.push((key0.to_owned(), t0));
    textures.push((key1.to_owned(), t1));
    Ok(Material { name: name.to_owned(), textures, bind_group })
}

/// A loaded model: its meshes and the materials they draw with.
#[derive(Debug)]
pub struct Model {
    pub meshes: Vec<Mesh>,
    pub materials: Vec<Material>,
}

impl Model {
    /// Every mesh names a material the model owns.
    pub open spec fn wf(self) -> bool {
        forall|m: int|
            0 <= m < self.meshes@.len() ==> (#[trigger] self.meshes@[m]).material
                < self.materials@.len()
    }
}

/// One prepared mesh: the draw record, the job descriptor the dispatch
/// used, its binding set, and the destination vertices as they stand
/// after the device confirmed completion.
#[derive(Debug)]
pub struct PreparedMesh {
    pub mesh: Mesh,
    pub binding: BitangentComputeBinding,
    pub bind_group: BindingSet,
    pub vertices: Vec<ModelVertex>,
    pub dispatch_count: u32,
}

/// Builds preprocessing jobs: owns the bitangent binding layout and the
/// compute pipeline over it.
#[derive(Debug)]
pub struct ModelLoader {
    pub binder: Binder<BitangentComputeBinding>,
    pub pipeline: ComputePipeline,
}

impl ModelLoader {
    pub open spec fn wf(self) -> bool {
        &&& self.binder.layout.wf()
        &&& self.binder.layout.entries@ =~= spec_bitangent_layout()
        &&& self.pipeline.layout_entries@.len() == 1
        &&& self.pipeline.layout_entries@[0]@ =~= spec_bitangent_layout()
    }

    /// Builds the loader: the binder over the job's declared layout, and
    /// the compute pipeline over exactly that one layout.  Fails exactly
    /// when the shader lacks its single `main` entry point.
    pub fn new(compute_shader: &ShaderProgram) -> (r: Result<ModelLoader, PipelineError>)
        ensures
            r is Ok <==> shader_has_entry(*compute_shader, "main"@),
            r matches Ok(m) ==> m.wf(),
            r matches Err(e) ==> e == PipelineError::MissingComputeEntry,
    {
        proof {
            assert forall|i: int| 0 <= i < 4 implies (#[trigger] spec_bitangent_layout()[i]).binding
                == i by {
                assert(0 <= i && i < 4);
            }
        }
        let binder = match Binder::<BitangentComputeBinding>::new("ModelLoader Binder") {
            Ok(b) => b,
            Err(_) => {
                proof {
                    assert(false);
                }
                return Err(PipelineError::MissingComputeEntry);
            },
        };
        let mut layouts: Vec<crate::binding::BindingLayout> = Vec::new();
        layouts.push(
            match build_layout(bitangent_layout_entries(), "ModelLoader Binder") {
                Ok(l) => l,
                Err(_) => {
                    proof {
                        assert(false);
                    }
                    return Err(PipelineError::MissingComputeEntry);
                },
            },
        );
        let pipeline = match create_compute_pipeline(
            &layouts,
            compute_shader,
            "ModelLoader Compute Pipeline",
        ) {
            Ok(p) => p,
            Err(e) => {
                return Err(e);
            },
        };
        Ok(ModelLoader { binder, pipeline })
    }

    /// Prepares one mesh: validates it, runs the preprocessing pass (the
    /// dispatch of one invocation per vertex whose completion the caller
    /// blocks on), and builds the job descriptor with its binding set,
    /// which conforms to the layout by construction.
    pub fn load(
        &self,
        name: &str,
        vertices: &Vec<ModelVertex>,
        indices: &Vec<u32>,
        material: usize,
        ids: &mut IdGen,
    ) -> (r: Result<PreparedMesh, GeometryError>)
        requires
            self.wf(),
            old(ids).next_slot <= u64::MAX - 4,
        ensures
            r is Ok <==> mesh_inputs_valid(vertices@, indices@),
            r matches Ok(p) ==> {
                &&& p.vertices@.len() == vertices@.len()
                &&& preprocessed(vertices@, indices@, p.vertices@)
                &&& p.mesh.name@ == name@
                &&& p.mesh.num_elements == indices@.len()
                &&& p.mesh.material == material
                &&& p.mesh.vertex_buffer == p.binding.dst_vertex_buffer
                &&& p.mesh.index_buffer == p.binding.index_buffer
                &&& p.binding.compute_info.num_vertices == vertices@.len()
                &&& p.binding.compute_info.num_indices == indices@.len()
                &&& p.dispatch_count == vertices@.len()
                &&& p.bind_group.wf()
                &&& p.bind_group.entries@ =~= spec_bitangent_layout()
                &&& p.bind_group.resources@ =~= p.binding.spec_resources()
                &&& p.binding.src_vertex_buffer == (ResourceId {
                    slot: old(ids).next_slot,
                    generation: 0,
                })
                &&& p.binding.dst_vertex_buffer == (ResourceId {
                    slot: (old(ids).next_slot + 1) as u64,
                    generation: 0,
                })
                &&& p.binding.index_buffer == (ResourceId {
                    slot: (old(ids).next_slot + 2) as u64,
                    generation: 0,
                })
                &&& p.binding.info_buffer == (ResourceId {
                    slot: (old(ids).next_slot + 3) as u64,
                    generation: 0,
                })
                &&& final(ids).next_slot == old(ids).next_slot + 4
            },
            r is Err ==> final(ids).next_slot == old(ids).next_slot,
            r matches Err(GeometryError::IndexCountNotTriangles) ==> indices@.len() % 3 != 0,
            r matches Err(GeometryError::MeshTooLarge) ==> indices@.len() % 3 == 0 && (
            vertices@.len() > u32::MAX || indices@.len() > MAX_TANGENT_INDICES),
            r matches Err(GeometryError::IndexOutOfBounds { position }) ==> 0 <= position
                < indices@.len() && indices@[position as int] >= vertices@.len() && (forall|j: int|
                0 <= j < position ==> (#[trigger] indices@[j]) < vertices@.len()),
            r matches Err(GeometryError::CoordinateOutOfRange { vertex }) ==> 0 <= vertex
                < vertices@.len() && !vertex_in_range(vertices@[vertex as int]) && (forall|j: int|
                0 <= j < vertex ==> vertex_in_range(#[trigger] vertices@[j])),
    {
        let dst = match compute_tangents(vertices, indices) {
            Ok(d) => d,
            Err(e) => {
                return Err(e);
            },
        };
        let src_vertex_buffer = ids.fresh();
        let dst_vertex_buffer = ids.fresh();
        let index_buffer = ids.fresh();
        let info_buffer = ids.fresh();
        let compute_info = ComputeInfo {
            num_vertices: vertices.len() as u32,
            num_indices: indices.len() as u32,
        };
        let binding = BitangentComputeBinding {
            src_vertex_buffer,
            dst_vertex_buffer,
            index_buffer,
            info_buffer,
            compute_info,
        };
        proof {
            binding.lemma_resources_conform();
        }
        let resources = binding.resources();
        let bind_group = match create_binding_set(
            resources,
            &self.binder.layout,
            "Bitangent Compute Binding Group",
        ) {
            Ok(s) => s,
            Err(_) => {
                proof {
                    assert(false);
                }
                return Err(GeometryError::MeshTooLarge);
            },
        };
        let mesh = Mesh {
            name: name.to_owned(),
            vertex_buffer: dst_vertex_buffer,
            index_buffer,
            num_elements: compute_info.num_indices,
            material,
        };
        Ok(
            PreparedMesh {
                mesh,
                binding,
                bind_group,
                vertices: dst,
                dispatch_count: compute_info.num_vertices,
            },
        )
    }

    /// The fixed full-screen quad mesh the compositing pass draws: the
    /// four clip-space corners, six indices, two triangles, over two
    /// fresh buffer identities.
    pub fn create_screen_quad_mesh(ids: &mut IdGen) -> (r: (Mesh, Vec<QuadVertex>, Vec<u32>))
        requires
            old(ids).next_slot <= u64::MAX - 2,
        ensures
            r.0.name@ == "Output Quad"@,
            r.0.num_elements == 6,
            r.0.material == 0,
            r.0.vertex_buffer == (ResourceId { slot: old(ids).next_slot, generation: 0u64 }),
            r.0.index_buffer == (ResourceId { slot: (old(ids).next_slot + 1) as u64, generation: 0u64 }),
            final(ids).next_slot == old(ids).next_slot + 2,
            r.1@.len() == 4,
            r.1@[0] == (QuadVertex {
                position: Vec2I { x: -1i64, y: 1i64 },
                tex_coords: Vec2I { x: 0i64, y: 0i64 },
            }),
            r.1@[1] == (QuadVertex {
                position: Vec2I { x: 1i64, y: 1i64 },
                tex_coords: Vec2I { x: 1i64, y: 0i64 },
            }),
            r.1@[2] == (QuadVertex {
                position: Vec2I { x: 1i64, y: -1i64 },
                tex_coords: Vec2I { x: 1i64, y: 1i64 },
            }),
            r.1@[3] == (QuadVertex {
                position: Vec2I { x: -1i64, y: -1i64 },
                tex_coords: Vec2I { x: 0i64, y: 1i64 },
            }),
            r.2@ =~= seq![0u32, 1u32, 2u32, 0u32, 2u32, 3u32],
    {
        let vertices = screen_quad_vertices();
        let indices = screen_quad_indices();
        let vertex_buffer = ids.fresh();
        let index_buffer = ids.fresh();
        let mesh = Mesh {
            name: "Output Quad".to_owned(),
            vertex_buffer,
            index_buffer,
            num_elements: 6,
            material: 0,
        };
        (mesh, vertices, indices)
    }
}

} // verus!
