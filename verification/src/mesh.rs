//! Mesh data: vertices, materials, the draw plan, and midpoint subdivision
//! with vertex deduplication.
//!
//! Drawing itself is GPU work and stays outside the library: `draw` returns
//! a plan — which texture goes to which texture unit under which per-kind
//! ordinal, which scalar properties to set, and which flags — and the host
//! executes it. Units start at 1 (unit 0 is reserved), ordinals count per
//! texture kind from 0.

use vstd::prelude::*;
use crate::linalg::{Vec3Fx, Vec2Fx, v3_bounded};

verus! {

/// Largest vertex coordinate magnitude accepted by the mesh pipeline, so
/// that midpoint sums stay representable.
pub const COORD_LIMIT: i64 = 0x100_0000_0000;

/// One vertex: position, normal and texture coordinates, in fixed point.
#[derive(Clone, Copy, Debug, PartialEq, Eq, Structural)]
pub struct Vertex {
    pub position: Vec3Fx,
    pub normal: Vec3Fx,
    pub tex_coords: Vec2Fx,
}

/// The kinds of material data a shader consumes.
#[derive(Clone, Copy, Debug, PartialEq, Eq, Structural)]
pub enum MaterialType {
    DiffuseTex,
    SpecularTex,
    EmissiveTex,
    Shininess,
}

/// Material data: either a loaded texture (GPU handle plus the source path
/// it was loaded from) or a scalar property such as shininess.
#[derive(Clone, Debug)]
pub enum Material {
    Texture { id: u32, path: String, type_: MaterialType },
    Property { value: i64, type_: MaterialType },
}

/// Spec-level equality of materials, comparing paths by their character
/// sequences.
pub open spec fn mat_eq_s(a: Material, b: Material) -> bool {
    match (a, b) {
        (Material::Texture { id: ia, path: pa, type_: ta },
         Material::Texture { id: ib, path: pb, type_: tb }) => {
            ia == ib && pa@ == pb@ && ta == tb
        },
        (Material::Property { value: va, type_: ta },
         Material::Property { value: vb, type_: tb }) => {
            va == vb && ta == tb
        },
        _ => false,
    }
}

impl Material {
    /// Whether this material is a texture loaded from exactly this path.
    /// Returns false for any property material.
    pub fn is_path_eq(&self, other: &str) -> (r: bool)
        ensures
            r == match *self {
                Material::Texture { id: _, path, type_: _ } => path@ == other@,
                Material::Property { .. } => false,
            },
    {
        let o: String = other.to_owned();
        match self {
            Material::Texture { id: _, path, type_: _ } => *path == o,
            _ => false,
        }
    }

    /// A copy of this material whose path has the same characters.
    pub fn duplicate(&self) -> (r: Material)
        ensures
            mat_eq_s(r, *self),
    {
        match self {
            Material::Texture { id, path, type_ } => Material::Texture {
                id: *id,
                path: path.clone(),
                type_: *type_,
            },
            Material::Property { value, type_ } => Material::Property {
                value: *value,
                type_: *type_,
            },
        }
    }
}

/// The GPU-side buffer handles of a mesh: vertex array, vertex buffer and
/// index buffer objects. The library treats them as opaque numbers; the
/// host allocates, fills and releases them.
#[derive(Clone, Copy, Debug, PartialEq, Eq, Structural, Default)]
pub struct GpuHandles {
    pub vao: u32,
    pub vbo: u32,
    pub ebo: u32,
}

/// One drawable unit of geometry: a triangle list over a vertex array,
/// with its material bindings and GPU handles.
pub struct Mesh {
    pub vertices: Vec<Vertex>,
    pub indices: Vec<u32>,
    pub materials: Vec<Material>,
    pub gpu: GpuHandles,
}

/// A vertex has all coordinates within the representable range.
pub open spec fn vertex_wf(v: Vertex) -> bool {
    &&& v3_bounded(v.position@, 0x100_0000_0000)
    &&& v3_bounded(v.normal@, 0x100_0000_0000)
    &&& -0x100_0000_0000 <= v.tex_coords.x <= 0x100_0000_0000
    &&& -0x100_0000_0000 <= v.tex_coords.y <= 0x100_0000_0000
}

/// Mesh well-formedness: whole triangles, indices into the vertex list,
/// bounded sizes and coordinates.
pub open spec fn mesh_wf(vertices: Seq<Vertex>, indices: Seq<u32>) -> bool {
    &&& indices.len() % 3 == 0
    &&& forall|k: int| 0 <= k < indices.len() ==> (#[trigger] indices[k]) < vertices.len()
    &&& forall|i: int| 0 <= i < vertices.len() ==> vertex_wf(#[trigger] vertices[i])
    &&& vertices.len() <= 0x4000_0000
    &&& indices.len() <= 0x4000_0000
}

impl Mesh {
    /// Well-formedness of this mesh.
    pub open spec fn wf(&self) -> bool {
        &&& mesh_wf(self.vertices@, self.indices@)
        &&& self.materials@.len() <= 0x1000_0000
    }

    /// Builds a mesh from fully resolved vertex, index and material data;
    /// the GPU handles start at zero and are filled in by the host after
    /// it uploads the buffers.
    pub fn new(v: Vec<Vertex>, i: Vec<u32>, t: Vec<Material>) -> (mesh: Mesh)
        requires
            mesh_wf(v@, i@),
            t@.len() <= 0x1000_0000,
        ensures
            mesh.wf(),
            mesh.vertices@ == v@,
            mesh.indices@ == i@,
            mesh.materials@ == t@,
            mesh.gpu == (GpuHandles { vao: 0, vbo: 0, ebo: 0 }),
    {
        Mesh { vertices: v, indices: i, materials: t, gpu: GpuHandles { vao: 0, vbo: 0, ebo: 0 } }
    }
}

/// One texture binding of a draw plan: bind texture `id` to texture unit
/// `unit`, and name it in the shader by its kind and per-kind ordinal.
#[derive(Clone, Copy, Debug, PartialEq, Eq, Structural)]
pub struct TextureBinding {
    pub unit: u32,
    pub id: u32,
    pub type_: MaterialType,
    pub ordinal: u32,
}

/// Everything the host needs to draw one mesh: texture bindings in order,
/// scalar properties in order, per-kind usage flags, whether to set the
/// fallback flat color (no diffuse texture), and the indexed draw itself.
pub struct DrawPlan {
    pub bindings: Vec<TextureBinding>,
    pub properties: Vec<i64>,
    pub use_diffuse: bool,
    pub use_specular: bool,
    pub use_emissive: bool,
    pub fallback_color: bool,
    pub vao: u32,
    pub index_count: u32,
}

/// The number of texture materials among `ms`.
pub open spec fn tex_count(ms: Seq<Material>) -> int
    decreases ms.len(),
{
    if ms.len() == 0 {
        0
    } else {
        tex_count(ms.drop_last()) + match ms.last() {
            Material::Texture { .. } => 1int,
            Material::Property { .. } => 0int,
        }
    }
}

/// The number of texture materials of one kind among `ms`.
pub open spec fn kind_count(ms: Seq<Material>, kind: MaterialType) -> int
    decreases ms.len(),
{
    if ms.len() == 0 {
        0
    } else {
        kind_count(ms.drop_last(), kind) + match ms.last() {
            Material::Texture { id: _, path: _, type_ } => if type_ == kind { 1int } else { 0int },
            Material::Property { .. } => 0int,
        }
    }
}

/// The texture bindings of a material list: one per texture material, in
/// order, with consecutive units from 1 and per-kind ordinals from 0.
pub open spec fn plan_bindings(ms: Seq<Material>) -> Seq<TextureBinding>
    decreases ms.len(),
{
    if ms.len() == 0 {
        Seq::empty()
    } else {
        let rest = plan_bindings(ms.drop_last());
        match ms.last() {
            Material::Texture { id, path: _, type_ } => rest.push(TextureBinding {
                unit: (rest.len() + 1) as u32,
                id: id,
                type_: type_,
                ordinal: if type_ is Shininess {
                    0
                } else {
                    kind_count(ms.drop_last(), type_) as u32
                },
            }),
            Material::Property { .. } => rest,
        }
    }
}

/// The scalar property values of a material list, in order.
pub open spec fn plan_properties(ms: Seq<Material>) -> Seq<i64>
    decreases ms.len(),
{
    if ms.len() == 0 {
        Seq::empty()
    } else {
        let rest = plan_properties(ms.drop_last());
        match ms.last() {
            Material::Texture { .. } => rest,
            Material::Property { value, type_: _ } => rest.push(value),
        }
    }
}

/// What it means for a draw plan to describe a mesh.
pub open spec fn plan_matches(p: DrawPlan, vertices: Seq<Vertex>, indices: Seq<u32>,
    materials: Seq<Material>, gpu: GpuHandles) -> bool {
    &&& p.bindings@ == plan_bindings(materials)
    &&& p.properties@ == plan_properties(materials)
    &&& p.use_diffuse == (kind_count(materials, MaterialType::DiffuseTex) > 0)
    &&& p.use_specular == (kind_count(materials, MaterialType::SpecularTex) > 0)
    &&& p.use_emissive == (kind_count(materials, MaterialType::EmissiveTex) > 0)
    &&& p.fallback_color == (kind_count(materials, MaterialType::DiffuseTex) == 0)
    &&& p.vao == gpu.vao
    &&& p.index_count == indices.len()
}

/// Counts never exceed the list length.
proof fn lemma_counts_le_len(ms: Seq<Material>, kind: MaterialType)
    ensures
        0 <= tex_count(ms) <= ms.len(),
        0 <= kind_count(ms, kind) <= ms.len(),
        plan_bindings(ms).len() == tex_count(ms),
    decreases ms.len(),
{
    if ms.len() > 0 {
        lemma_counts_le_len(ms.drop_last(), kind);
    }
}

impl Mesh {
    /// Computes the draw plan for this mesh: each texture material is bound
    /// to the next texture unit (starting at 1) and counted per kind; each
    /// property material contributes its scalar in order; the usage flags
    /// and the fallback color mirror what was bound. The host resets the
    /// stale texture uniforms, executes the plan, and issues the indexed
    /// triangle draw over `index_count` indices of `vao`.
    pub fn draw(&self) -> (p: DrawPlan)
        requires
            self.wf(),
        ensures
            plan_matches(p, self.vertices@, self.indices@, self.materials@, self.gpu),
    {
        let n = self.materials.len();
        let mut bindings: Vec<TextureBinding> = Vec::new();
        let mut properties: Vec<i64> = Vec::new();
        let mut diff_num: u32 = 0;
        let mut spec_num: u32 = 0;
        let mut emis_num: u32 = 0;
        let mut texture_unit: u32 = 1;
        let mut k: usize = 0;
        while k < n
            invariant
                n == self.materials@.len() <= 0x1000_0000,
                0 <= k <= n,
                bindings@ == plan_bindings(self.materials@.take(k as int)),
                properties@ == plan_properties(self.materials@.take(k as int)),
                diff_num == kind_count(self.materials@.take(k as int), MaterialType::DiffuseTex),
                spec_num == kind_count(self.materials@.take(k as int), MaterialType::SpecularTex),
                emis_num == kind_count(self.materials@.take(k as int), MaterialType::EmissiveTex),
                texture_unit == tex_count(self.materials@.take(k as int)) + 1,
            decreases n - k,
        {
            proof {
                lemma_counts_le_len(self.materials@.take(k as int), MaterialType::DiffuseTex);
                lemma_counts_le_len(self.materials@.take(k as int), MaterialType::SpecularTex);
                lemma_counts_le_len(self.materials@.take(k as int), MaterialType::EmissiveTex);
                lemma_counts_le_len(self.materials@.take(k as int), MaterialType::Shininess);
                assert(self.materials@.take(k + 1int).drop_last() =~= self.materials@.take(
                    k as int));
                assert(self.materials@.take(k + 1int).last() == self.materials@[k as int]);
            }
            match &self.materials[k] {
                Material::Texture { id, path: _, type_ } => {
                    let ordinal: u32 = match *type_ {
                        MaterialType::DiffuseTex => {
                            let o = diff_num;
                            diff_num = diff_num + 1;
                            o
                        },
                        MaterialType::SpecularTex => {
                            let o = spec_num;
                            spec_num = spec_num + 1;
                            o
                        },
                        MaterialType::EmissiveTex => {
                            let o = emis_num;
                            emis_num = emis_num + 1;
                            o
                        },
                        MaterialType::Shininess => 0,
                    };
                    bindings.push(TextureBinding {
                        unit: texture_unit,
                        id: *id,
                        type_: *type_,
                        ordinal: ordinal,
                    });
                    texture_unit = texture_unit + 1;
                },
                Material::Property { value, type_: _ } => {
                    properties.push(*value);
                },
            }
            k = k + 1;
        }
        proof {
            assert(self.materials@.take(n as int) =~= self.materials@);
            lemma_counts_le_len(self.materials@, MaterialType::DiffuseTex);
        }
        DrawPlan {
            bindings: bindings,
            properties: properties,
            use_diffuse: diff_num > 0,
            use_specular: spec_num > 0,
            use_emissive: emis_num > 0,
            fallback_color: diff_num == 0,
            vao: self.gpu.vao,
            index_count: self.indices.len() as u32,
        }
    }
}


/// The flooring midpoint of two fixed-point scalars.
pub open spec fn mid_i(a: int, b: int) -> int {
    (a + b) / 2
}

/// `r` is the componentwise midpoint of `a` and `b`: position, normal and
/// texture coordinates are each the arithmetic mean of the parents'.
pub open spec fn is_mid(r: Vertex, a: Vertex, b: Vertex) -> bool {
    &&& r.position.x == mid_i(a.position.x as int, b.position.x as int)
    &&& r.position.y == mid_i(a.position.y as int, b.position.y as int)
    &&& r.position.z == mid_i(a.position.z as int, b.position.z as int)
    &&& r.normal.x == mid_i(a.normal.x as int, b.normal.x as int)
    &&& r.normal.y == mid_i(a.normal.y as int, b.normal.y as int)
    &&& r.normal.z == mid_i(a.normal.z as int, b.normal.z as int)
    &&& r.tex_coords.x == mid_i(a.tex_coords.x as int, b.tex_coords.x as int)
    &&& r.tex_coords.y == mid_i(a.tex_coords.y as int, b.tex_coords.y as int)
}

/// The midpoint of two values in an interval stays in the interval.
pub proof fn lemma_mid_in_interval(a: int, b: int, lo: int, hi: int)
    requires
        lo <= a <= hi,
        lo <= b <= hi,
    ensures
        lo <= mid_i(a, b) <= hi,
{
    assert((2 * lo) / 2 == lo) by {
        vstd::arithmetic::div_mod::lemma_div_multiples_vanish(lo, 2);
    }
    assert((2 * hi) / 2 == hi) by {
        vstd::arithmetic::div_mod::lemma_div_multiples_vanish(hi, 2);
    }
    vstd::arithmetic::div_mod::lemma_div_is_ordered(2 * lo, a + b, 2);
    vstd::arithmetic::div_mod::lemma_div_is_ordered(a + b, 2 * hi, 2);
}

/// Every vertex is its own midpoint: the mean is exact on equal inputs.
pub proof fn lemma_mid_self(v: Vertex)
    ensures
        is_mid(v, v, v),
{
    lemma_mid_self_i(v.position.x as int);
    lemma_mid_self_i(v.position.y as int);
    lemma_mid_self_i(v.position.z as int);
    lemma_mid_self_i(v.normal.x as int);
    lemma_mid_self_i(v.normal.y as int);
    lemma_mid_self_i(v.normal.z as int);
    lemma_mid_self_i(v.tex_coords.x as int);
    lemma_mid_self_i(v.tex_coords.y as int);
}

proof fn lemma_mid_self_i(a: int)
    ensures
        mid_i(a, a) == a,
{
    assert((2 * a) / 2 == a) by {
        vstd::arithmetic::div_mod::lemma_div_multiples_vanish(a, 2);
    }
}

/// The midpoint vertex of an edge (spec): every attribute is the
/// arithmetic mean of the two parents' attribute.
pub open spec fn mid_vertex_s(a: Vertex, b: Vertex) -> Vertex {
    Vertex {
        position: Vec3Fx {
            x: mid_i(a.position.x as int, b.position.x as int) as i64,
            y: mid_i(a.position.y as int, b.position.y as int) as i64,
            z: mid_i(a.position.z as int, b.position.z as int) as i64,
        },
        normal: Vec3Fx {
            x: mid_i(a.normal.x as int, b.normal.x as int) as i64,
            y: mid_i(a.normal.y as int, b.normal.y as int) as i64,
            z: mid_i(a.normal.z as int, b.normal.z as int) as i64,
        },
        tex_coords: Vec2Fx {
            x: mid_i(a.tex_coords.x as int, b.tex_coords.x as int) as i64,
            y: mid_i(a.tex_coords.y as int, b.tex_coords.y as int) as i64,
        },
    }
}

/// For vertices with representable coordinates, the spec-level midpoint is
/// well-formed and is the componentwise mean of its parents.
pub proof fn lemma_mid_vertex(a: Vertex, b: Vertex)
    requires
        vertex_wf(a),
        vertex_wf(b),
    ensures
        vertex_wf(mid_vertex_s(a, b)),
        is_mid(mid_vertex_s(a, b), a, b),
{
    lemma_mid_in_interval(a.position.x as int, b.position.x as int,
        -0x100_0000_0000, 0x100_0000_0000);
    lemma_mid_in_interval(a.position.y as int, b.position.y as int,
        -0x100_0000_0000, 0x100_0000_0000);
    lemma_mid_in_interval(a.position.z as int, b.position.z as int,
        -0x100_0000_0000, 0x100_0000_0000);
    lemma_mid_in_interval(a.normal.x as int, b.normal.x as int,
        -0x100_0000_0000, 0x100_0000_0000);
    lemma_mid_in_interval(a.normal.y as int, b.normal.y as int,
        -0x100_0000_0000, 0x100_0000_0000);
    lemma_mid_in_interval(a.normal.z as int, b.normal.z as int,
        -0x100_0000_0000, 0x100_0000_0000);
    lemma_mid_in_interval(a.tex_coords.x as int, b.tex_coords.x as int,
        -0x100_0000_0000, 0x100_0000_0000);
    lemma_mid_in_interval(a.tex_coords.y as int, b.tex_coords.y as int,
        -0x100_0000_0000, 0x100_0000_0000);
}

/// Computes the midpoint vertex of an edge: every attribute is the
/// arithmetic mean of the two parents' attribute.
pub fn midpoint_vertex(a: &Vertex, b: &Vertex) -> (r: Vertex)
    requires
        vertex_wf(*a),
        vertex_wf(*b),
    ensures
        r == mid_vertex_s(*a, *b),
        is_mid(r, *a, *b),
        vertex_wf(r),
{
    proof {
        lemma_mid_in_interval(a.position.x as int, b.position.x as int,
            -0x100_0000_0000, 0x100_0000_0000);
        lemma_mid_in_interval(a.position.y as int, b.position.y as int,
            -0x100_0000_0000, 0x100_0000_0000);
        lemma_mid_in_interval(a.position.z as int, b.position.z as int,
            -0x100_0000_0000, 0x100_0000_0000);
        lemma_mid_in_interval(a.normal.x as int, b.normal.x as int,
            -0x100_0000_0000, 0x100_0000_0000);
        lemma_mid_in_interval(a.normal.y as int, b.normal.y as int,
            -0x100_0000_0000, 0x100_0000_0000);
        lemma_mid_in_interval(a.normal.z as int, b.normal.z as int,
            -0x100_0000_0000, 0x100_0000_0000);
        lemma_mid_in_interval(a.tex_coords.x as int, b.tex_coords.x as int,
            -0x100_0000_0000, 0x100_0000_0000);
        lemma_mid_in_interval(a.tex_coords.y as int, b.tex_coords.y as int,
            -0x100_0000_0000, 0x100_0000_0000);
    }
    Vertex {
        position: Vec3Fx {
            x: crate::fixed::fx_div(a.position.x + b.position.x, 2),
            y: crate::fixed::fx_div(a.position.y + b.position.y, 2),
            z: crate::fixed::fx_div(a.position.z + b.position.z, 2),
        },
        normal: Vec3Fx {
            x: crate::fixed::fx_div(a.normal.x + b.normal.x, 2),
            y: crate::fixed::fx_div(a.normal.y + b.normal.y, 2),
            z: crate::fixed::fx_div(a.normal.z + b.normal.z, 2),
        },
        tex_coords: Vec2Fx {
            x: crate::fixed::fx_div(a.tex_coords.x + b.tex_coords.x, 2),
            y: crate::fixed::fx_div(a.tex_coords.y + b.tex_coords.y, 2),
        },
    }
}

/// `v` is a componentwise midpoint of two vertices of `old_vs`.
pub open spec fn midpoint_of_some(old_vs: Seq<Vertex>, v: Vertex) -> bool {
    exists|i: int, j: int|
        0 <= i < old_vs.len() && 0 <= j < old_vs.len()
        && is_mid(v, old_vs[i], old_vs[j])
}

/// Every vertex of `new_vs` is a componentwise midpoint of two vertices of
/// `old_vs` (a vertex of `old_vs` itself is the midpoint of itself twice).
pub open spec fn all_midpoints_of(old_vs: Seq<Vertex>, new_vs: Seq<Vertex>) -> bool {
    forall|k: int| 0 <= k < new_vs.len() ==> midpoint_of_some(old_vs, #[trigger] new_vs[k])
}

/// No two vertices share a position.
pub open spec fn positions_distinct(vs: Seq<Vertex>) -> bool {
    forall|i: int, j: int| 0 <= i < j < vs.len()
        ==> (#[trigger] vs[i]).position != (#[trigger] vs[j]).position
}

/// The index of the first vertex with this position, or the length if no
/// vertex has it.
pub open spec fn find_pos(vs: Seq<Vertex>, p: Vec3Fx) -> int
    decreases vs.len(),
{
    if vs.len() == 0 {
        0
    } else if vs[0].position == p {
        0
    } else {
        1 + find_pos(vs.drop_first(), p)
    }
}

/// `find_pos` returns the first match: everything before it differs, and
/// it points at a match whenever one exists.
pub proof fn lemma_find_pos(vs: Seq<Vertex>, p: Vec3Fx)
    ensures
        0 <= find_pos(vs, p) <= vs.len(),
        find_pos(vs, p) < vs.len() ==> vs[find_pos(vs, p)].position == p,
        forall|j: int| 0 <= j < find_pos(vs, p) ==> (#[trigger] vs[j]).position != p,
    decreases vs.len(),
{
    if vs.len() > 0 && vs[0].position != p {
        lemma_find_pos(vs.drop_first(), p);
        let f = find_pos(vs, p);
        assert forall|j: int| 0 <= j < f implies (#[trigger] vs[j]).position != p by {
            if j > 0 {
                assert(vs[j] == vs.drop_first()[j - 1]);
            }
        }
        if f < vs.len() {
            assert(vs[f] == vs.drop_first()[f - 1]);
        }
    }
}

/// Insertion with deduplication by position (spec): the list and the index
/// of the vertex that now stands for this position. An existing vertex at
/// the same position is reused; otherwise the vertex is appended.
pub open spec fn dedup_insert_s(vs: Seq<Vertex>, v: Vertex) -> (Seq<Vertex>, int) {
    let k = find_pos(vs, v.position);
    if k < vs.len() {
        (vs, k)
    } else {
        (vs.push(v), vs.len() as int)
    }
}

/// The properties of one deduplicating insertion.
pub proof fn lemma_dedup_insert(vs: Seq<Vertex>, v: Vertex)
    ensures
        ({
            let d = dedup_insert_s(vs, v);
            &&& d.0 == vs || d.0 == vs.push(v)
            &&& vs.len() <= d.0.len() <= vs.len() + 1
            &&& 0 <= d.1 < d.0.len()
            &&& d.0[d.1].position == v.position
            &&& forall|i: int| 0 <= i < vs.len() ==> #[trigger] d.0[i] == vs[i]
            &&& (d.0 == vs.push(v) ==> d.1 == vs.len())
            &&& (positions_distinct(vs) ==> positions_distinct(d.0))
            &&& ((vertex_wf(v) && forall|i: int| 0 <= i < vs.len()
                    ==> vertex_wf(#[trigger] vs[i]))
                ==> forall|i: int| 0 <= i < d.0.len() ==> vertex_wf(#[trigger] d.0[i]))
        }),
{
    lemma_find_pos(vs, v.position);
    let d = dedup_insert_s(vs, v);
    if find_pos(vs, v.position) >= vs.len() {
        if positions_distinct(vs) {
            assert forall|a: int, b: int| 0 <= a < b < d.0.len()
                implies (#[trigger] d.0[a]).position != (#[trigger] d.0[b]).position by {
                if b == d.0.len() - 1 {
                    assert(d.0[a] == vs[a]);
                }
            }
        }
    }
}

/// Returns the index of the vertex with this position, inserting the given
/// vertex if the position is new. Deduplication is keyed by the position
/// alone: a vertex with the same position but different normal or texture
/// coordinates reuses the existing one.
pub fn get_or_insert_vertex(vs: &mut Vec<Vertex>, v: Vertex) -> (idx: usize)
    requires
        old(vs)@.len() < 0x4000_0000,
        forall|i: int| 0 <= i < old(vs)@.len() ==> vertex_wf(#[trigger] old(vs)@[i]),
        vertex_wf(v),
    ensures
        final(vs)@ == dedup_insert_s(old(vs)@, v).0,
        idx as int == dedup_insert_s(old(vs)@, v).1,
        idx < final(vs)@.len(),
        final(vs)@[idx as int].position == v.position,
{
    proof {
        lemma_dedup_insert(old(vs)@, v);
    }
    let n = vs.len();
    let mut i: usize = 0;
    while i < n
        invariant
            n == vs@.len(),
            0 <= i <= n,
            vs@ == old(vs)@,
            vertex_wf(v),
            forall|j: int| 0 <= j < i ==> (#[trigger] vs@[j]).position != v.position,
        decreases n - i,
    {
        if vs[i].position == v.position {
            proof {
                lemma_find_pos(vs@, v.position);
                let f = find_pos(vs@, v.position);
                if f < i {
                    assert(vs@[f].position != v.position);
                }
                if f > i {
                    assert(vs@[i as int].position != v.position);
                }
            }
            return i;
        }
        i = i + 1;
    }
    proof {
        lemma_find_pos(vs@, v.position);
        let f = find_pos(vs@, v.position);
        if f < vs@.len() {
            assert(vs@[f].position != v.position);
        }
    }
    vs.push(v);
    n
}

/// `v` is a corner, or the midpoint of an edge, of triangle `t` of the
/// input triangle list.
pub open spec fn triangle_source(vertices: Seq<Vertex>, indices: Seq<u32>, t: int,
    v: Vertex) -> bool {
    let a = vertices[indices[3 * t] as int];
    let b = vertices[indices[3 * t + 1] as int];
    let c = vertices[indices[3 * t + 2] as int];
    ||| v == a
    ||| v == b
    ||| v == c
    ||| v == mid_vertex_s(a, b)
    ||| v == mid_vertex_s(b, c)
    ||| v == mid_vertex_s(c, a)
}

/// `v` is a corner or an edge midpoint of some input triangle.
pub open spec fn from_some_triangle(vertices: Seq<Vertex>, indices: Seq<u32>,
    v: Vertex) -> bool {
    exists|t: int| 0 <= t < indices.len() / 3
        && #[trigger] triangle_source(vertices, indices, t, v)
}

/// Every vertex of `new_vs` is a corner or an edge midpoint of some input
/// triangle.
pub open spec fn all_from_triangles(vertices: Seq<Vertex>, indices: Seq<u32>,
    new_vs: Seq<Vertex>) -> bool {
    forall|k: int| 0 <= k < new_vs.len()
        ==> from_some_triangle(vertices, indices, #[trigger] new_vs[k])
}

/// Some index entry references vertex `vi`.
pub open spec fn index_used(is: Seq<u32>, vi: int) -> bool {
    exists|j: int| 0 <= j < is.len() && is[j] == vi
}

/// Every vertex is referenced by at least one index — no orphans.
pub open spec fn no_orphans(vs: Seq<Vertex>, is: Seq<u32>) -> bool {
    forall|vi: int| 0 <= vi < vs.len() ==> #[trigger] index_used(is, vi)
}

/// All vertex positions lie within the axis-aligned box `[lo, hi]`.
pub open spec fn vertices_in_box(vs: Seq<Vertex>, lo: crate::linalg::V3,
    hi: crate::linalg::V3) -> bool {
    forall|k: int| 0 <= k < vs.len() ==> {
        &&& lo.x <= (#[trigger] vs[k]).position.x <= hi.x
        &&& lo.y <= vs[k].position.y <= hi.y
        &&& lo.z <= vs[k].position.z <= hi.z
    }
}

/// The state after subdividing the first `t` triangles (spec): for each
/// triangle, its three corners and three edge midpoints are inserted with
/// deduplication by position, and the twelve indices of its four
/// sub-triangles are appended.
pub open spec fn subdivide_prefix_s(vertices: Seq<Vertex>, indices: Seq<u32>, t: int)
    -> (Seq<Vertex>, Seq<u32>)
    decreases t,
{
    if t <= 0 {
        (Seq::empty(), Seq::empty())
    } else {
        let prev = subdivide_prefix_s(vertices, indices, t - 1);
        let v1 = vertices[indices[3 * (t - 1)] as int];
        let v2 = vertices[indices[3 * (t - 1) + 1] as int];
        let v3 = vertices[indices[3 * (t - 1) + 2] as int];
        let s1 = dedup_insert_s(prev.0, v1);
        let s2 = dedup_insert_s(s1.0, v2);
        let s3 = dedup_insert_s(s2.0, v3);
        let s4 = dedup_insert_s(s3.0, mid_vertex_s(v1, v2));
        let s5 = dedup_insert_s(s4.0, mid_vertex_s(v2, v3));
        let s6 = dedup_insert_s(s5.0, mid_vertex_s(v3, v1));
        (s6.0, prev.1 + seq![
            s1.1 as u32, s4.1 as u32, s6.1 as u32,
            s2.1 as u32, s5.1 as u32, s4.1 as u32,
            s3.1 as u32, s6.1 as u32, s5.1 as u32,
            s4.1 as u32, s5.1 as u32, s6.1 as u32,
        ])
    }
}

/// The result of one whole subdivision pass (spec).
pub open spec fn subdivide_once_s(vertices: Seq<Vertex>, indices: Seq<u32>)
    -> (Seq<Vertex>, Seq<u32>) {
    subdivide_prefix_s(vertices, indices, indices.len() as int / 3)
}

/// A step that either keeps a vertex list or appends one vertex keeps all
/// earlier entries and adds at most `v`.
proof fn lemma_push_keeps(p: Seq<Vertex>, q: Seq<Vertex>, v: Vertex)
    requires
        q == p || q == p.push(v),
    ensures
        p.len() <= q.len() <= p.len() + 1,
        forall|k: int| 0 <= k < q.len()
            ==> (#[trigger] q[k]) == v || (0 <= k < p.len() && q[k] == p[k]),
{
}

/// One pass on a single triangle whose corners and edge midpoints occupy
/// six distinct positions yields exactly those six vertices — three
/// corners then three midpoints — and the twelve indices of its four
/// sub-triangles; this is forced by the pass specification alone.
pub proof fn lemma_one_pass_single_triangle(v1: Vertex, v2: Vertex, v3: Vertex)
    requires
        vertex_wf(v1),
        vertex_wf(v2),
        vertex_wf(v3),
        positions_distinct(seq![v1, v2, v3,
            mid_vertex_s(v1, v2), mid_vertex_s(v2, v3), mid_vertex_s(v3, v1)]),
    ensures
        ({
            let r = subdivide_once_s(seq![v1, v2, v3], seq![0u32, 1u32, 2u32]);
            &&& r.0 == seq![v1, v2, v3,
                mid_vertex_s(v1, v2), mid_vertex_s(v2, v3), mid_vertex_s(v3, v1)]
            &&& r.0.len() == 6
            &&& r.1 == seq![0u32, 3u32, 5u32, 1u32, 4u32, 3u32,
                2u32, 5u32, 4u32, 3u32, 4u32, 5u32]
        }),
{
    let vs = seq![v1, v2, v3];
    let is: Seq<u32> = seq![0u32, 1u32, 2u32];
    let m12 = mid_vertex_s(v1, v2);
    let m23 = mid_vertex_s(v2, v3);
    let m31 = mid_vertex_s(v3, v1);
    let six = seq![v1, v2, v3, m12, m23, m31];
    assert(is.len() as int / 3 == 1) by {
        vstd::arithmetic::div_mod::lemma_div_multiples_vanish(1, 3);
    }
    let prev = subdivide_prefix_s(vs, is, 0);
    assert(prev.0 =~= six.take(0));
    assert(prev.1 =~= Seq::<u32>::empty());
    lemma_fresh_insert(prev.0, six, 0);
    let s1 = dedup_insert_s(prev.0, v1);
    assert(s1.0 =~= six.take(1));
    lemma_fresh_insert(s1.0, six, 1);
    let s2 = dedup_insert_s(s1.0, v2);
    assert(s2.0 =~= six.take(2));
    lemma_fresh_insert(s2.0, six, 2);
    let s3 = dedup_insert_s(s2.0, v3);
    assert(s3.0 =~= six.take(3));
    lemma_fresh_insert(s3.0, six, 3);
    let s4 = dedup_insert_s(s3.0, m12);
    assert(s4.0 =~= six.take(4));
    lemma_fresh_insert(s4.0, six, 4);
    let s5 = dedup_insert_s(s4.0, m23);
    assert(s5.0 =~= six.take(5));
    lemma_fresh_insert(s5.0, six, 5);
    let s6 = dedup_insert_s(s5.0, m31);
    assert(s6.0 =~= six);
    let r = subdivide_once_s(vs, is);
    assert(r.0 == s6.0 && r.1 == prev.1 + seq![
        s1.1 as u32, s4.1 as u32, s6.1 as u32,
        s2.1 as u32, s5.1 as u32, s4.1 as u32,
        s3.1 as u32, s6.1 as u32, s5.1 as u32,
        s4.1 as u32, s5.1 as u32, s6.1 as u32,
    ]);
    assert(r.1 =~= seq![0u32, 3u32, 5u32, 1u32, 4u32, 3u32,
        2u32, 5u32, 4u32, 3u32, 4u32, 5u32]);
}

/// Inserting the `k`-th of a list of position-distinct vertices into the
/// first `k` of them finds no match and appends it.
proof fn lemma_fresh_insert(cur: Seq<Vertex>, six: Seq<Vertex>, k: int)
    requires
        positions_distinct(six),
        0 <= k < six.len(),
        cur == six.take(k),
    ensures
        dedup_insert_s(cur, six[k]) == (six.take(k + 1), k),
{
    lemma_find_pos(cur, six[k].position);
    let f = find_pos(cur, six[k].position);
    if f < cur.len() {
        assert(cur[f] == six[f]);
        assert(six[f].position != six[k].position);
    }
    assert(six.take(k + 1) =~= six.take(k).push(six[k]));
}

/// Everything one proved pass guarantees, by induction over the processed
/// prefix: sizes, index validity, well-formed and position-distinct
/// vertices, per-triangle provenance, and no orphan vertices.
#[verifier::rlimit(100)]
#[verifier::spinoff_prover]
pub proof fn lemma_subdivide_prefix_props(vertices: Seq<Vertex>, indices: Seq<u32>, t: int)
    requires
        mesh_wf(vertices, indices),
        indices.len() <= 0x800_0000,
        0 <= t <= indices.len() / 3,
    ensures
        ({
            let p = subdivide_prefix_s(vertices, indices, t);
            &&& p.1.len() == 12 * t
            &&& p.0.len() <= 6 * t
            &&& forall|k: int| 0 <= k < p.1.len() ==> (#[trigger] p.1[k]) < p.0.len()
            &&& forall|i: int| 0 <= i < p.0.len() ==> vertex_wf(#[trigger] p.0[i])
            &&& positions_distinct(p.0)
            &&& all_midpoints_of(vertices, p.0)
            &&& all_from_triangles(vertices, indices, p.0)
            &&& no_orphans(p.0, p.1)
        }),
    decreases t,
{
    vstd::arithmetic::div_mod::lemma_fundamental_div_mod(indices.len() as int, 3);
    if t > 0 {
        lemma_subdivide_prefix_props(vertices, indices, t - 1);
        let prev = subdivide_prefix_s(vertices, indices, t - 1);
        assert(3 * (t - 1) + 2 < indices.len()) by (nonlinear_arith)
            requires
                1 <= t <= indices.len() / 3,
                indices.len() == 3 * (indices.len() / 3) + indices.len() % 3,
                indices.len() % 3 == 0,
        {}
        let v1 = vertices[indices[3 * (t - 1)] as int];
        let v2 = vertices[indices[3 * (t - 1) + 1] as int];
        let v3 = vertices[indices[3 * (t - 1) + 2] as int];
        let ma = mid_vertex_s(v1, v2);
        let mb = mid_vertex_s(v2, v3);
        let mc = mid_vertex_s(v3, v1);
        lemma_mid_vertex(v1, v2);
        lemma_mid_vertex(v2, v3);
        lemma_mid_vertex(v3, v1);
        lemma_mid_self(v1);
        lemma_mid_self(v2);
        lemma_mid_self(v3);
        let s1 = dedup_insert_s(prev.0, v1);
        let s2 = dedup_insert_s(s1.0, v2);
        let s3 = dedup_insert_s(s2.0, v3);
        let s4 = dedup_insert_s(s3.0, ma);
        let s5 = dedup_insert_s(s4.0, mb);
        let s6 = dedup_insert_s(s5.0, mc);
        lemma_dedup_insert(prev.0, v1);
        lemma_dedup_insert(s1.0, v2);
        lemma_dedup_insert(s2.0, v3);
        lemma_dedup_insert(s3.0, ma);
        lemma_dedup_insert(s4.0, mb);
        lemma_dedup_insert(s5.0, mc);
        lemma_push_keeps(prev.0, s1.0, v1);
        lemma_push_keeps(s1.0, s2.0, v2);
        lemma_push_keeps(s2.0, s3.0, v3);
        lemma_push_keeps(s3.0, s4.0, ma);
        lemma_push_keeps(s4.0, s5.0, mb);
        lemma_push_keeps(s5.0, s6.0, mc);
        let p = subdivide_prefix_s(vertices, indices, t);
        assert(p.0 == s6.0);
        assert(p.1.len() == 12 * t);
        // Provenance: an output vertex is carried from the previous prefix
        // or is one of this triangle's six sources.
        assert forall|k: int| 0 <= k < p.0.len()
            implies midpoint_of_some(vertices, #[trigger] p.0[k]) by {
            assert(p.0[k] == v1 || p.0[k] == v2 || p.0[k] == v3
                || p.0[k] == ma || p.0[k] == mb || p.0[k] == mc
                || (0 <= k < prev.0.len() && p.0[k] == prev.0[k]));
            if 0 <= k < prev.0.len() && p.0[k] == prev.0[k] {
                assert(midpoint_of_some(vertices, prev.0[k]));
            } else {
                let i1 = indices[3 * (t - 1)] as int;
                let i2 = indices[3 * (t - 1) + 1] as int;
                let i3 = indices[3 * (t - 1) + 2] as int;
                if p.0[k] == v1 {
                    assert(is_mid(p.0[k], vertices[i1], vertices[i1]));
                } else if p.0[k] == v2 {
                    assert(is_mid(p.0[k], vertices[i2], vertices[i2]));
                } else if p.0[k] == v3 {
                    assert(is_mid(p.0[k], vertices[i3], vertices[i3]));
                } else if p.0[k] == ma {
                    assert(is_mid(p.0[k], vertices[i1], vertices[i2]));
                } else if p.0[k] == mb {
                    assert(is_mid(p.0[k], vertices[i2], vertices[i3]));
                } else {
                    assert(is_mid(p.0[k], vertices[i3], vertices[i1]));
                }
            }
        }
        assert forall|k: int| 0 <= k < p.0.len()
            implies from_some_triangle(vertices, indices, #[trigger] p.0[k]) by {
            assert(p.0[k] == v1 || p.0[k] == v2 || p.0[k] == v3
                || p.0[k] == ma || p.0[k] == mb || p.0[k] == mc
                || (0 <= k < prev.0.len() && p.0[k] == prev.0[k]));
            if 0 <= k < prev.0.len() && p.0[k] == prev.0[k] {
                assert(from_some_triangle(vertices, indices, prev.0[k]));
            } else {
                assert(triangle_source(vertices, indices, t - 1, p.0[k]));
            }
        }
        // No orphans: carried vertices keep their old index entry; a newly
        // appended vertex is the result index of the insertion that created
        // it, and all six result indices are appended.
        let base = prev.1.len() as int;
        assert forall|vi: int| 0 <= vi < p.0.len() implies #[trigger] index_used(p.1, vi) by {
            if vi < prev.0.len() {
                assert(index_used(prev.1, vi));
                let j = choose|j: int| 0 <= j < prev.1.len() && prev.1[j] == vi;
                assert(p.1[j] == vi);
            } else {
                assert(p.1[base + 0] == s1.1 as u32);
                assert(p.1[base + 3] == s2.1 as u32);
                assert(p.1[base + 6] == s3.1 as u32);
                assert(p.1[base + 1] == s4.1 as u32);
                assert(p.1[base + 4] == s5.1 as u32);
                assert(p.1[base + 2] == s6.1 as u32);
                if vi < s1.0.len() {
                    assert(s1.1 == vi);
                    assert(p.1[base + 0] == vi);
                } else if vi < s2.0.len() {
                    assert(s2.1 == vi);
                    assert(p.1[base + 3] == vi);
                } else if vi < s3.0.len() {
                    assert(s3.1 == vi);
                    assert(p.1[base + 6] == vi);
                } else if vi < s4.0.len() {
                    assert(s4.1 == vi);
                    assert(p.1[base + 1] == vi);
                } else if vi < s5.0.len() {
                    assert(s5.1 == vi);
                    assert(p.1[base + 4] == vi);
                } else {
                    assert(s6.1 == vi);
                    assert(p.1[base + 2] == vi);
                }
            }
        }
    }
}

/// One pass of midpoint subdivision: every triangle becomes four, using
/// its three corners and its three edge midpoints, with vertices shared by
/// position across the whole output. The result is exactly the spec-level
/// pass `subdivide_once_s`; the remaining clauses are its consequences.
#[verifier::rlimit(100)]
#[verifier::spinoff_prover]
pub fn subdivide_once(vertices: &Vec<Vertex>, indices: &Vec<u32>) -> (r: (Vec<Vertex>, Vec<u32>))
    requires
        mesh_wf(vertices@, indices@),
        indices@.len() <= 0x800_0000,
    ensures
        r.0@ == subdivide_once_s(vertices@, indices@).0,
        r.1@ == subdivide_once_s(vertices@, indices@).1,
        mesh_wf(r.0@, r.1@),
        r.1@.len() == 4 * indices@.len(),
        r.0@.len() <= 2 * indices@.len(),
        positions_distinct(r.0@),
        all_midpoints_of(vertices@, r.0@),
        all_from_triangles(vertices@, indices@, r.0@),
        no_orphans(r.0@, r.1@),
{
    let tri_count = indices.len() / 3;
    let mut nv: Vec<Vertex> = Vec::new();
    let mut ni: Vec<u32> = Vec::new();
    let mut t: usize = 0;
    while t < tri_count
        invariant
            tri_count == indices@.len() / 3,
            indices@.len() % 3 == 0,
            indices@.len() <= 0x800_0000,
            mesh_wf(vertices@, indices@),
            0 <= t <= tri_count,
            nv@ == subdivide_prefix_s(vertices@, indices@, t as int).0,
            ni@ == subdivide_prefix_s(vertices@, indices@, t as int).1,
        decreases tri_count - t,
    {
        proof {
            assert(3 * (t as int) + 2 < indices@.len()) by (nonlinear_arith)
                requires
                    t < tri_count,
                    tri_count == indices@.len() / 3,
                    indices@.len() % 3 == 0,
                    indices@.len() >= 0,
            {
                vstd::arithmetic::div_mod::lemma_fundamental_div_mod(indices@.len() as int, 3);
            }
            lemma_subdivide_prefix_props(vertices@, indices@, t as int);
        }
        let i1 = indices[3 * t] as usize;
        let i2 = indices[3 * t + 1] as usize;
        let i3 = indices[3 * t + 2] as usize;
        let v1 = vertices[i1];
        let v2 = vertices[i2];
        let v3 = vertices[i3];
        let ghost s_ni = ni@;
        let n1 = get_or_insert_vertex(&mut nv, v1);
        let n2 = get_or_insert_vertex(&mut nv, v2);
        let n3 = get_or_insert_vertex(&mut nv, v3);
        let ma = midpoint_vertex(&v1, &v2);
        let mb = midpoint_vertex(&v2, &v3);
        let mc = midpoint_vertex(&v3, &v1);
        let na = get_or_insert_vertex(&mut nv, ma);
        let nb = get_or_insert_vertex(&mut nv, mb);
        let nc = get_or_insert_vertex(&mut nv, mc);
        ni.push(n1 as u32);
        ni.push(na as u32);
        ni.push(nc as u32);
        ni.push(n2 as u32);
        ni.push(nb as u32);
        ni.push(na as u32);
        ni.push(n3 as u32);
        ni.push(nc as u32);
        ni.push(nb as u32);
        ni.push(na as u32);
        ni.push(nb as u32);
        ni.push(nc as u32);
        proof {
            let p = subdivide_prefix_s(vertices@, indices@, t + 1int);
            assert(ni@ =~= s_ni + seq![
                n1 as u32, na as u32, nc as u32,
                n2 as u32, nb as u32, na as u32,
                n3 as u32, nc as u32, nb as u32,
                na as u32, nb as u32, nc as u32,
            ]);
            assert(nv@ == p.0 && ni@ == p.1);
        }
        t = t + 1;
    }
    proof {
        lemma_subdivide_prefix_props(vertices@, indices@, tri_count as int);
        assert(12 * (tri_count as int) == 4 * indices@.len()
            && 6 * (tri_count as int) == 2 * indices@.len()) by (nonlinear_arith)
            requires
                tri_count == indices@.len() / 3,
                indices@.len() % 3 == 0,
                indices@.len() >= 0,
        {
            vstd::arithmetic::div_mod::lemma_fundamental_div_mod(indices@.len() as int, 3);
        }
        assert(ni@.len() % 3 == 0) by (nonlinear_arith)
            requires ni@.len() == 4 * indices@.len(), indices@.len() % 3 == 0,
        {
            vstd::arithmetic::div_mod::lemma_fundamental_div_mod(indices@.len() as int, 3);
        }
    }
    (nv, ni)
}

/// `4^n`, the triangle growth factor of `n` subdivision passes.
pub open spec fn pow4(n: int) -> int
    decreases n,
{
    if n <= 0 {
        1
    } else {
        4 * pow4(n - 1)
    }
}

/// The result of `n` subdivision passes (spec); zero passes leave the data
/// untouched.
pub open spec fn subdivide_iter_s(vertices: Seq<Vertex>, indices: Seq<u32>, n: int)
    -> (Seq<Vertex>, Seq<u32>)
    decreases n,
{
    if n <= 0 {
        (vertices, indices)
    } else {
        let prev = subdivide_iter_s(vertices, indices, n - 1);
        subdivide_once_s(prev.0, prev.1)
    }
}

impl Mesh {
    /// Applies `n` passes of midpoint subdivision. The triangle count
    /// multiplies by exactly 4 per pass; vertices are deduplicated by
    /// position within each pass. The GPU handles are reset to zero: the
    /// old buffers are stale, and the host re-uploads the refined data.
    pub fn subdivide(&mut self, n: u32)
        requires
            old(self).wf(),
            old(self).indices@.len() <= 0x2_0000,
            n <= 5,
        ensures
            final(self).wf(),
            final(self).vertices@
                == subdivide_iter_s(old(self).vertices@, old(self).indices@, n as int).0,
            final(self).indices@
                == subdivide_iter_s(old(self).vertices@, old(self).indices@, n as int).1,
            final(self).indices@.len() == old(self).indices@.len() * pow4(n as int),
            n == 0 ==> final(self).vertices@ == old(self).vertices@
                && final(self).indices@ == old(self).indices@,
            n >= 1 ==> positions_distinct(final(self).vertices@),
            n >= 1 ==> final(self).vertices@.len() <= 2 * final(self).indices@.len(),
            n >= 1 ==> no_orphans(final(self).vertices@, final(self).indices@),
            forall|lo: crate::linalg::V3, hi: crate::linalg::V3|
                vertices_in_box(old(self).vertices@, lo, hi)
                ==> #[trigger] vertices_in_box(final(self).vertices@, lo, hi),
            final(self).materials@ == old(self).materials@,
            final(self).gpu == (GpuHandles { vao: 0, vbo: 0, ebo: 0 }),
    {
        let mut k: u32 = 0;
        let ghost olen = old(self).indices@.len() as int;
        proof {
            lemma_pow4_le_1024(n as int);
        }
        while k < n
            invariant
                k <= n <= 5,
                olen == old(self).indices@.len(),
                0 <= olen <= 0x2_0000,
                mesh_wf(self.vertices@, self.indices@),
                self.vertices@
                    == subdivide_iter_s(old(self).vertices@, old(self).indices@, k as int).0,
                self.indices@
                    == subdivide_iter_s(old(self).vertices@, old(self).indices@, k as int).1,
                self.indices@.len() == old(self).indices@.len() * pow4(k as int),
                k >= 1 ==> positions_distinct(self.vertices@),
                k >= 1 ==> self.vertices@.len() <= 2 * self.indices@.len(),
                k >= 1 ==> no_orphans(self.vertices@, self.indices@),
                forall|lo: crate::linalg::V3, hi: crate::linalg::V3|
                    vertices_in_box(old(self).vertices@, lo, hi)
                    ==> #[trigger] vertices_in_box(self.vertices@, lo, hi),
                self.materials@ == old(self).materials@,
            decreases n - k,
        {
            proof {
                lemma_pow4_le_1024(k as int);
                assert(olen * pow4(k as int) <= 0x2_0000 * 1024)
                    by (nonlinear_arith)
                    requires
                        0 <= olen <= 0x2_0000,
                        1 <= pow4(k as int) <= 1024,
                {}
            }
            let ghost before = self.vertices@;
            let pair = subdivide_once(&self.vertices, &self.indices);
            proof {
                assert(4 * (olen * pow4(k as int))
                    == olen * pow4(k + 1int)) by (nonlinear_arith)
                    requires pow4(k + 1int) == 4 * pow4(k as int),
                {}
                assert forall|lo: crate::linalg::V3, hi: crate::linalg::V3|
                    vertices_in_box(old(self).vertices@, lo, hi)
                    implies #[trigger] vertices_in_box(pair.0@, lo, hi) by {
                    if vertices_in_box(old(self).vertices@, lo, hi) {
                        lemma_subdivision_in_box(before, pair.0@, lo, hi);
                    }
                }
            }
            self.vertices = pair.0;
            self.indices = pair.1;
            k = k + 1;
        }
        self.gpu = GpuHandles { vao: 0, vbo: 0, ebo: 0 };
    }
}

/// `4^n` is at least 1.
proof fn lemma_pow4_pos(n: int)
    ensures
        pow4(n) >= 1,
    decreases (if n >= 0 { n } else { 0 }),
{
    if n > 0 {
        lemma_pow4_pos(n - 1);
    }
}

/// `4^n` is monotone in `n`.
proof fn lemma_pow4_mono(a: int, b: int)
    requires
        a <= b,
    ensures
        pow4(a) <= pow4(b),
    decreases b - a,
{
    if a < b {
        lemma_pow4_mono(a, b - 1);
        lemma_pow4_pos(b - 1);
    }
}

/// `4^n <= 1024` for at most five passes, and `4^n >= 1` always.
proof fn lemma_pow4_le_1024(n: int)
    requires
        n <= 5,
    ensures
        1 <= pow4(n) <= 1024,
{
    lemma_pow4_pos(n);
    lemma_pow4_mono(n, 5);
    assert(pow4(0) == 1);
    assert(pow4(1) == 4);
    assert(pow4(2) == 16);
    assert(pow4(3) == 64);
    assert(pow4(4) == 256);
    assert(pow4(5) == 1024);
}

/// A position component interval is preserved by subdivision: if every
/// input vertex lies in the axis-aligned box, so does every output vertex
/// (each output vertex is a midpoint of two inputs, or an input itself).
pub proof fn lemma_subdivision_in_box(
    old_vs: Seq<Vertex>, new_vs: Seq<Vertex>, lo: crate::linalg::V3, hi: crate::linalg::V3)
    requires
        vertices_in_box(old_vs, lo, hi),
        all_midpoints_of(old_vs, new_vs),
    ensures
        vertices_in_box(new_vs, lo, hi),
{
    assert forall|k: int| 0 <= k < new_vs.len() implies {
        &&& lo.x <= (#[trigger] new_vs[k]).position.x <= hi.x
        &&& lo.y <= new_vs[k].position.y <= hi.y
        &&& lo.z <= new_vs[k].position.z <= hi.z
    } by {
        assert(midpoint_of_some(old_vs, new_vs[k]));
        let (i, j) = choose|i: int, j: int|
            0 <= i < old_vs.len() && 0 <= j < old_vs.len()
            && is_mid(new_vs[k], old_vs[i], old_vs[j]);
        lemma_mid_in_interval(old_vs[i].position.x as int, old_vs[j].position.x as int,
            lo.x, hi.x);
        lemma_mid_in_interval(old_vs[i].position.y as int, old_vs[j].position.y as int,
            lo.y, hi.y);
        lemma_mid_in_interval(old_vs[i].position.z as int, old_vs[j].position.z as int,
            lo.z, hi.z);
    }
}


/// Executable check of a single vertex's coordinate bounds, equal to
/// `vertex_wf`.
pub fn vertex_checks(v: &Vertex) -> (r: bool)
    ensures
        r == vertex_wf(*v),
{
    -COORD_LIMIT <= v.position.x && v.position.x <= COORD_LIMIT
        && -COORD_LIMIT <= v.position.y && v.position.y <= COORD_LIMIT
        && -COORD_LIMIT <= v.position.z && v.position.z <= COORD_LIMIT
        && -COORD_LIMIT <= v.normal.x && v.normal.x <= COORD_LIMIT
        && -COORD_LIMIT <= v.normal.y && v.normal.y <= COORD_LIMIT
        && -COORD_LIMIT <= v.normal.z && v.normal.z <= COORD_LIMIT
        && -COORD_LIMIT <= v.tex_coords.x && v.tex_coords.x <= COORD_LIMIT
        && -COORD_LIMIT <= v.tex_coords.y && v.tex_coords.y <= COORD_LIMIT
}

/// Executable check of the mesh well-formedness caller contract, for hosts
/// that assemble meshes from untrusted asset data; equal to `mesh_wf`.
pub fn mesh_checks(vertices: &Vec<Vertex>, indices: &Vec<u32>) -> (r: bool)
    ensures
        r == mesh_wf(vertices@, indices@),
{
    let vn = vertices.len();
    let n = indices.len();
    if vn > 0x4000_0000 || n > 0x4000_0000 || n % 3 != 0 {
        return false;
    }
    let mut k: usize = 0;
    while k < n
        invariant
            n == indices@.len(),
            vn == vertices@.len(),
            0 <= k <= n,
            forall|j: int| 0 <= j < k ==> (#[trigger] indices@[j]) < vertices@.len(),
        decreases n - k,
    {
        if indices[k] as usize >= vn {
            return false;
        }
        k = k + 1;
    }
    let mut i: usize = 0;
    while i < vn
        invariant
            n == indices@.len(),
            vn == vertices@.len(),
            0 <= i <= vn,
            forall|j: int| 0 <= j < i ==> vertex_wf(#[trigger] vertices@[j]),
        decreases vn - i,
    {
        if !vertex_checks(&vertices[i]) {
            return false;
        }
        i = i + 1;
    }
    true
}

} // verus!
