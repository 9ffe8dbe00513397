//! A model: a collection of meshes with a path-keyed texture cache.
//!
//! File parsing, image file reading and GPU uploads are I/O and stay with
//! the host: it parses the asset file, hands the interleaved attribute
//! arrays to `build_vertices`, asks the cache before loading a texture
//! image, decodes the image bytes through `decode_texture`, uploads the
//! pixels, and registers the resulting GPU handle under the texture's path.
//! The cache invariant — no two entries share a path — makes every handle
//! enter the cache exactly once, so the host can release each exactly once.

use vstd::prelude::*;
use crate::linalg::{V3, V2, Vec3Fx, Vec2Fx};
use crate::mesh::{
    Vertex, Material, MaterialType, Mesh, DrawPlan, GpuHandles,
    mat_eq_s, vertex_wf, plan_matches, positions_distinct, pow4, subdivide_iter_s,
};

verus! {

/// The character sequence of a texture entry's path.
pub open spec fn tex_path(m: Material) -> Seq<char> {
    match m {
        Material::Texture { id: _, path, type_: _ } => path@,
        Material::Property { .. } => Seq::empty(),
    }
}

/// The GPU handle of a texture entry.
pub open spec fn tex_id(m: Material) -> u32 {
    match m {
        Material::Texture { id, path: _, type_: _ } => id,
        Material::Property { .. } => 0u32,
    }
}

/// The material kind of an entry.
pub open spec fn tex_kind(m: Material) -> MaterialType {
    match m {
        Material::Texture { id: _, path: _, type_ } => type_,
        Material::Property { value: _, type_ } => type_,
    }
}

/// The texture cache invariant: every entry is a texture, and no two
/// entries were loaded from the same path.
pub open spec fn cache_wf(cache: Seq<Material>) -> bool {
    &&& forall|i: int| 0 <= i < cache.len() ==> (#[trigger] cache[i]) is Texture
    &&& forall|i: int, j: int| 0 <= i < j < cache.len()
        ==> tex_path(#[trigger] cache[i]) != tex_path(#[trigger] cache[j])
}

/// Two cache entries with the same path are the same entry — each texture
/// handle has exactly one owner in the cache.
pub proof fn lemma_texture_cache_dedup(cache: Seq<Material>, i: int, j: int)
    requires
        cache_wf(cache),
        0 <= i < cache.len(),
        0 <= j < cache.len(),
        tex_path(cache[i]) == tex_path(cache[j]),
    ensures
        i == j,
{
}

/// A 3D model: its meshes, the deduplicated texture cache, and the source
/// file's parent directory (for resolving relative texture paths; path
/// arithmetic is the host's).
pub struct Model {
    pub meshes: Vec<Mesh>,
    pub textures_loaded: Vec<Material>,
    pub directory: String,
}

impl Model {
    /// Well-formedness: the cache invariant, and every mesh well-formed.
    pub open spec fn wf(&self) -> bool {
        &&& cache_wf(self.textures_loaded@)
        &&& forall|i: int| 0 <= i < self.meshes@.len() ==> (#[trigger] self.meshes@[i]).wf()
    }

    /// An empty model.
    pub fn new() -> (m: Model)
        ensures
            m.wf(),
            m.meshes@.len() == 0,
            m.textures_loaded@.len() == 0,
            m.directory@.len() == 0,
    {
        Model { meshes: Vec::new(), textures_loaded: Vec::new(), directory: String::new() }
    }

    /// Looks the texture cache up by path: a hit returns a copy of the
    /// cached entry (sharing the GPU handle, not re-uploading), a miss
    /// means no cache entry was loaded from this path.
    pub fn cached_texture(&self, path: &str) -> (r: Option<Material>)
        requires
            self.wf(),
        ensures
            match r {
                Some(m) => {
                    &&& m is Texture
                    &&& tex_path(m) == path@
                    &&& exists|i: int| 0 <= i < self.textures_loaded@.len()
                        && mat_eq_s(m, #[trigger] self.textures_loaded@[i])
                },
                None => forall|i: int| 0 <= i < self.textures_loaded@.len()
                    ==> tex_path(#[trigger] self.textures_loaded@[i]) != path@,
            },
    {
        let n = self.textures_loaded.len();
        let mut i: usize = 0;
        while i < n
            invariant
                n == self.textures_loaded@.len(),
                0 <= i <= n,
                self.wf(),
                forall|j: int| 0 <= j < i
                    ==> tex_path(#[trigger] self.textures_loaded@[j]) != path@,
            decreases n - i,
        {
            if self.textures_loaded[i].is_path_eq(path) {
                let m = self.textures_loaded[i].duplicate();
                return Some(m);
            }
            i = i + 1;
        }
        None
    }

    /// Registers a freshly uploaded texture under its source path. The path
    /// must not be cached yet (ask `cached_texture` first); the cache then
    /// owns the handle, and meshes hold value copies of the entry.
    pub fn register_texture(&mut self, path: &str, type_: MaterialType, id: u32)
        -> (r: Material)
        requires
            old(self).wf(),
            old(self).textures_loaded@.len() < 0x1000_0000,
            forall|i: int| 0 <= i < old(self).textures_loaded@.len()
                ==> tex_path(#[trigger] old(self).textures_loaded@[i]) != path@,
        ensures
            final(self).wf(),
            final(self).textures_loaded@.len() == old(self).textures_loaded@.len() + 1,
            forall|i: int| 0 <= i < old(self).textures_loaded@.len()
                ==> #[trigger] final(self).textures_loaded@[i]
                    == old(self).textures_loaded@[i],
            ({
                let last = final(self).textures_loaded@.last();
                &&& last is Texture
                &&& tex_path(last) == path@
                &&& tex_id(last) == id
                &&& tex_kind(last) == type_
                &&& mat_eq_s(r, last)
                &&& r is Texture
            }),
            final(self).meshes@ == old(self).meshes@,
            final(self).directory == old(self).directory,
    {
        let m = Material::Texture { id: id, path: path.to_owned(), type_: type_ };
        let r = m.duplicate();
        self.textures_loaded.push(m);
        proof {
            let c = self.textures_loaded@;
            assert forall|i: int, j: int| 0 <= i < j < c.len()
                implies tex_path(#[trigger] c[i]) != tex_path(#[trigger] c[j]) by {
                if j == c.len() - 1 {
                    assert(c[i] == old(self).textures_loaded@[i]);
                }
            }
        }
        r
    }

    /// Appends a fully built mesh.
    pub fn add_mesh(&mut self, mesh: Mesh)
        requires
            old(self).wf(),
            mesh.wf(),
        ensures
            final(self).wf(),
            final(self).meshes@.len() == old(self).meshes@.len() + 1,
            forall|i: int| 0 <= i < old(self).meshes@.len()
                ==> #[trigger] final(self).meshes@[i] == old(self).meshes@[i],
            final(self).meshes@.last() == mesh,
            final(self).textures_loaded@ == old(self).textures_loaded@,
            final(self).directory == old(self).directory,
    {
        self.meshes.push(mesh);
    }

    /// Computes the draw plan of every mesh, in order; the host executes
    /// the plans against an already activated shader program.
    pub fn draw(&self) -> (plans: Vec<DrawPlan>)
        requires
            self.wf(),
        ensures
            plans@.len() == self.meshes@.len(),
            forall|i: int| 0 <= i < plans@.len() ==> plan_matches(
                #[trigger] plans@[i],
                self.meshes@[i].vertices@,
                self.meshes@[i].indices@,
                self.meshes@[i].materials@,
                self.meshes@[i].gpu,
            ),
    {
        let n = self.meshes.len();
        let mut plans: Vec<DrawPlan> = Vec::new();
        let mut i: usize = 0;
        while i < n
            invariant
                n == self.meshes@.len(),
                0 <= i <= n,
                self.wf(),
                plans@.len() == i,
                forall|k: int| 0 <= k < i ==> plan_matches(
                    #[trigger] plans@[k],
                    self.meshes@[k].vertices@,
                    self.meshes@[k].indices@,
                    self.meshes@[k].materials@,
                    self.meshes@[k].gpu,
                ),
            decreases n - i,
        {
            let p = self.meshes[i].draw();
            plans.push(p);
            i = i + 1;
        }
        plans
    }

    /// Applies `n` passes of midpoint subdivision to every mesh; the host
    /// re-uploads the refined buffers afterwards (the handles are reset).
    pub fn subdivide_meshes(&mut self, n: u32)
        requires
            old(self).wf(),
            n <= 5,
            forall|i: int| 0 <= i < old(self).meshes@.len()
                ==> (#[trigger] old(self).meshes@[i]).indices@.len() <= 0x2_0000,
        ensures
            final(self).wf(),
            final(self).meshes@.len() == old(self).meshes@.len(),
            forall|i: int| 0 <= i < final(self).meshes@.len() ==> {
                let m = #[trigger] final(self).meshes@[i];
                &&& m.wf()
                &&& m.vertices@ == subdivide_iter_s(old(self).meshes@[i].vertices@,
                    old(self).meshes@[i].indices@, n as int).0
                &&& m.indices@ == subdivide_iter_s(old(self).meshes@[i].vertices@,
                    old(self).meshes@[i].indices@, n as int).1
                &&& m.indices@.len() == old(self).meshes@[i].indices@.len() * pow4(n as int)
                &&& m.materials@ == old(self).meshes@[i].materials@
                &&& m.gpu == (GpuHandles { vao: 0, vbo: 0, ebo: 0 })
                &&& n >= 1 ==> positions_distinct(m.vertices@)
            },
            final(self).textures_loaded@ == old(self).textures_loaded@,
            final(self).directory == old(self).directory,
    {
        let mut out: Vec<Mesh> = Vec::new();
        while self.meshes.len() > 0
            invariant
                cache_wf(self.textures_loaded@),
                self.textures_loaded@ == old(self).textures_loaded@,
                self.directory == old(self).directory,
                n <= 5,
                out@.len() + self.meshes@.len() == old(self).meshes@.len(),
                forall|i: int| 0 <= i < self.meshes@.len()
                    ==> #[trigger] self.meshes@[i]
                        == old(self).meshes@[i + out@.len()],
                forall|i: int| 0 <= i < old(self).meshes@.len()
                    ==> (#[trigger] old(self).meshes@[i]).wf()
                        && old(self).meshes@[i].indices@.len() <= 0x2_0000,
                forall|i: int| 0 <= i < out@.len() ==> {
                    let m = #[trigger] out@[i];
                    &&& m.wf()
                    &&& m.vertices@ == subdivide_iter_s(old(self).meshes@[i].vertices@,
                        old(self).meshes@[i].indices@, n as int).0
                    &&& m.indices@ == subdivide_iter_s(old(self).meshes@[i].vertices@,
                        old(self).meshes@[i].indices@, n as int).1
                    &&& m.indices@.len()
                        == old(self).meshes@[i].indices@.len() * pow4(n as int)
                    &&& m.materials@ == old(self).meshes@[i].materials@
                    &&& m.gpu == (GpuHandles { vao: 0, vbo: 0, ebo: 0 })
                    &&& n >= 1 ==> positions_distinct(m.vertices@)
                },
            decreases self.meshes@.len(),
        {
            let mut m = self.meshes.remove(0);
            m.subdivide(n);
            out.push(m);
        }
        self.meshes = out;
    }
}

/// Interleaves separate position, normal and texture-coordinate arrays
/// (three, three and two fixed-point values per vertex respectively, as a
/// triangulated asset file stores them) into a vertex list.
pub fn build_vertices(positions: &Vec<i64>, normals: &Vec<i64>, texcoords: &Vec<i64>)
    -> (r: Vec<Vertex>)
    requires
        positions@.len() % 3 == 0,
        normals@.len() == positions@.len(),
        texcoords@.len() * 3 == positions@.len() * 2,
        positions@.len() <= 0x3000_0000,
        forall|i: int| 0 <= i < positions@.len()
            ==> -0x100_0000_0000 <= #[trigger] positions@[i] <= 0x100_0000_0000,
        forall|i: int| 0 <= i < normals@.len()
            ==> -0x100_0000_0000 <= #[trigger] normals@[i] <= 0x100_0000_0000,
        forall|i: int| 0 <= i < texcoords@.len()
            ==> -0x100_0000_0000 <= #[trigger] texcoords@[i] <= 0x100_0000_0000,
    ensures
        r@.len() * 3 == positions@.len(),
        forall|i: int| 0 <= i < r@.len() ==> {
            let v = #[trigger] r@[i];
            &&& vertex_wf(v)
            &&& v.position@ == (V3 {
                x: positions@[3 * i] as int,
                y: positions@[3 * i + 1] as int,
                z: positions@[3 * i + 2] as int,
            })
            &&& v.normal@ == (V3 {
                x: normals@[3 * i] as int,
                y: normals@[3 * i + 1] as int,
                z: normals@[3 * i + 2] as int,
            })
            &&& v.tex_coords@ == (V2 {
                x: texcoords@[2 * i] as int,
                y: texcoords@[2 * i + 1] as int,
            })
        },
{
    let count = positions.len() / 3;
    proof {
        vstd::arithmetic::div_mod::lemma_fundamental_div_mod(positions@.len() as int, 3);
    }
    let mut r: Vec<Vertex> = Vec::new();
    let mut i: usize = 0;
    while i < count
        invariant
            count == positions@.len() / 3,
            positions@.len() % 3 == 0,
            positions@.len() == 3 * count,
            normals@.len() == positions@.len(),
            texcoords@.len() * 3 == positions@.len() * 2,
            positions@.len() <= 0x3000_0000,
            forall|k: int| 0 <= k < positions@.len()
                ==> -0x100_0000_0000 <= #[trigger] positions@[k] <= 0x100_0000_0000,
            forall|k: int| 0 <= k < normals@.len()
                ==> -0x100_0000_0000 <= #[trigger] normals@[k] <= 0x100_0000_0000,
            forall|k: int| 0 <= k < texcoords@.len()
                ==> -0x100_0000_0000 <= #[trigger] texcoords@[k] <= 0x100_0000_0000,
            0 <= i <= count,
            r@.len() == i,
            forall|k: int| 0 <= k < i ==> {
                let v = #[trigger] r@[k];
                &&& vertex_wf(v)
                &&& v.position@ == (V3 {
                    x: positions@[3 * k] as int,
                    y: positions@[3 * k + 1] as int,
                    z: positions@[3 * k + 2] as int,
                })
                &&& v.normal@ == (V3 {
                    x: normals@[3 * k] as int,
                    y: normals@[3 * k + 1] as int,
                    z: normals@[3 * k + 2] as int,
                })
                &&& v.tex_coords@ == (V2 {
                    x: texcoords@[2 * k] as int,
                    y: texcoords@[2 * k + 1] as int,
                })
            },
        decreases count - i,
    {
        proof {
            assert(3 * (i as int) + 2 < positions@.len() && 2 * (i as int) + 1
                < texcoords@.len()) by (nonlinear_arith)
                requires
                    i < count,
                    positions@.len() == 3 * count,
                    normals@.len() == positions@.len(),
                    texcoords@.len() * 3 == positions@.len() * 2,
            {}
        }
        let v = Vertex {
            position: Vec3Fx {
                x: positions[3 * i],
                y: positions[3 * i + 1],
                z: positions[3 * i + 2],
            },
            normal: Vec3Fx {
                x: normals[3 * i],
                y: normals[3 * i + 1],
                z: normals[3 * i + 2],
            },
            tex_coords: Vec2Fx { x: texcoords[2 * i], y: texcoords[2 * i + 1] },
        };
        r.push(v);
        i = i + 1;
    }
    r
}

/// Ghost view of a decoded texture image.
pub ghost struct TexImageG {
    pub width: int,
    pub height: int,
    pub pixels: Seq<u8>,
}

/// A decoded texture image: RGBA, 8 bits per channel, rows flipped so the
/// first row is the bottom of the image, ready for GPU upload.
pub struct TextureImage {
    pub width: u32,
    pub height: u32,
    pub pixels: Vec<u8>,
}

/// What the image decoder returns on given bytes: decoding is a function
/// of the encoded bytes alone.
pub uninterp spec fn rgba_decoded(bytes: Seq<u8>) -> Option<TexImageG>;

/// Relies on image::load_from_memory (with DynamicImage::flipv and
/// into_rgba8): decodes an encoded image to an RGBA8 pixel buffer of
/// exactly `4 * width * height` bytes, flipped vertically; fails exactly
/// when the bytes are not a decodable image.
#[verifier::external_body]
fn decode_rgba(bytes: &Vec<u8>) -> (r: Option<TextureImage>)
    ensures
        match r {
            Some(img) => {
                &&& rgba_decoded(bytes@) == Some(TexImageG {
                    width: img.width as int,
                    height: img.height as int,
                    pixels: img.pixels@,
                })
                &&& img.pixels@.len() == 4 * (img.width as int) * (img.height as int)
            },
            None => rgba_decoded(bytes@) is None,
        },
{
    match image::load_from_memory(bytes) {
        Ok(decoded) => {
            let rgba = decoded.flipv().into_rgba8();
            Some(TextureImage {
                width: rgba.width(),
                height: rgba.height(),
                pixels: rgba.into_raw(),
            })
        },
        Err(_) => None,
    }
}

/// Decodes the bytes of a texture image file to a bottom-up RGBA8 pixel
/// buffer. Returns the image exactly when the bytes decode; the pixel
/// buffer always holds `4 * width * height` bytes.
pub fn decode_texture(bytes: &Vec<u8>) -> (r: Option<TextureImage>)
    ensures
        match r {
            Some(img) => {
                &&& rgba_decoded(bytes@) == Some(TexImageG {
                    width: img.width as int,
                    height: img.height as int,
                    pixels: img.pixels@,
                })
                &&& img.pixels@.len() == 4 * (img.width as int) * (img.height as int)
            },
            None => rgba_decoded(bytes@) is None,
        },
{
    decode_rgba(bytes)
}

} // verus!
