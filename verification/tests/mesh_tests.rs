use rendercore::FX;
use rendercore::linalg::{Vec2Fx, Vec3Fx};
use rendercore::mesh::{
    Material, MaterialType, Mesh, Vertex, midpoint_vertex, subdivide_once,
};

fn vert(x: i64, y: i64, z: i64) -> Vertex {
    Vertex {
        position: Vec3Fx::new(x, y, z),
        normal: Vec3Fx::new(0, FX, 0),
        tex_coords: Vec2Fx { x: x / 2, y: y / 2 },
    }
}

fn triangle_mesh() -> Mesh {
    let vertices = vec![
        vert(0, 0, 0),
        vert(2 * FX, 0, 0),
        vert(0, 2 * FX, 0),
    ];
    let indices: Vec<u32> = vec![0, 1, 2];
    Mesh::new(vertices, indices, Vec::new())
}

#[test]
fn one_pass_on_a_triangle_gives_four_triangles_six_vertices() {
    let mesh = triangle_mesh();
    let (nv, ni) = subdivide_once(&mesh.vertices, &mesh.indices);
    assert_eq!(ni.len(), 12, "four triangles");
    assert_eq!(nv.len(), 6, "three corners plus three midpoints");
    for &ix in ni.iter() {
        assert!((ix as usize) < nv.len());
    }
}

#[test]
fn two_passes_share_midpoints_fifteen_vertices() {
    // Subdividing one triangle twice must not duplicate the midpoints that
    // adjacent sub-triangles share: 15 vertices, not 24.
    let mut mesh = triangle_mesh();
    mesh.subdivide(2);
    assert_eq!(mesh.indices.len(), 48, "sixteen triangles");
    assert_eq!(mesh.vertices.len(), 15);
    // No two vertices share a position.
    for i in 0..mesh.vertices.len() {
        for j in (i + 1)..mesh.vertices.len() {
            assert_ne!(mesh.vertices[i].position, mesh.vertices[j].position);
        }
    }
    // The handles are stale after refinement.
    assert_eq!(mesh.gpu.vao, 0);
}

#[test]
fn subdivided_vertices_stay_in_bounding_box() {
    let mesh = triangle_mesh();
    let (nv, _ni) = subdivide_once(&mesh.vertices, &mesh.indices);
    for v in nv.iter() {
        assert!(0 <= v.position.x && v.position.x <= 2 * FX);
        assert!(0 <= v.position.y && v.position.y <= 2 * FX);
        assert_eq!(v.position.z, 0);
    }
}

#[test]
fn midpoint_averages_every_attribute() {
    let a = Vertex {
        position: Vec3Fx::new(2 * FX, 4 * FX, -6 * FX),
        normal: Vec3Fx::new(FX, 0, 0),
        tex_coords: Vec2Fx { x: 0, y: FX },
    };
    let b = Vertex {
        position: Vec3Fx::new(4 * FX, -2 * FX, 0),
        normal: Vec3Fx::new(0, FX, 0),
        tex_coords: Vec2Fx { x: FX, y: 0 },
    };
    let m = midpoint_vertex(&a, &b);
    assert_eq!(m.position, Vec3Fx::new(3 * FX, FX, -3 * FX));
    assert_eq!(m.normal, Vec3Fx::new(FX / 2, FX / 2, 0));
    assert_eq!(m.tex_coords, Vec2Fx { x: FX / 2, y: FX / 2 });
}

/// Counts how many triangles of `indices` use each undirected edge.
fn edge_uses(indices: &[u32]) -> Vec<((u32, u32), u32)> {
    let mut edges: Vec<((u32, u32), u32)> = Vec::new();
    for t in 0..indices.len() / 3 {
        let tri = [indices[3 * t], indices[3 * t + 1], indices[3 * t + 2]];
        for e in 0..3 {
            let a = tri[e];
            let b = tri[(e + 1) % 3];
            let key = if a < b { (a, b) } else { (b, a) };
            match edges.iter_mut().find(|(k, _)| *k == key) {
                Some(entry) => entry.1 += 1,
                None => edges.push((key, 1)),
            }
        }
    }
    edges
}

#[test]
fn closed_mesh_stays_closed_under_subdivision() {
    // A tetrahedron: every edge is shared by exactly two triangles. One
    // subdivision pass must preserve that property.
    let vertices = vec![
        vert(0, 0, 0),
        vert(4 * FX, 0, 0),
        vert(0, 4 * FX, 0),
        vert(0, 0, 4 * FX),
    ];
    let indices: Vec<u32> = vec![
        0, 1, 2,
        0, 3, 1,
        0, 2, 3,
        1, 3, 2,
    ];
    for (_edge, uses) in edge_uses(&indices) {
        assert_eq!(uses, 2);
    }
    let (nv, ni) = subdivide_once(&vertices, &indices);
    assert_eq!(ni.len(), 48);
    assert_eq!(nv.len(), 10, "four corners plus six shared edge midpoints");
    for (_edge, uses) in edge_uses(&ni) {
        assert_eq!(uses, 2);
    }
}

#[test]
fn draw_plan_assigns_units_and_ordinals() {
    let vertices = vec![vert(0, 0, 0), vert(FX, 0, 0), vert(0, FX, 0)];
    let indices: Vec<u32> = vec![0, 1, 2];
    let materials = vec![
        Material::Texture { id: 7, path: String::from("d0.png"), type_: MaterialType::DiffuseTex },
        Material::Texture { id: 9, path: String::from("s0.png"), type_: MaterialType::SpecularTex },
        Material::Property { value: 32 * FX, type_: MaterialType::Shininess },
        Material::Texture { id: 11, path: String::from("d1.png"), type_: MaterialType::DiffuseTex },
        Material::Texture { id: 13, path: String::from("e0.png"), type_: MaterialType::EmissiveTex },
    ];
    let mesh = Mesh::new(vertices, indices, materials);
    let plan = mesh.draw();
    assert_eq!(plan.bindings.len(), 4);
    let units: Vec<u32> = plan.bindings.iter().map(|b| b.unit).collect();
    assert_eq!(units, vec![1, 2, 3, 4]);
    let ids: Vec<u32> = plan.bindings.iter().map(|b| b.id).collect();
    assert_eq!(ids, vec![7, 9, 11, 13]);
    let ordinals: Vec<u32> = plan.bindings.iter().map(|b| b.ordinal).collect();
    assert_eq!(ordinals, vec![0, 0, 1, 0], "second diffuse gets ordinal 1");
    assert_eq!(plan.bindings[2].type_, MaterialType::DiffuseTex);
    assert_eq!(plan.properties, vec![32 * FX]);
    assert!(plan.use_diffuse);
    assert!(plan.use_specular);
    assert!(plan.use_emissive);
    assert!(!plan.fallback_color);
    assert_eq!(plan.index_count, 3);
}

#[test]
fn draw_plan_without_diffuse_sets_fallback() {
    let vertices = vec![vert(0, 0, 0), vert(FX, 0, 0), vert(0, FX, 0)];
    let indices: Vec<u32> = vec![0, 1, 2];
    let materials = vec![
        Material::Texture { id: 3, path: String::from("s.png"), type_: MaterialType::SpecularTex },
    ];
    let mesh = Mesh::new(vertices, indices, materials);
    let plan = mesh.draw();
    assert!(!plan.use_diffuse);
    assert!(plan.use_specular);
    assert!(plan.fallback_color);
}

#[test]
fn path_comparison_distinguishes_materials() {
    let t = Material::Texture { id: 1, path: String::from("wood.png"), type_: MaterialType::DiffuseTex };
    let p = Material::Property { value: FX, type_: MaterialType::Shininess };
    assert!(t.is_path_eq("wood.png"));
    assert!(!t.is_path_eq("stone.png"));
    assert!(!p.is_path_eq("wood.png"));
}

#[test]
fn dedup_reuses_first_vertex_per_position() {
    // Two triangles sharing an edge: the shared corners and the shared edge
    // midpoint each appear once in the output.
    let vertices = vec![
        vert(0, 0, 0),
        vert(2 * FX, 0, 0),
        vert(0, 2 * FX, 0),
        vert(2 * FX, 2 * FX, 0),
    ];
    let indices: Vec<u32> = vec![0, 1, 2, 1, 3, 2];
    let (nv, ni) = subdivide_once(&vertices, &indices);
    assert_eq!(ni.len(), 24);
    // 4 corners + 5 distinct edge midpoints (the diagonal midpoint is shared).
    assert_eq!(nv.len(), 9);
}
