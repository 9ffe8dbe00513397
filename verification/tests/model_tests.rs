use std::io::Cursor;

use rendercore::FX;
use rendercore::linalg::{Vec2Fx, Vec3Fx};
use rendercore::mesh::{Material, MaterialType, Mesh, Vertex};
use rendercore::model::{Model, build_vertices, decode_texture};

fn texture_id(m: &Material) -> u32 {
    match m {
        Material::Texture { id, .. } => *id,
        Material::Property { .. } => panic!("expected a texture material"),
    }
}

#[test]
fn texture_cache_returns_same_handle_for_same_path() {
    let mut model = Model::new();
    // First load: the cache is empty, so the host uploads and registers.
    assert!(model.cached_texture("diffuse.png").is_none());
    let first = model.register_texture("diffuse.png", MaterialType::DiffuseTex, 42);
    assert_eq!(texture_id(&first), 42);
    // Second load of the same path: the cache answers; no new upload, and
    // the returned material references the identical GPU handle.
    let second = model.cached_texture("diffuse.png").expect("must be cached");
    assert_eq!(texture_id(&second), 42);
    assert_eq!(model.textures_loaded.len(), 1, "one owner per handle");
    // A different path misses the cache and gets its own entry.
    assert!(model.cached_texture("specular.png").is_none());
    let other = model.register_texture("specular.png", MaterialType::SpecularTex, 43);
    assert_eq!(texture_id(&other), 43);
    assert_eq!(model.textures_loaded.len(), 2);
    let again = model.cached_texture("diffuse.png").expect("still cached");
    assert_eq!(texture_id(&again), 42);
}

#[test]
fn build_vertices_interleaves_attribute_arrays() {
    let positions: Vec<i64> = vec![FX, 2 * FX, 3 * FX, 4 * FX, 5 * FX, 6 * FX];
    let normals: Vec<i64> = vec![0, FX, 0, FX, 0, 0];
    let texcoords: Vec<i64> = vec![0, FX, FX, 0];
    let verts = build_vertices(&positions, &normals, &texcoords);
    assert_eq!(verts.len(), 2);
    assert_eq!(verts[0].position, Vec3Fx::new(FX, 2 * FX, 3 * FX));
    assert_eq!(verts[0].normal, Vec3Fx::new(0, FX, 0));
    assert_eq!(verts[0].tex_coords, Vec2Fx { x: 0, y: FX });
    assert_eq!(verts[1].position, Vec3Fx::new(4 * FX, 5 * FX, 6 * FX));
    assert_eq!(verts[1].normal, Vec3Fx::new(FX, 0, 0));
    assert_eq!(verts[1].tex_coords, Vec2Fx { x: FX, y: 0 });
}

#[test]
fn decode_texture_decodes_and_flips() {
    // A 2x2 image: top row red, bottom row blue. After the bottom-up flip
    // the first decoded row must be the blue one.
    let mut img = image::RgbaImage::new(2, 2);
    img.put_pixel(0, 0, image::Rgba([255, 0, 0, 255]));
    img.put_pixel(1, 0, image::Rgba([255, 0, 0, 255]));
    img.put_pixel(0, 1, image::Rgba([0, 0, 255, 255]));
    img.put_pixel(1, 1, image::Rgba([0, 0, 255, 255]));
    let mut bytes: Vec<u8> = Vec::new();
    img.write_to(&mut Cursor::new(&mut bytes), image::ImageFormat::Png)
        .expect("encoding to memory succeeds");

    let decoded = decode_texture(&bytes).expect("a valid PNG decodes");
    assert_eq!(decoded.width, 2);
    assert_eq!(decoded.height, 2);
    assert_eq!(decoded.pixels.len(), 16);
    assert_eq!(&decoded.pixels[0..4], &[0, 0, 255, 255], "first row is the bottom row");
    assert_eq!(&decoded.pixels[8..12], &[255, 0, 0, 255]);
}

#[test]
fn decode_texture_rejects_garbage() {
    let bytes: Vec<u8> = vec![0, 1, 2, 3, 4, 5, 6, 7];
    assert!(decode_texture(&bytes).is_none());
}

#[test]
fn model_draw_covers_every_mesh() {
    let mut model = Model::new();
    let mat = model.register_texture("wall.png", MaterialType::DiffuseTex, 5);
    let vertices = vec![
        Vertex {
            position: Vec3Fx::new(0, 0, 0),
            normal: Vec3Fx::new(0, FX, 0),
            tex_coords: Vec2Fx { x: 0, y: 0 },
        },
        Vertex {
            position: Vec3Fx::new(FX, 0, 0),
            normal: Vec3Fx::new(0, FX, 0),
            tex_coords: Vec2Fx { x: FX, y: 0 },
        },
        Vertex {
            position: Vec3Fx::new(0, FX, 0),
            normal: Vec3Fx::new(0, FX, 0),
            tex_coords: Vec2Fx { x: 0, y: FX },
        },
    ];
    let indices: Vec<u32> = vec![0, 1, 2];
    model.add_mesh(Mesh::new(vertices, indices, vec![mat]));
    let plans = model.draw();
    assert_eq!(plans.len(), 1);
    assert_eq!(plans[0].bindings.len(), 1);
    assert_eq!(plans[0].bindings[0].id, 5);
    assert_eq!(plans[0].bindings[0].unit, 1);
    assert_eq!(plans[0].index_count, 3);
}

#[test]
fn subdivide_meshes_refines_every_mesh() {
    let mut model = Model::new();
    let vertices = vec![
        Vertex {
            position: Vec3Fx::new(0, 0, 0),
            normal: Vec3Fx::new(0, FX, 0),
            tex_coords: Vec2Fx { x: 0, y: 0 },
        },
        Vertex {
            position: Vec3Fx::new(2 * FX, 0, 0),
            normal: Vec3Fx::new(0, FX, 0),
            tex_coords: Vec2Fx { x: FX, y: 0 },
        },
        Vertex {
            position: Vec3Fx::new(0, 2 * FX, 0),
            normal: Vec3Fx::new(0, FX, 0),
            tex_coords: Vec2Fx { x: 0, y: FX },
        },
    ];
    let indices: Vec<u32> = vec![0, 1, 2];
    model.add_mesh(Mesh::new(vertices, indices, Vec::new()));
    model.subdivide_meshes(1);
    assert_eq!(model.meshes.len(), 1);
    assert_eq!(model.meshes[0].indices.len(), 12);
    assert_eq!(model.meshes[0].vertices.len(), 6);
}
