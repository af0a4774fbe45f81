use render_core::math::{Mat4, Vector3};
use render_core::terrain::{
    make_divisible_by_2, BaseBuilder, Brush, BrushKind, BrushMode, Layer, LayerDefinition,
    TerrainBuilder, Texture, TextureKind, TexturePixelKind,
};

fn material_texture(key: u64) -> Texture {
    Texture::from_bytes(
        TextureKind::Rectangle { width: 2, height: 2 },
        TexturePixelKind::RGBA8,
        vec![0u8; 16],
        key,
    )
    .unwrap()
}

#[test]
fn make_divisible_by_2_rounds_odd_counts_up() {
    assert_eq!(make_divisible_by_2(255), 256);
    assert_eq!(make_divisible_by_2(256), 256);
    assert_eq!(make_divisible_by_2(0), 0);
    assert_eq!(make_divisible_by_2(1), 2);
}

#[test]
fn texture_from_bytes_checks_the_payload_length() {
    let ok = Texture::from_bytes(
        TextureKind::Rectangle { width: 4, height: 2 },
        TexturePixelKind::R8,
        vec![255u8; 8],
        1,
    );
    assert!(ok.is_some());
    let bad = Texture::from_bytes(
        TextureKind::Rectangle { width: 4, height: 2 },
        TexturePixelKind::R8,
        vec![255u8; 7],
        1,
    );
    assert!(bad.is_none());
}

#[test]
fn batch_id_is_stable_and_ignores_the_mask() {
    let mut a = Layer::default();
    a.diffuse_texture = Some(material_texture(1));
    a.normal_texture = Some(material_texture(2));
    let mut b = Layer::default();
    b.diffuse_texture = Some(material_texture(1));
    b.normal_texture = Some(material_texture(2));
    b.mask = Some(
        Texture::from_bytes(
            TextureKind::Rectangle { width: 2, height: 2 },
            TexturePixelKind::R8,
            vec![255u8; 4],
            77,
        )
        .unwrap(),
    );
    // Stable: the same key and textures give the same id on every call.
    assert_eq!(a.batch_id(5), a.batch_id(5));
    // A mask-only difference must not change the id.
    assert_eq!(a.batch_id(5), b.batch_id(5));
    // A differing material texture or key does change it.
    let mut c = Layer::default();
    c.diffuse_texture = Some(material_texture(3));
    c.normal_texture = Some(material_texture(2));
    assert_ne!(a.batch_id(5), c.batch_id(5));
    assert_ne!(a.batch_id(5), a.batch_id(6));
}

#[test]
fn terrain_builder_derives_the_chunk_grid() {
    let terrain = TerrainBuilder::new(BaseBuilder::new())
        .with_width(64)
        .with_length(64)
        .with_width_chunks(2)
        .with_length_chunks(2)
        .with_resolution(8)
        .with_mask_resolution(1)
        .with_layers(vec![LayerDefinition::default()])
        .build();
    assert_eq!(terrain.width(), 64);
    assert_eq!(terrain.length(), 64);
    assert_eq!(terrain.chunks_ref().len(), 4);
    for chunk in terrain.chunks_ref() {
        // 64 / 2 = 32 world units per chunk, 32 * 8 = 256 samples per axis.
        assert_eq!(chunk.width_point_count(), 256);
        assert_eq!(chunk.length_point_count(), 256);
        assert_eq!(chunk.width_point_count() % 2, 0);
        assert_eq!(chunk.length_point_count() % 2, 0);
        assert_eq!(chunk.heightmap().len(), 256 * 256);
        // The surface was generated by the build-time update.
        assert_eq!(chunk.data().vertex_buffer.len(), 256 * 256);
        assert_eq!(chunk.data().triangles.len(), 2 * 255 * 255);
        // Every layer mask starts fully opaque.
        for layer in chunk.layers() {
            let mask = layer.mask.as_ref().unwrap();
            assert!(mask.bytes.iter().all(|&b| b == 255));
        }
    }
}

#[test]
fn chunk_update_is_idempotent() {
    let mut terrain = TerrainBuilder::new(BaseBuilder::new())
        .with_width(4)
        .with_length(4)
        .with_width_chunks(1)
        .with_length_chunks(1)
        .with_resolution(1)
        .with_mask_resolution(1)
        .build();
    // A brush edit marks the chunk dirty again.
    let brush = Brush::new(
        Vector3::new(2, 0, 2),
        BrushKind::Rectangle { width: 10, length: 10 },
        BrushMode::ChangeHeight { amount: 7 },
    )
    .unwrap();
    terrain.apply_brush(&brush);
    terrain.update();
    let chunk = &terrain.chunks_ref()[0];
    let vertices_first = chunk.data().vertex_buffer.clone();
    let triangles_first = chunk.data().triangles.clone();
    // A second update without height edits is a no-op with bit-identical
    // buffers.
    terrain.update();
    let chunk = &terrain.chunks_ref()[0];
    assert_eq!(chunk.data().vertex_buffer, vertices_first);
    assert_eq!(chunk.data().triangles, triangles_first);
}

#[test]
fn surface_vertices_follow_the_heightmap() {
    let mut terrain = TerrainBuilder::new(BaseBuilder::new())
        .with_width(4)
        .with_length(4)
        .with_width_chunks(1)
        .with_length_chunks(1)
        .with_resolution(1)
        .with_mask_resolution(1)
        .build();
    let brush = Brush::new(
        Vector3::new(0, 0, 0),
        BrushKind::Rectangle { width: 100, length: 100 },
        BrushMode::ChangeHeight { amount: 3 },
    )
    .unwrap();
    terrain.apply_brush(&brush);
    terrain.update();
    let chunk = &terrain.chunks_ref()[0];
    // Every sample was covered, so every vertex sits at height 3.
    assert!(chunk.data().vertex_buffer.iter().all(|v| v.position.y == 3));
    // The corner vertex spans the full extent along both axes.
    let last = chunk.data().vertex_buffer.last().unwrap();
    assert_eq!(last.position.x, 4);
    assert_eq!(last.position.z, 4);
    // Texture coordinates are normalized, scaled by ten, in thousandths.
    assert_eq!(last.tex_coord.x, 10000);
    assert_eq!(last.tex_coord.y, 10000);
    // On a flat chunk every recomputed face normal points straight up.
    assert!(chunk
        .data()
        .vertex_buffer
        .iter()
        .all(|v| v.normal.x == 0 && v.normal.y > 0 && v.normal.z == 0));
}

#[test]
fn bounding_box_tracks_brushed_heights() {
    let mut terrain = TerrainBuilder::new(BaseBuilder::new())
        .with_width(8)
        .with_length(8)
        .with_width_chunks(2)
        .with_length_chunks(2)
        .with_resolution(1)
        .with_mask_resolution(1)
        .build();
    terrain.set_global_transform(Mat4::translation(Vector3::new(100, 50, 200)));
    let flat = terrain.bounding_box();
    assert_eq!(flat.min, Vector3::new(100, 50, 200));
    assert_eq!(flat.max.x, 108);
    assert_eq!(flat.max.y, 50);
    assert_eq!(flat.max.z, 208);
    // Raise a hill, addressed in terrain-local space; the box must not be
    // stale afterwards.
    let brush = Brush::new(
        Vector3::new(2, 0, 2),
        BrushKind::Circle { radius: 2 },
        BrushMode::ChangeHeight { amount: 12 },
    )
    .unwrap();
    terrain.apply_brush(&brush);
    let raised = terrain.bounding_box();
    assert_eq!(raised.max.y, 50 + 12);
}

#[test]
fn raw_copy_duplicates_the_chunks() {
    let terrain = TerrainBuilder::new(BaseBuilder::new())
        .with_width(4)
        .with_length(4)
        .with_width_chunks(1)
        .with_length_chunks(1)
        .with_resolution(1)
        .with_mask_resolution(1)
        .build();
    let copy = terrain.raw_copy();
    assert_eq!(copy.width(), terrain.width());
    assert_eq!(copy.chunks_ref().len(), terrain.chunks_ref().len());
    assert_eq!(
        copy.chunks_ref()[0].heightmap(),
        terrain.chunks_ref()[0].heightmap()
    );
}

#[test]
fn draw_brush_paints_listed_masks_and_marks_chunks_dirty() {
    let mut terrain = TerrainBuilder::new(BaseBuilder::new())
        .with_width(4)
        .with_length(4)
        .with_width_chunks(1)
        .with_length_chunks(1)
        .with_resolution(1)
        .with_mask_resolution(1)
        .with_layers(vec![LayerDefinition::default()])
        .build();
    // Blank the mask by hand, then paint part of it back.
    {
        let heights_before = terrain.chunks_ref()[0].heightmap().clone();
        let brush = Brush::new(
            Vector3::new(0, 0, 0),
            BrushKind::Rectangle { width: 2, length: 2 },
            BrushMode::Draw { layers: vec![0] },
        )
        .unwrap();
        terrain.apply_brush(&brush);
        let chunk = &terrain.chunks_ref()[0];
        assert!(chunk.dirty);
        assert_eq!(chunk.heightmap(), &heights_before);
        let mask = chunk.layers()[0].mask.as_ref().unwrap();
        assert_eq!(mask.bytes[0], 255);
    }
}

#[test]
fn brush_rejects_too_many_draw_layers() {
    let brush = Brush::new(
        Vector3::new(0, 0, 0),
        BrushKind::Circle { radius: 1 },
        BrushMode::Draw { layers: (0..33).collect() },
    );
    assert!(brush.is_none());
    let ok = Brush::new(
        Vector3::new(0, 0, 0),
        BrushKind::Circle { radius: 1 },
        BrushMode::Draw { layers: (0..32).collect() },
    );
    assert!(ok.is_some());
}
