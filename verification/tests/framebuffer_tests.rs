use render_core::error::FrameworkError;
use render_core::framebuffer::{
    Attachment, AttachmentKind, BufferDataUsage, ColorMask, CompareFunc, DrawParameters,
    ElementRange, FrameBuffer, ResourceBindGroup, ResourceBinding,
};
use render_core::framebuffer::Color;
use render_core::gpu::{
    CubeMapFace, GpuBuffer, GpuGeometryBuffer, GpuProgram, GpuTexture, GpuTextureKind,
    GraphicsServer, PixelKind, ShaderBlock, ShaderUniform,
};
use render_core::math::Rect;

fn rect_texture(key: u64, width: usize, height: usize) -> GpuTexture {
    GpuTexture {
        key,
        kind: GpuTextureKind::Rectangle { width, height },
        pixel_kind: PixelKind::RGBA8,
        active_face: CubeMapFace::PositiveX,
        alive: true,
        pixels: vec![0u32; width * height],
    }
}

fn quad_program() -> GpuProgram {
    GpuProgram {
        name: String::from("quad"),
        uniforms: vec![ShaderUniform { name: String::from("inputTexture"), location: 0 }],
        blocks: vec![ShaderBlock { name: String::from("Uniforms"), index: 0 }],
    }
}

fn plain_params() -> DrawParameters {
    DrawParameters {
        cull_face: None,
        color_write: ColorMask::all(true),
        depth_write: false,
        stencil_test: None,
        depth_test: None,
        scissor_box: None,
    }
}

#[test]
fn attachment_constructors_set_kinds() {
    assert_eq!(Attachment::color(rect_texture(1, 2, 2)).kind, AttachmentKind::Color);
    assert_eq!(Attachment::depth(rect_texture(2, 2, 2)).kind, AttachmentKind::Depth);
    assert_eq!(
        Attachment::depth_stencil(rect_texture(3, 2, 2)).kind,
        AttachmentKind::DepthStencil
    );
}

#[test]
fn frame_buffer_keeps_color_order_and_at_most_one_depth() {
    let attachments = vec![
        Attachment::color(rect_texture(10, 2, 2)),
        Attachment::depth(rect_texture(11, 2, 2)),
        Attachment::color(rect_texture(12, 2, 2)),
    ];
    let fb = FrameBuffer::new(attachments).unwrap();
    let colors = fb.color_attachments();
    assert_eq!(colors.len(), 2);
    assert_eq!(colors[0].texture.key, 10);
    assert_eq!(colors[1].texture.key, 12);
    let depth = fb.depth_attachment().as_ref().unwrap();
    assert_eq!(depth.texture.key, 11);
}

#[test]
fn frame_buffer_rejects_two_depth_attachments() {
    let attachments = vec![
        Attachment::depth(rect_texture(1, 2, 2)),
        Attachment::depth_stencil(rect_texture(2, 2, 2)),
    ];
    let err = FrameBuffer::new(attachments).unwrap_err();
    assert_eq!(err, FrameworkError::InvalidAttachmentLayout);
}

#[test]
fn clear_with_no_values_changes_nothing() {
    let mut fb = FrameBuffer::new(vec![
        Attachment::color(rect_texture(1, 4, 4)),
        Attachment::depth_stencil(rect_texture(2, 4, 4)),
    ])
    .unwrap();
    fb.clear(
        Rect::new(0, 0, 4, 4),
        Some(Color { r: 9, g: 8, b: 7, a: 6 }),
        Some(77),
        Some(5),
    );
    let color_before = fb.color_attachments()[0].texture.pixels.clone();
    let depth_before = fb.depth_attachment().as_ref().unwrap().texture.pixels.clone();
    fb.clear(Rect::new(0, 0, 4, 4), None, None, None);
    assert_eq!(fb.color_attachments()[0].texture.pixels, color_before);
    assert_eq!(
        fb.depth_attachment().as_ref().unwrap().texture.pixels,
        depth_before
    );
}

#[test]
fn clear_color_is_scoped_to_the_viewport() {
    let mut fb = FrameBuffer::new(vec![Attachment::color(rect_texture(1, 4, 4))]).unwrap();
    fb.clear(Rect::new(1, 1, 2, 2), Some(Color { r: 0, g: 0, b: 0, a: 255 }), None, None);
    let pixels = &fb.color_attachments()[0].texture.pixels;
    // Inside the viewport the packed color, outside the old zero word.
    assert_eq!(pixels[1 * 4 + 1], 255);
    assert_eq!(pixels[2 * 4 + 2], 255);
    assert_eq!(pixels[0], 0);
    assert_eq!(pixels[3 * 4 + 3], 0);
}

#[test]
fn clear_depth_keeps_the_stencil_byte() {
    let mut fb = FrameBuffer::new(vec![Attachment::depth_stencil(rect_texture(1, 2, 2))]).unwrap();
    // First set both channels, then clear the depth bits only.
    fb.clear(Rect::new(0, 0, 2, 2), None, Some(3), Some(9));
    assert_eq!(fb.depth_attachment().as_ref().unwrap().texture.pixels[0], 3 * 256 + 9);
    fb.clear(Rect::new(0, 0, 2, 2), None, Some(5), None);
    assert_eq!(fb.depth_attachment().as_ref().unwrap().texture.pixels[0], 5 * 256 + 9);
    // And the stencil byte alone, keeping the depth bits.
    fb.clear(Rect::new(0, 0, 2, 2), None, None, Some(1));
    assert_eq!(fb.depth_attachment().as_ref().unwrap().texture.pixels[0], 5 * 256 + 1);
}

#[test]
fn blit_with_all_flags_false_changes_nothing() {
    let src = FrameBuffer::new(vec![Attachment::color(rect_texture(1, 4, 4))]).unwrap();
    let mut dst = FrameBuffer::new(vec![Attachment::color(rect_texture(2, 4, 4))]).unwrap();
    let before = dst.color_attachments()[0].texture.pixels.clone();
    src.blit_to(&mut dst, 0, 0, 4, 4, 0, 0, 4, 4, false, false, false);
    assert_eq!(dst.color_attachments()[0].texture.pixels, before);
}

#[test]
fn blit_copies_and_resamples_nearest() {
    let mut src = FrameBuffer::new(vec![Attachment::color(rect_texture(1, 2, 2))]).unwrap();
    src.clear(Rect::new(0, 0, 2, 2), Some(Color { r: 0, g: 0, b: 0, a: 42 }), None, None);
    let mut dst = FrameBuffer::new(vec![Attachment::color(rect_texture(2, 4, 4))]).unwrap();
    // Upscale the whole 2x2 source over the 4x4 destination.
    src.blit_to(&mut dst, 0, 0, 2, 2, 0, 0, 4, 4, true, false, false);
    for p in 0..16 {
        assert_eq!(dst.color_attachments()[0].texture.pixels[p], 42);
    }
}

#[test]
fn set_cubemap_face_ignores_plain_textures() {
    let mut fb = FrameBuffer::new(vec![Attachment::color(rect_texture(1, 2, 2))]).unwrap();
    fb.set_cubemap_face(0, CubeMapFace::NegativeZ);
    assert_eq!(
        fb.color_attachments()[0].texture.active_face,
        CubeMapFace::PositiveX
    );
}

#[test]
fn set_cubemap_face_rebinds_cube_textures() {
    let cube = GpuTexture {
        key: 1,
        kind: GpuTextureKind::Cube { size: 2 },
        pixel_kind: PixelKind::RGBA8,
        active_face: CubeMapFace::PositiveX,
        alive: true,
        pixels: vec![0u32; 4],
    };
    let mut fb = FrameBuffer::new(vec![Attachment::color(cube)]).unwrap();
    fb.set_cubemap_face(0, CubeMapFace::NegativeY);
    assert_eq!(
        fb.color_attachments()[0].texture.active_face,
        CubeMapFace::NegativeY
    );
}

#[test]
fn draw_reports_triangles_and_validates() {
    let fb = FrameBuffer::new(vec![Attachment::color(rect_texture(1, 4, 4))]).unwrap();
    let geometry = GpuGeometryBuffer { key: 7, vertex_count: 4, triangle_count: 2, alive: true };
    let program = quad_program();
    let viewport = Rect::new(0, 0, 4, 4);
    let stats = fb
        .draw(&geometry, viewport, &program, &plain_params(), &Vec::new(), ElementRange::Full)
        .unwrap();
    assert_eq!(stats.triangles, 2);

    let stats = fb
        .draw(
            &geometry,
            viewport,
            &program,
            &plain_params(),
            &Vec::new(),
            ElementRange::Specific { offset: 1, count: 1 },
        )
        .unwrap();
    assert_eq!(stats.triangles, 1);

    let err = fb
        .draw(
            &geometry,
            viewport,
            &program,
            &plain_params(),
            &Vec::new(),
            ElementRange::Specific { offset: 1, count: 2 },
        )
        .unwrap_err();
    assert_eq!(err, FrameworkError::InvalidElementRange);

    let dead = GpuGeometryBuffer { alive: false, ..geometry };
    let err = fb
        .draw(&dead, viewport, &program, &plain_params(), &Vec::new(), ElementRange::Full)
        .unwrap_err();
    assert_eq!(err, FrameworkError::InvalidResource);
}

#[test]
fn draw_rejects_destroyed_and_misbound_resources() {
    let fb = FrameBuffer::new(vec![Attachment::color(rect_texture(1, 4, 4))]).unwrap();
    let geometry = GpuGeometryBuffer { key: 7, vertex_count: 4, triangle_count: 2, alive: true };
    let program = quad_program();
    let viewport = Rect::new(0, 0, 4, 4);

    let mut dead_texture = rect_texture(9, 2, 2);
    dead_texture.alive = false;
    let groups = vec![ResourceBindGroup {
        bindings: vec![ResourceBinding::texture(&dead_texture, 0)],
    }];
    let err = fb
        .draw(&geometry, viewport, &program, &plain_params(), &groups, ElementRange::Full)
        .unwrap_err();
    assert_eq!(err, FrameworkError::InvalidResource);

    let buffer = GpuBuffer { key: 3, length: 16, alive: true };
    let groups = vec![ResourceBindGroup {
        bindings: vec![ResourceBinding::buffer(
            &buffer,
            0,
            BufferDataUsage::UseSegment { offset: 8, size: 16 },
        )],
    }];
    let err = fb
        .draw(&geometry, viewport, &program, &plain_params(), &groups, ElementRange::Full)
        .unwrap_err();
    assert_eq!(err, FrameworkError::InvalidBufferSegment);
}

#[test]
fn draw_rejects_a_binding_slot_the_program_does_not_reflect() {
    let fb = FrameBuffer::new(vec![Attachment::color(rect_texture(1, 4, 4))]).unwrap();
    let geometry = GpuGeometryBuffer { key: 7, vertex_count: 4, triangle_count: 2, alive: true };
    let program = quad_program();
    let texture = rect_texture(9, 2, 2);
    // Location 3 is not among the program's reflected sampler locations.
    let groups = vec![ResourceBindGroup {
        bindings: vec![ResourceBinding::texture(&texture, 3)],
    }];
    let err = fb
        .draw(&geometry, Rect::new(0, 0, 4, 4), &program, &plain_params(), &groups, ElementRange::Full)
        .unwrap_err();
    assert_eq!(err, FrameworkError::InvalidBindingSlot);

    // At the reflected location the same binding is accepted.
    let groups = vec![ResourceBindGroup {
        bindings: vec![ResourceBinding::texture(&texture, 0)],
    }];
    let stats = fb
        .draw(&geometry, Rect::new(0, 0, 4, 4), &program, &plain_params(), &groups, ElementRange::Full)
        .unwrap();
    assert_eq!(stats.triangles, 2);
}

#[test]
fn draw_requires_a_depth_attachment_for_depth_state() {
    let fb = FrameBuffer::new(vec![Attachment::color(rect_texture(1, 4, 4))]).unwrap();
    let geometry = GpuGeometryBuffer { key: 7, vertex_count: 4, triangle_count: 2, alive: true };
    let program = quad_program();
    let params = DrawParameters {
        depth_test: Some(CompareFunc::Less),
        ..plain_params()
    };
    let err = fb
        .draw(&geometry, Rect::new(0, 0, 4, 4), &program, &params, &Vec::new(), ElementRange::Full)
        .unwrap_err();
    assert_eq!(err, FrameworkError::NoDepthAttachment);
}

#[test]
fn draw_instances_multiplies_the_triangle_count() {
    let fb = FrameBuffer::new(vec![Attachment::color(rect_texture(1, 4, 4))]).unwrap();
    let geometry = GpuGeometryBuffer { key: 7, vertex_count: 4, triangle_count: 2, alive: true };
    let program = quad_program();
    let stats = fb
        .draw_instances(
            5,
            &geometry,
            Rect::new(0, 0, 4, 4),
            &program,
            &plain_params(),
            &Vec::new(),
            ElementRange::Full,
        )
        .unwrap();
    assert_eq!(stats.triangles, 10);
}

#[test]
fn create_frame_buffer_checks_attachment_slots() {
    let server = GraphicsServer::new();
    let fb = server
        .create_frame_buffer(
            Some(Attachment::depth(rect_texture(1, 2, 2))),
            vec![Attachment::color(rect_texture(2, 2, 2))],
        )
        .unwrap();
    assert_eq!(fb.color_attachments().len(), 1);
    let err = server
        .create_frame_buffer(Some(Attachment::color(rect_texture(3, 2, 2))), Vec::new())
        .unwrap_err();
    assert_eq!(err, FrameworkError::InvalidAttachmentLayout);
}
