use render_core::error::FrameworkError;
use render_core::framebuffer::{Attachment, FrameBuffer};
use render_core::gpu::{
    GpuGeometryBuffer, GpuProgram, GpuTexture, GpuTextureKind, GraphicsServer, PixelKind,
    ShaderBlock, ShaderUniform,
};
use render_core::optimizer::{PixelBuffer, UniformBufferCache, VisibilityBufferOptimizer};
use render_core::spot::SpotLightShader;

fn spot_light_program() -> GpuProgram {
    let names = [
        "depthTexture",
        "colorTexture",
        "normalTexture",
        "materialTexture",
        "spotShadowTexture",
        "cookieTexture",
    ];
    GpuProgram {
        name: String::from("SpotLightShader"),
        uniforms: names
            .iter()
            .enumerate()
            .map(|(location, name)| ShaderUniform { name: String::from(*name), location })
            .collect(),
        blocks: vec![ShaderBlock { name: String::from("Uniforms"), index: 3 }],
    }
}

fn optimizer_program() -> GpuProgram {
    GpuProgram {
        name: String::from("VisibilityOptimizerShader"),
        uniforms: vec![ShaderUniform { name: String::from("visibilityBuffer"), location: 4 }],
        blocks: vec![ShaderBlock { name: String::from("Uniforms"), index: 1 }],
    }
}

#[test]
fn spot_light_shader_resolves_every_binding() {
    let mut server = GraphicsServer::new();
    server.register_program(spot_light_program());
    let shader = SpotLightShader::new(&server).unwrap();
    assert_eq!(shader.depth_sampler.id, 0);
    assert_eq!(shader.color_sampler.id, 1);
    assert_eq!(shader.normal_sampler.id, 2);
    assert_eq!(shader.material_sampler.id, 3);
    assert_eq!(shader.spot_shadow_texture.id, 4);
    assert_eq!(shader.cookie_texture.id, 5);
    assert_eq!(shader.uniform_buffer_binding, 3);
}

#[test]
fn spot_light_shader_reports_missing_pieces() {
    let server = GraphicsServer::new();
    let err = SpotLightShader::new(&server).unwrap_err();
    assert_eq!(err, FrameworkError::ProgramNotFound);

    let mut server = GraphicsServer::new();
    let mut incomplete = spot_light_program();
    incomplete.uniforms.remove(2);
    server.register_program(incomplete);
    let err = SpotLightShader::new(&server).unwrap_err();
    assert_eq!(err, FrameworkError::ShaderUniformNotFound);

    let mut server = GraphicsServer::new();
    let mut no_block = spot_light_program();
    no_block.blocks.clear();
    server.register_program(no_block);
    let err = SpotLightShader::new(&server).unwrap_err();
    assert_eq!(err, FrameworkError::ShaderBlockNotFound);
}

#[test]
fn uniform_lookup_takes_the_first_match() {
    let program = GpuProgram {
        name: String::from("p"),
        uniforms: vec![
            ShaderUniform { name: String::from("tex"), location: 1 },
            ShaderUniform { name: String::from("tex"), location: 2 },
        ],
        blocks: Vec::new(),
    };
    let loc = program.uniform_location(&String::from("tex")).unwrap();
    assert_eq!(loc.id, 1);
    let err = program.uniform_location(&String::from("absent")).unwrap_err();
    assert_eq!(err, FrameworkError::ShaderUniformNotFound);
}

#[test]
fn create_texture_zeroes_the_grid_and_advances_keys() {
    let mut server = GraphicsServer::new();
    let a = server
        .create_texture(GpuTextureKind::Rectangle { width: 2, height: 3 }, PixelKind::R32UI)
        .unwrap();
    let b = server
        .create_texture(GpuTextureKind::Rectangle { width: 1, height: 1 }, PixelKind::R8)
        .unwrap();
    assert_eq!(a.pixels, vec![0u32; 6]);
    assert_ne!(a.key, b.key);
    let err = server
        .create_texture(
            GpuTextureKind::Rectangle { width: 1 << 20, height: 2 },
            PixelKind::R8,
        )
        .unwrap_err();
    assert_eq!(err, FrameworkError::InvalidTextureSize);
}

#[test]
fn optimizer_reads_back_the_downsampled_tiles() {
    let mut server = GraphicsServer::new();
    server.register_program(optimizer_program());
    let mut optimizer = VisibilityBufferOptimizer::new(&mut server, 4, 2).unwrap();
    assert!(!optimizer.is_reading_from_gpu());

    let visibility_buffer = server
        .create_texture(GpuTextureKind::Rectangle { width: 8, height: 8 }, PixelKind::R32UI)
        .unwrap();
    let unit_quad = GpuGeometryBuffer { key: 5, vertex_count: 4, triangle_count: 2, alive: true };
    let mut cache = UniformBufferCache::new();
    optimizer
        .optimize(&server, &visibility_buffer, &unit_quad, 16, &mut cache)
        .unwrap();
    assert!(optimizer.is_reading_from_gpu());
    let mask = optimizer.read_visibility_mask(&server).unwrap();
    assert_eq!(mask, vec![0u32; 8]);
    assert!(!optimizer.is_reading_from_gpu());
    assert!(optimizer.read_visibility_mask(&server).is_none());
}

#[test]
fn optimizer_rejects_destroyed_inputs() {
    let mut server = GraphicsServer::new();
    server.register_program(optimizer_program());
    let mut optimizer = VisibilityBufferOptimizer::new(&mut server, 2, 2).unwrap();
    let visibility_buffer = server
        .create_texture(GpuTextureKind::Rectangle { width: 4, height: 4 }, PixelKind::R32UI)
        .unwrap();
    let dead_quad = GpuGeometryBuffer { key: 5, vertex_count: 4, triangle_count: 2, alive: false };
    let mut cache = UniformBufferCache::new();
    let err = optimizer
        .optimize(&server, &visibility_buffer, &dead_quad, 16, &mut cache)
        .unwrap_err();
    assert_eq!(err, FrameworkError::InvalidResource);
}

#[test]
fn optimizer_requires_its_program() {
    let mut server = GraphicsServer::new();
    let err = VisibilityBufferOptimizer::new(&mut server, 2, 2).unwrap_err();
    assert_eq!(err, FrameworkError::ProgramNotFound);
}

#[test]
fn optimizer_shader_reports_the_first_missing_name() {
    // The block is resolved before the sampler, so with both missing the
    // block's error wins.
    let mut server = GraphicsServer::new();
    let mut bare = optimizer_program();
    bare.uniforms.clear();
    bare.blocks.clear();
    server.register_program(bare);
    let err = VisibilityBufferOptimizer::new(&mut server, 2, 2).unwrap_err();
    assert_eq!(err, FrameworkError::ShaderBlockNotFound);

    let mut server = GraphicsServer::new();
    let mut no_sampler = optimizer_program();
    no_sampler.uniforms.clear();
    server.register_program(no_sampler);
    let err = VisibilityBufferOptimizer::new(&mut server, 2, 2).unwrap_err();
    assert_eq!(err, FrameworkError::ShaderUniformNotFound);
}

#[test]
fn pixel_transfer_validates_the_attachment() {
    let mut server = GraphicsServer::new();
    let texture = server
        .create_texture(GpuTextureKind::Rectangle { width: 2, height: 2 }, PixelKind::R32UI)
        .unwrap();
    let fb = FrameBuffer::new(vec![Attachment::color(texture)]).unwrap();

    let mut buffer = PixelBuffer::new(4);
    let err = buffer.schedule_pixels_transfer(&fb, 1).unwrap_err();
    assert_eq!(err, FrameworkError::InvalidAttachmentIndex);

    let mut wrong_size = PixelBuffer::new(5);
    let err = wrong_size.schedule_pixels_transfer(&fb, 0).unwrap_err();
    assert_eq!(err, FrameworkError::PixelTransferSizeMismatch);

    buffer.schedule_pixels_transfer(&fb, 0).unwrap();
    assert!(buffer.is_request_running());
    // A second request while one is running is quietly ignored.
    buffer.schedule_pixels_transfer(&fb, 0).unwrap();
    assert_eq!(buffer.try_read().unwrap(), vec![0u32; 4]);
    assert!(buffer.try_read().is_none());
}

#[test]
fn error_descriptions_are_not_empty() {
    let errors = [
        FrameworkError::ShaderUniformNotFound,
        FrameworkError::ShaderBlockNotFound,
        FrameworkError::ProgramNotFound,
        FrameworkError::InvalidTextureSize,
        FrameworkError::InvalidAttachmentLayout,
        FrameworkError::InvalidAttachmentIndex,
        FrameworkError::PixelTransferSizeMismatch,
        FrameworkError::InvalidResource,
        FrameworkError::InvalidBindingSlot,
        FrameworkError::InvalidBufferSegment,
        FrameworkError::InvalidElementRange,
        FrameworkError::NoDepthAttachment,
    ];
    for error in errors {
        assert!(!error.description().is_empty());
    }
}

#[test]
fn dead_textures_still_carry_their_identity() {
    let texture = GpuTexture {
        key: 12,
        kind: GpuTextureKind::Rectangle { width: 1, height: 1 },
        pixel_kind: PixelKind::RGBA8,
        active_face: render_core::gpu::CubeMapFace::PositiveX,
        alive: false,
        pixels: vec![0],
    };
    let copy = texture.clone();
    assert_eq!(copy.key, 12);
    assert!(!copy.alive);
}
