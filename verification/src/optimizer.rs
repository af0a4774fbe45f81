//! The visibility-buffer optimizer of the occlusion pass: downsamples the
//! per-tile visibility image into a small render target and reads it back
//! from the GPU without blocking.
//!
//! Readback follows a try-read pattern: [`VisibilityBufferOptimizer::optimize`]
//! schedules a pixel transfer, callers poll
//! [`VisibilityBufferOptimizer::is_reading_from_gpu`] and collect the result
//! with [`VisibilityBufferOptimizer::read_visibility_mask`]. A pending
//! transfer that is never polled is simply abandoned.

use vstd::prelude::*;
use vstd::string::StringExecFns;

use crate::error::FrameworkError;
use crate::framebuffer::{
    spec_att_cleared, spec_binding_err, spec_bindings_err, spec_groups_err, spec_pack_color,
    Attachment, AttachmentKind, BufferDataUsage, ChannelSelect, Color, ColorMask, DrawParameters,
    ElementRange, FrameBuffer, ResourceBindGroup, ResourceBinding,
};
use crate::gpu::{
    lemma_block_lookup_reflects, lemma_uniform_lookup_reflects, spec_block_lookup,
    spec_program_lookup, spec_uniform_lookup, GpuBuffer, GpuGeometryBuffer, GpuProgram,
    GpuTexture, GpuTextureKind, GraphicsServer, PixelKind, UniformLocation,
};
use crate::math::Rect;

verus! {

/// A pixel-transfer buffer: the destination of an asynchronous GPU
/// readback. The model resolves a scheduled transfer by the next poll.
#[derive(Debug)]
pub struct PixelBuffer {
    /// Number of pixels one transfer moves.
    pub length: usize,
    /// The transfer in flight, if any.
    pub pending: Option<Vec<u32>>,
}

impl PixelBuffer {
    /// A buffer for transfers of `length` pixels, with nothing in flight.
    pub fn new(length: usize) -> (r: PixelBuffer)
        ensures
            r.length == length,
            r.pending is None,
    {
        PixelBuffer { length, pending: None }
    }

    /// Whether a transfer is in flight.
    pub fn is_request_running(&self) -> (r: bool)
        ensures
            r == (self.pending is Some),
    {
        self.pending.is_some()
    }

    /// Collects the transfer in flight, if any, clearing it. A pending
    /// readback is not an error; an absent result only means nothing was
    /// scheduled.
    pub fn try_read(&mut self) -> (r: Option<Vec<u32>>)
        ensures
            r == old(self).pending,
            final(self).pending is None,
            final(self).length == old(self).length,
    {
        self.pending.take()
    }

    /// Schedules a transfer of color attachment `attachment_index` of
    /// `framebuffer`. While a transfer is running a new request is ignored;
    /// a missing attachment or one whose pixel count does not match the
    /// buffer is rejected.
    pub fn schedule_pixels_transfer(
        &mut self,
        framebuffer: &FrameBuffer,
        attachment_index: usize,
    ) -> (r: Result<(), FrameworkError>)
        ensures
            final(self).length == old(self).length,
            if old(self).pending is Some {
                r is Ok && final(self).pending == old(self).pending
            } else if attachment_index >= framebuffer.color_attachments.len() {
                r == Err::<(), FrameworkError>(FrameworkError::InvalidAttachmentIndex)
                    && final(self).pending is None
            } else if framebuffer.color_attachments[attachment_index as int].texture.pixels.len()
                != old(self).length {
                r == Err::<(), FrameworkError>(FrameworkError::PixelTransferSizeMismatch)
                    && final(self).pending is None
            } else {
                r is Ok && (final(self).pending matches Some(v) && v@
                    == framebuffer.color_attachments[attachment_index as int].texture.pixels@)
            },
    {
        if self.pending.is_some() {
            return Ok(());
        }
        if attachment_index >= framebuffer.color_attachments().len() {
            return Err(FrameworkError::InvalidAttachmentIndex);
        }
        let pixels = &framebuffer.color_attachments()[attachment_index].texture.pixels;
        if pixels.len() != self.length {
            return Err(FrameworkError::PixelTransferSizeMismatch);
        }
        let copy = pixels.clone();
        proof {
            assert(copy@ =~= framebuffer.color_attachments[attachment_index as int].texture.pixels@);
        }
        self.pending = Some(copy);
        Ok(())
    }
}

/// A write-once cache handing out uniform buffers for per-draw data.
#[derive(Debug)]
pub struct UniformBufferCache {
    /// Identity given to the next buffer.
    pub next_key: u64,
}

impl UniformBufferCache {
    /// An empty cache.
    pub fn new() -> (r: UniformBufferCache)
        ensures
            r.next_key == 1u64,
    {
        UniformBufferCache { next_key: 1 }
    }

    /// Stores one block of uniform words and hands back the buffer holding
    /// them, eight bytes per word.
    pub fn write(&mut self, words: &Vec<i64>) -> (r: Result<GpuBuffer, FrameworkError>)
        requires
            old(self).next_key < u64::MAX,
            words.len() <= 0x1000,
        ensures
            r matches Ok(buf) && buf == (GpuBuffer {
                key: old(self).next_key,
                length: (words.len() * 8) as usize,
                alive: true,
            }),
            final(self).next_key == old(self).next_key + 1,
    {
        let key = self.next_key;
        self.next_key = self.next_key + 1;
        Ok(GpuBuffer { key, length: words.len() * 8, alive: true })
    }
}

/// The downsampling program of the optimizer and its binding points.
#[derive(Debug)]
pub struct VisibilityOptimizerShader {
    pub program: GpuProgram,
    pub uniform_buffer_binding: usize,
    pub visibility_buffer: UniformLocation,
}

/// Whether a program reflects the names the optimizer pass binds.
pub open spec fn spec_optimizer_names_ok(p: GpuProgram) -> bool {
    &&& spec_uniform_lookup(p.uniforms@, "visibilityBuffer"@) is Some
    &&& spec_block_lookup(p.blocks@, "Uniforms"@) is Some
}

impl VisibilityOptimizerShader {
    /// Builds the shader against the server's program registry.
    pub fn new(server: &GraphicsServer) -> (r: Result<VisibilityOptimizerShader, FrameworkError>)
        ensures
            match spec_program_lookup(server.programs@, "VisibilityOptimizerShader"@) {
                None => r matches Err(e) && e == FrameworkError::ProgramNotFound,
                Some(p) => match r {
                    Ok(s) => {
                        &&& spec_optimizer_names_ok(p)
                        &&& s.program.uniforms@ == p.uniforms@
                        &&& s.program.blocks@ == p.blocks@
                        &&& Some(s.visibility_buffer.id) == spec_uniform_lookup(
                            p.uniforms@,
                            "visibilityBuffer"@,
                        )
                        &&& Some(s.uniform_buffer_binding) == spec_block_lookup(
                            p.blocks@,
                            "Uniforms"@,
                        )
                    },
                    Err(e) => {
                        &&& !spec_optimizer_names_ok(p)
                        &&& e == (if spec_block_lookup(p.blocks@, "Uniforms"@) is Some {
                            FrameworkError::ShaderUniformNotFound
                        } else {
                            FrameworkError::ShaderBlockNotFound
                        })
                    },
                },
            },
    {
        let program = match server.create_program(&String::from_str("VisibilityOptimizerShader")) {
            Ok(p) => p,
            Err(e) => {
                return Err(e);
            },
        };
        let uniform_buffer_binding = match program.uniform_block_index(
            &String::from_str("Uniforms"),
        ) {
            Ok(i) => i,
            Err(e) => {
                return Err(e);
            },
        };
        let visibility_buffer = match program.uniform_location(
            &String::from_str("visibilityBuffer"),
        ) {
            Ok(l) => l,
            Err(e) => {
                return Err(e);
            },
        };
        Ok(VisibilityOptimizerShader { program, uniform_buffer_binding, visibility_buffer })
    }
}

/// Downsamples the visibility buffer into a `w_tiles` by `h_tiles` render
/// target and reads the result back asynchronously.
#[derive(Debug)]
pub struct VisibilityBufferOptimizer {
    /// The render target of the downsampling pass: one color attachment of
    /// `w_tiles * h_tiles` pixels.
    pub framebuffer: FrameBuffer,
    /// The readback destination.
    pub pixel_buffer: PixelBuffer,
    /// The downsampling program.
    pub shader: VisibilityOptimizerShader,
    /// Width of the tile grid.
    pub w_tiles: usize,
    /// Height of the tile grid.
    pub h_tiles: usize,
}

impl VisibilityBufferOptimizer {
    /// The shape invariant of the optimizer: a well-formed render target of
    /// exactly one color attachment matching the tile grid, a pixel buffer
    /// sized to it, and binding points that the downsampling program
    /// actually reflects.
    pub open spec fn wf(self) -> bool {
        &&& self.framebuffer.wf()
        &&& self.framebuffer.color_attachments.len() == 1
        &&& self.framebuffer.depth_attachment is None
        &&& self.framebuffer.color_attachments[0].texture.spec_width() == self.w_tiles
        &&& self.framebuffer.color_attachments[0].texture.spec_height() == self.h_tiles
        &&& self.pixel_buffer.length == self.w_tiles * self.h_tiles
        &&& (self.pixel_buffer.pending matches Some(v) ==> v.len() == self.pixel_buffer.length)
        &&& 1 <= self.w_tiles <= 0x8000
        &&& 1 <= self.h_tiles <= 0x8000
        &&& spec_uniform_lookup(self.shader.program.uniforms@, "visibilityBuffer"@) == Some(
            self.shader.visibility_buffer.id,
        )
        &&& spec_block_lookup(self.shader.program.blocks@, "Uniforms"@) == Some(
            self.shader.uniform_buffer_binding,
        )
    }

    /// Builds the optimizer: allocates the downsampled visibility texture,
    /// wraps it in a frame buffer, sizes the readback buffer to it and
    /// resolves the downsampling shader. Succeeds exactly when the shader
    /// program is registered and reflects its names.
    pub fn new(server: &mut GraphicsServer, w_tiles: usize, h_tiles: usize) -> (r: Result<
        VisibilityBufferOptimizer,
        FrameworkError,
    >)
        requires
            1 <= w_tiles <= 0x8000,
            1 <= h_tiles <= 0x8000,
            old(server).next_key < u64::MAX,
        ensures
            final(server).programs@ == old(server).programs@,
            match spec_program_lookup(old(server).programs@, "VisibilityOptimizerShader"@) {
                None => r matches Err(e) && e == FrameworkError::ProgramNotFound,
                Some(p) => match r {
                    Ok(o) => {
                        &&& spec_optimizer_names_ok(p)
                        &&& o.wf()
                        &&& o.w_tiles == w_tiles
                        &&& o.h_tiles == h_tiles
                        &&& o.framebuffer.color_attachments.len() == 1
                        &&& o.framebuffer.color_attachments[0].kind == AttachmentKind::Color
                        &&& o.framebuffer.color_attachments[0].texture.kind
                            == (GpuTextureKind::Rectangle { width: w_tiles, height: h_tiles })
                        &&& o.framebuffer.color_attachments[0].texture.pixel_kind
                            == PixelKind::R32UI
                        &&& o.framebuffer.depth_attachment is None
                        &&& o.pixel_buffer.pending is None
                        &&& forall|q: int|
                            0 <= q < o.framebuffer.color_attachments[0].texture.pixels.len()
                                ==> o.framebuffer.color_attachments[0].texture.pixels[q] == 0u32
                    },
                    Err(e) => {
                        &&& !spec_optimizer_names_ok(p)
                        &&& e == (if spec_block_lookup(p.blocks@, "Uniforms"@) is Some {
                            FrameworkError::ShaderUniformNotFound
                        } else {
                            FrameworkError::ShaderBlockNotFound
                        })
                    },
                },
            },
    {
        let texture = match server.create_texture(
            GpuTextureKind::Rectangle { width: w_tiles, height: h_tiles },
            PixelKind::R32UI,
        ) {
            Ok(t) => t,
            Err(e) => {
                return Err(e);
            },
        };
        let framebuffer = match server.create_frame_buffer(
            None,
            vec![Attachment::color(texture)],
        ) {
            Ok(fb) => fb,
            Err(e) => {
                return Err(e);
            },
        };
        proof {
            assert(w_tiles * h_tiles <= 0x8000 * 0x8000) by (nonlinear_arith)
                requires
                    0 <= w_tiles <= 0x8000,
                    0 <= h_tiles <= 0x8000,
            ;
        }
        let pixel_buffer = PixelBuffer::new(w_tiles * h_tiles);
        let shader = match VisibilityOptimizerShader::new(server) {
            Ok(s) => s,
            Err(e) => {
                return Err(e);
            },
        };
        Ok(VisibilityBufferOptimizer { framebuffer, pixel_buffer, shader, w_tiles, h_tiles })
    }

    /// Whether a readback is still in flight; poll this before expecting a
    /// mask from [`VisibilityBufferOptimizer::read_visibility_mask`].
    pub fn is_reading_from_gpu(&self) -> (r: bool)
        ensures
            r == (self.pixel_buffer.pending is Some),
    {
        self.pixel_buffer.is_request_running()
    }

    /// Collects the visibility mask read back from the GPU, if one is
    /// ready.
    pub fn read_visibility_mask(&mut self, server: &GraphicsServer) -> (r: Option<Vec<u32>>)
        ensures
            r == old(self).pixel_buffer.pending,
            final(self).pixel_buffer.pending is None,
            *final(self) == (VisibilityBufferOptimizer {
                pixel_buffer: final(self).pixel_buffer,
                ..*old(self)
            }),
            final(self).pixel_buffer.length == old(self).pixel_buffer.length,
    {
        let _ = server;
        self.pixel_buffer.try_read()
    }

    /// Runs the downsampling pass: clears the tile render target to
    /// transparent, draws the unit quad with the visibility buffer and the
    /// per-pass uniforms bound, and schedules the readback. Fails exactly
    /// when the quad geometry or the visibility texture has been destroyed;
    /// the render target is cleared either way, and a readback already in
    /// flight is left as it is.
    pub fn optimize(
        &mut self,
        server: &GraphicsServer,
        visibility_buffer: &GpuTexture,
        unit_quad: &GpuGeometryBuffer,
        tile_size: i32,
        uniform_buffer_cache: &mut UniformBufferCache,
    ) -> (r: Result<(), FrameworkError>)
        requires
            old(self).wf(),
            old(uniform_buffer_cache).next_key < u64::MAX,
        ensures
            final(self).wf(),
            final(self).w_tiles == old(self).w_tiles,
            final(self).h_tiles == old(self).h_tiles,
            final(uniform_buffer_cache).next_key == old(uniform_buffer_cache).next_key + 1,
            r is Ok <==> unit_quad.alive && visibility_buffer.alive,
            r matches Err(e) ==> e == FrameworkError::InvalidResource,
            spec_att_cleared(
                old(self).framebuffer.color_attachments[0],
                final(self).framebuffer.color_attachments[0],
                Rect { x: 0, y: 0, w: old(self).w_tiles as i32, h: old(self).h_tiles as i32 },
                0u32,
                ChannelSelect::All,
            ),
            r is Ok && old(self).pixel_buffer.pending is None ==> (final(self).pixel_buffer.pending
                matches Some(v) && v@
                == final(self).framebuffer.color_attachments[0].texture.pixels@),
            r is Ok && old(self).pixel_buffer.pending is Some ==> final(self).pixel_buffer.pending
                == old(self).pixel_buffer.pending,
            r is Err ==> final(self).pixel_buffer.pending == old(self).pixel_buffer.pending,
    {
        let _ = server;
        let viewport = Rect::new(0, 0, self.w_tiles as i32, self.h_tiles as i32);
        let clear_color = Color::transparent();
        proof {
            assert(spec_pack_color(clear_color) == 0u32);
        }
        self.framebuffer.clear(viewport, Some(clear_color), None, None);
        let words: Vec<i64> = vec![self.w_tiles as i64, self.h_tiles as i64, tile_size as i64];
        let uniform_buffer = match uniform_buffer_cache.write(&words) {
            Ok(b) => b,
            Err(e) => {
                return Err(e);
            },
        };
        let mut bindings: Vec<ResourceBinding> = Vec::new();
        bindings.push(ResourceBinding::texture(visibility_buffer, self.shader.visibility_buffer.id));
        bindings.push(
            ResourceBinding::buffer(
                &uniform_buffer,
                self.shader.uniform_buffer_binding,
                BufferDataUsage::UseEverything,
            ),
        );
        let mut resources: Vec<ResourceBindGroup> = Vec::new();
        resources.push(ResourceBindGroup { bindings });
        let params = DrawParameters {
            cull_face: None,
            color_write: ColorMask::all(true),
            depth_write: false,
            stencil_test: None,
            depth_test: None,
            scissor_box: None,
        };
        proof {
            let p = self.shader.program;
            let bs = resources@[0].bindings@;
            assert(resources@.drop_first() =~= Seq::<ResourceBindGroup>::empty());
            assert(bs.drop_first().drop_first() =~= Seq::<ResourceBinding>::empty());
            assert(bs.drop_first()[0] == bs[1]);
            lemma_uniform_lookup_reflects(p.uniforms@, "visibilityBuffer"@);
            lemma_block_lookup_reflects(p.blocks@, "Uniforms"@);
            if visibility_buffer.alive {
                assert(spec_binding_err(bs[0], p) is None);
                assert(spec_binding_err(bs[1], p) is None);
                assert(spec_bindings_err(bs.drop_first().drop_first(), p) is None);
                assert(spec_bindings_err(bs.drop_first(), p) is None);
                assert(spec_bindings_err(bs, p) is None);
                assert(spec_groups_err(resources@.drop_first(), p) is None);
                assert(spec_groups_err(resources@, p) is None);
            } else {
                assert(spec_binding_err(bs[0], p) == Some(FrameworkError::InvalidResource));
                assert(spec_bindings_err(bs, p) == Some(FrameworkError::InvalidResource));
                assert(spec_groups_err(resources@, p) == Some(FrameworkError::InvalidResource));
            }
        }
        match self.framebuffer.draw(
            unit_quad,
            viewport,
            &self.shader.program,
            &params,
            &resources,
            ElementRange::Full,
        ) {
            Ok(_stats) => {},
            Err(e) => {
                return Err(e);
            },
        }
        match self.pixel_buffer.schedule_pixels_transfer(&self.framebuffer, 0) {
            Ok(_) => Ok(()),
            Err(e) => Err(e),
        }
    }
}

} // verus!
