//! Models of the GPU resources the core consumes: textures, buffers,
//! geometry buffers and shader programs with their reflected uniform
//! locations.
//!
//! The real objects live in a graphics backend; the library models each as
//! plain data so that the operations working over them (attachment layout,
//! clearing, blitting, draw validation) carry exact contracts. A render
//! target texture is a flat pixel grid of 32-bit words; destruction is an
//! explicit `alive` flag checked by draw dispatch.

use vstd::prelude::*;
use vstd::string::StringExecFns;

use crate::error::FrameworkError;

verus! {

/// Largest width or height, in pixels, a modelled texture may have.
pub const TEXTURE_DIM_LIMIT: usize = 0x8000;

/// The face of a cube-map texture currently bound for rendering.
#[derive(Clone, Copy, Debug, PartialEq, Eq, Structural)]
pub enum CubeMapFace {
    PositiveX,
    NegativeX,
    PositiveY,
    NegativeY,
    PositiveZ,
    NegativeZ,
}

/// The shape of a GPU texture.
#[derive(Clone, Copy, Debug, PartialEq, Eq, Structural)]
pub enum GpuTextureKind {
    /// A plain two-dimensional image.
    Rectangle { width: usize, height: usize },
    /// A cube map with six square faces of the given edge length.
    Cube { size: usize },
}

/// The pixel format of a GPU texture.
#[derive(Clone, Copy, Debug, PartialEq, Eq, Structural)]
pub enum PixelKind {
    /// Four 8-bit channels packed into one 32-bit word.
    RGBA8,
    /// A single unsigned 32-bit integer channel.
    R32UI,
    /// A single 8-bit channel.
    R8,
    /// 24 bits of depth and 8 bits of stencil in one 32-bit word.
    D24S8,
    /// A 32-bit depth-only word.
    D32,
}

/// A render-target image: one word per pixel, row major.
///
/// For a cube map the grid models the storage of the face currently bound
/// for rendering, recorded in `active_face`.
#[derive(Debug)]
pub struct GpuTexture {
    /// Identity of the underlying GPU object.
    pub key: u64,
    /// Shape of the image.
    pub kind: GpuTextureKind,
    /// Pixel format.
    pub pixel_kind: PixelKind,
    /// Which cube face is bound; meaningful only for cube maps.
    pub active_face: CubeMapFace,
    /// Whether the underlying GPU object still exists.
    pub alive: bool,
    /// The image contents, `width * height` words, row major.
    pub pixels: Vec<u32>,
}

/// Whether two texture values agree on every field, the pixel grid compared
/// by contents.
pub open spec fn spec_tex_eq(a: GpuTexture, b: GpuTexture) -> bool {
    &&& a.key == b.key
    &&& a.kind == b.kind
    &&& a.pixel_kind == b.pixel_kind
    &&& a.active_face == b.active_face
    &&& a.alive == b.alive
    &&& a.pixels@ == b.pixels@
}

impl Clone for GpuTexture {
    fn clone(&self) -> (r: Self)
        ensures
            spec_tex_eq(r, *self),
    {
        let r = GpuTexture {
            key: self.key,
            kind: self.kind,
            pixel_kind: self.pixel_kind,
            active_face: self.active_face,
            alive: self.alive,
            pixels: self.pixels.clone(),
        };
        proof {
            assert(r.pixels@ =~= self.pixels@);
        }
        r
    }
}

impl GpuTexture {
    /// Width of the addressable pixel grid.
    pub open spec fn spec_width(self) -> int {
        match self.kind {
            GpuTextureKind::Rectangle { width, height } => width as int,
            GpuTextureKind::Cube { size } => size as int,
        }
    }

    /// Height of the addressable pixel grid.
    pub open spec fn spec_height(self) -> int {
        match self.kind {
            GpuTextureKind::Rectangle { width, height } => height as int,
            GpuTextureKind::Cube { size } => size as int,
        }
    }

    /// A texture is well formed when its grid holds exactly one word per
    /// pixel and its dimensions are within the addressable limit.
    pub open spec fn wf(self) -> bool {
        &&& self.pixels.len() == self.spec_width() * self.spec_height()
        &&& self.spec_width() <= TEXTURE_DIM_LIMIT
        &&& self.spec_height() <= TEXTURE_DIM_LIMIT
    }

    /// Width of the addressable pixel grid.
    pub fn width(&self) -> (r: usize)
        ensures
            r as int == self.spec_width(),
    {
        match self.kind {
            GpuTextureKind::Rectangle { width, height: _ } => width,
            GpuTextureKind::Cube { size } => size,
        }
    }

    /// Height of the addressable pixel grid.
    pub fn height(&self) -> (r: usize)
        ensures
            r as int == self.spec_height(),
    {
        match self.kind {
            GpuTextureKind::Rectangle { width: _, height } => height,
            GpuTextureKind::Cube { size } => size,
        }
    }
}

/// A generic GPU data buffer, shared between bind groups.
#[derive(Clone, Copy, Debug, PartialEq, Eq, Structural)]
pub struct GpuBuffer {
    /// Identity of the underlying GPU object.
    pub key: u64,
    /// Size of the buffer in bytes.
    pub length: usize,
    /// Whether the underlying GPU object still exists.
    pub alive: bool,
}

/// A mesh on the GPU: a vertex buffer plus an index buffer counted in
/// triangles.
#[derive(Clone, Copy, Debug, PartialEq, Eq, Structural)]
pub struct GpuGeometryBuffer {
    /// Identity of the underlying GPU object.
    pub key: u64,
    /// Number of vertices.
    pub vertex_count: usize,
    /// Number of indexed triangles.
    pub triangle_count: usize,
    /// Whether the underlying GPU object still exists.
    pub alive: bool,
}

/// An opaque token for a sampler location reflected from a shader program.
#[derive(Clone, Copy, Debug, PartialEq, Eq, Structural)]
pub struct UniformLocation {
    pub id: usize,
}

/// One reflected sampler of a shader program.
#[derive(Debug)]
pub struct ShaderUniform {
    /// Name of the sampler in the shader source.
    pub name: String,
    /// Its reflected location.
    pub location: usize,
}

impl Clone for ShaderUniform {
    fn clone(&self) -> (r: Self)
        ensures
            r == *self,
    {
        ShaderUniform { name: self.name.clone(), location: self.location }
    }
}

/// One reflected uniform block of a shader program.
#[derive(Debug)]
pub struct ShaderBlock {
    /// Name of the block in the shader source.
    pub name: String,
    /// Its reflected binding index.
    pub index: usize,
}

impl Clone for ShaderBlock {
    fn clone(&self) -> (r: Self)
        ensures
            r == *self,
    {
        ShaderBlock { name: self.name.clone(), index: self.index }
    }
}

/// The first location reflected for `name`, searching the uniforms in order.
pub open spec fn spec_uniform_lookup(uniforms: Seq<ShaderUniform>, name: Seq<char>) -> Option<
    usize,
>
    decreases uniforms.len(),
{
    if uniforms.len() == 0 {
        None
    } else if uniforms[0].name@ == name {
        Some(uniforms[0].location)
    } else {
        spec_uniform_lookup(uniforms.drop_first(), name)
    }
}

/// The first index reflected for block `name`, searching the blocks in order.
pub open spec fn spec_block_lookup(blocks: Seq<ShaderBlock>, name: Seq<char>) -> Option<usize>
    decreases blocks.len(),
{
    if blocks.len() == 0 {
        None
    } else if blocks[0].name@ == name {
        Some(blocks[0].index)
    } else {
        spec_block_lookup(blocks.drop_first(), name)
    }
}

/// A compiled shader program together with its reflection data. Reflection
/// itself is the backend's job; the core only resolves names against the
/// reflected tables and passes the location tokens on unchanged.
#[derive(Debug)]
pub struct GpuProgram {
    /// Name the program was registered under.
    pub name: String,
    /// Reflected samplers.
    pub uniforms: Vec<ShaderUniform>,
    /// Reflected uniform blocks.
    pub blocks: Vec<ShaderBlock>,
}

impl Clone for GpuProgram {
    fn clone(&self) -> (r: Self)
        ensures
            r.name == self.name,
            r.uniforms@ == self.uniforms@,
            r.blocks@ == self.blocks@,
    {
        let r = GpuProgram {
            name: self.name.clone(),
            uniforms: self.uniforms.clone(),
            blocks: self.blocks.clone(),
        };
        proof {
            assert(r.uniforms@ =~= self.uniforms@);
            assert(r.blocks@ =~= self.blocks@);
        }
        r
    }
}

impl GpuProgram {
    /// Resolves a sampler name to its reflected location.
    pub fn uniform_location(&self, name: &String) -> (r: Result<UniformLocation, FrameworkError>)
        ensures
            match r {
                Ok(loc) => spec_uniform_lookup(self.uniforms@, name@) == Some(loc.id),
                Err(e) => spec_uniform_lookup(self.uniforms@, name@) is None && e
                    == FrameworkError::ShaderUniformNotFound,
            },
    {
        let n = self.uniforms.len();
        let mut i: usize = 0;
        proof {
            assert(self.uniforms@.skip(0) =~= self.uniforms@);
        }
        while i < n
            invariant
                n == self.uniforms.len(),
                i <= n,
                spec_uniform_lookup(self.uniforms@, name@) == spec_uniform_lookup(
                    self.uniforms@.skip(i as int),
                    name@,
                ),
            decreases n - i,
        {
            if self.uniforms[i].name == *name {
                proof {
                    assert(self.uniforms@.skip(i as int)[0] == self.uniforms@[i as int]);
                }
                return Ok(UniformLocation { id: self.uniforms[i].location });
            }
            proof {
                assert(self.uniforms@.skip(i as int).drop_first() =~= self.uniforms@.skip(
                    i as int + 1,
                ));
            }
            i = i + 1;
        }
        Err(FrameworkError::ShaderUniformNotFound)
    }

    /// Resolves a uniform block name to its reflected binding index.
    pub fn uniform_block_index(&self, name: &String) -> (r: Result<usize, FrameworkError>)
        ensures
            match r {
                Ok(index) => spec_block_lookup(self.blocks@, name@) == Some(index),
                Err(e) => spec_block_lookup(self.blocks@, name@) is None && e
                    == FrameworkError::ShaderBlockNotFound,
            },
    {
        let n = self.blocks.len();
        let mut i: usize = 0;
        proof {
            assert(self.blocks@.skip(0) =~= self.blocks@);
        }
        while i < n
            invariant
                n == self.blocks.len(),
                i <= n,
                spec_block_lookup(self.blocks@, name@) == spec_block_lookup(
                    self.blocks@.skip(i as int),
                    name@,
                ),
            decreases n - i,
        {
            if self.blocks[i].name == *name {
                proof {
                    assert(self.blocks@.skip(i as int)[0] == self.blocks@[i as int]);
                }
                return Ok(self.blocks[i].index);
            }
            proof {
                assert(self.blocks@.skip(i as int).drop_first() =~= self.blocks@.skip(i as int + 1));
            }
            i = i + 1;
        }
        Err(FrameworkError::ShaderBlockNotFound)
    }

    /// Whether any reflected sampler sits at `slot`.
    pub fn has_uniform_slot(&self, slot: usize) -> (r: bool)
        ensures
            r == spec_has_uniform_slot(self.uniforms@, slot),
    {
        let n = self.uniforms.len();
        let mut i: usize = 0;
        while i < n
            invariant
                n == self.uniforms.len(),
                i <= n,
                forall|j: int| 0 <= j < i ==> (#[trigger] self.uniforms@[j]).location != slot,
            decreases n - i,
        {
            if self.uniforms[i].location == slot {
                return true;
            }
            i = i + 1;
        }
        false
    }

    /// Whether any reflected uniform block sits at `slot`.
    pub fn has_block_slot(&self, slot: usize) -> (r: bool)
        ensures
            r == spec_has_block_slot(self.blocks@, slot),
    {
        let n = self.blocks.len();
        let mut i: usize = 0;
        while i < n
            invariant
                n == self.blocks.len(),
                i <= n,
                forall|j: int| 0 <= j < i ==> (#[trigger] self.blocks@[j]).index != slot,
            decreases n - i,
        {
            if self.blocks[i].index == slot {
                return true;
            }
            i = i + 1;
        }
        false
    }
}

/// Whether any reflected sampler of a program sits at `slot`.
pub open spec fn spec_has_uniform_slot(uniforms: Seq<ShaderUniform>, slot: usize) -> bool {
    exists|i: int| 0 <= i < uniforms.len() && (#[trigger] uniforms[i]).location == slot
}

/// Whether any reflected uniform block of a program sits at `slot`.
pub open spec fn spec_has_block_slot(blocks: Seq<ShaderBlock>, slot: usize) -> bool {
    exists|i: int| 0 <= i < blocks.len() && (#[trigger] blocks[i]).index == slot
}

/// A location handed out by the sampler lookup is a reflected one.
pub proof fn lemma_uniform_lookup_reflects(uniforms: Seq<ShaderUniform>, name: Seq<char>)
    requires
        spec_uniform_lookup(uniforms, name) is Some,
    ensures
        spec_has_uniform_slot(uniforms, spec_uniform_lookup(uniforms, name)->0),
    decreases uniforms.len(),
{
    if uniforms.len() > 0 {
        if uniforms[0].name@ == name {
            assert(uniforms[0].location == spec_uniform_lookup(uniforms, name)->0);
        } else {
            lemma_uniform_lookup_reflects(uniforms.drop_first(), name);
            let i = choose|i: int|
                0 <= i < uniforms.drop_first().len() && (#[trigger] uniforms.drop_first()[
                i]).location == spec_uniform_lookup(uniforms, name)->0;
            assert(uniforms[i + 1].location == spec_uniform_lookup(uniforms, name)->0);
        }
    }
}

/// An index handed out by the block lookup is a reflected one.
pub proof fn lemma_block_lookup_reflects(blocks: Seq<ShaderBlock>, name: Seq<char>)
    requires
        spec_block_lookup(blocks, name) is Some,
    ensures
        spec_has_block_slot(blocks, spec_block_lookup(blocks, name)->0),
    decreases blocks.len(),
{
    if blocks.len() > 0 {
        if blocks[0].name@ == name {
            assert(blocks[0].index == spec_block_lookup(blocks, name)->0);
        } else {
            lemma_block_lookup_reflects(blocks.drop_first(), name);
            let i = choose|i: int|
                0 <= i < blocks.drop_first().len() && (#[trigger] blocks.drop_first()[i]).index
                    == spec_block_lookup(blocks, name)->0;
            assert(blocks[i + 1].index == spec_block_lookup(blocks, name)->0);
        }
    }
}

/// The first registered program carrying `name`.
pub open spec fn spec_program_lookup(programs: Seq<GpuProgram>, name: Seq<char>) -> Option<
    GpuProgram,
>
    decreases programs.len(),
{
    if programs.len() == 0 {
        None
    } else if programs[0].name@ == name {
        Some(programs[0])
    } else {
        spec_program_lookup(programs.drop_first(), name)
    }
}

/// The external graphics-resource factory, modelled as a registry: programs
/// are registered with their reflection tables, and textures are handed out
/// with fresh identities and zeroed contents.
#[derive(Debug)]
pub struct GraphicsServer {
    /// Identity given to the next created resource.
    pub next_key: u64,
    /// Registered program reflections, searched by name.
    pub programs: Vec<GpuProgram>,
}

impl GraphicsServer {
    /// A server with no registered programs.
    pub fn new() -> (r: GraphicsServer)
        ensures
            r.next_key == 1u64,
            r.programs@.len() == 0,
    {
        GraphicsServer { next_key: 1, programs: Vec::new() }
    }

    /// Registers a program reflection under its name.
    pub fn register_program(&mut self, program: GpuProgram)
        ensures
            final(self).programs@ == old(self).programs@.push(program),
            final(self).next_key == old(self).next_key,
    {
        self.programs.push(program);
    }

    /// Looks up a compiled program by name; shader sources are the backend's
    /// concern, so an unregistered name reports a failed program build.
    pub fn create_program(&self, name: &String) -> (r: Result<GpuProgram, FrameworkError>)
        ensures
            match r {
                Ok(p) => {
                    &&& spec_program_lookup(self.programs@, name@) matches Some(q)
                    &&& p.name == q.name
                    &&& p.uniforms@ == q.uniforms@
                    &&& p.blocks@ == q.blocks@
                },
                Err(e) => spec_program_lookup(self.programs@, name@) is None && e
                    == FrameworkError::ProgramNotFound,
            },
    {
        let n = self.programs.len();
        let mut i: usize = 0;
        proof {
            assert(self.programs@.skip(0) =~= self.programs@);
        }
        while i < n
            invariant
                n == self.programs.len(),
                i <= n,
                spec_program_lookup(self.programs@, name@) == spec_program_lookup(
                    self.programs@.skip(i as int),
                    name@,
                ),
            decreases n - i,
        {
            if self.programs[i].name == *name {
                proof {
                    assert(self.programs@.skip(i as int)[0] == self.programs@[i as int]);
                }
                return Ok(self.programs[i].clone());
            }
            proof {
                assert(self.programs@.skip(i as int).drop_first() =~= self.programs@.skip(
                    i as int + 1,
                ));
            }
            i = i + 1;
        }
        Err(FrameworkError::ProgramNotFound)
    }

    /// Allocates a render-target texture with fresh identity and zeroed
    /// contents.
    pub fn create_texture(&mut self, kind: GpuTextureKind, pixel_kind: PixelKind) -> (r: Result<
        GpuTexture,
        FrameworkError,
    >)
        requires
            old(self).next_key < u64::MAX,
        ensures
            final(self).programs@ == old(self).programs@,
            match r {
                Ok(t) => {
                    &&& t.wf()
                    &&& t.kind == kind
                    &&& t.pixel_kind == pixel_kind
                    &&& t.alive
                    &&& t.key == old(self).next_key
                    &&& t.active_face == CubeMapFace::PositiveX
                    &&& forall|p: int| 0 <= p < t.pixels.len() ==> t.pixels[p] == 0u32
                    &&& final(self).next_key == old(self).next_key + 1
                },
                Err(e) => {
                    &&& e == FrameworkError::InvalidTextureSize
                    &&& spec_kind_too_large(kind)
                    &&& final(self).next_key == old(self).next_key
                },
            },
    {
        let (w, h) = match kind {
            GpuTextureKind::Rectangle { width, height } => (width, height),
            GpuTextureKind::Cube { size } => (size, size),
        };
        if w > TEXTURE_DIM_LIMIT || h > TEXTURE_DIM_LIMIT {
            return Err(FrameworkError::InvalidTextureSize);
        }
        proof {
            assert(w * h <= 0x4000_0000) by (nonlinear_arith)
                requires
                    0 <= w <= TEXTURE_DIM_LIMIT,
                    0 <= h <= TEXTURE_DIM_LIMIT,
            ;
        }
        let area = w * h;
        let key = self.next_key;
        self.next_key = self.next_key + 1;
        Ok(
            GpuTexture {
                key,
                kind,
                pixel_kind,
                active_face: CubeMapFace::PositiveX,
                alive: true,
                pixels: vec![0u32; area],
            },
        )
    }
}

/// Whether a texture shape exceeds the addressable dimension limit.
pub open spec fn spec_kind_too_large(kind: GpuTextureKind) -> bool {
    match kind {
        GpuTextureKind::Rectangle { width, height } => width > TEXTURE_DIM_LIMIT || height
            > TEXTURE_DIM_LIMIT,
        GpuTextureKind::Cube { size } => size > TEXTURE_DIM_LIMIT,
    }
}

} // verus!
