//! Terrains: heightmap chunks with lazily regenerated surface geometry and
//! multi-layer texture blending masks.
//!
//! A terrain is a grid of chunks. Each chunk owns a heightmap, a set of
//! material layers, and surface data (vertices and triangles) that is
//! regenerated from the heightmap whenever the chunk is dirty. Heights are
//! fixed-point `i64` samples; texture coordinates are stored in thousandths
//! of a texture unit.

use vstd::prelude::*;

use crate::error::FrameworkError;
use crate::math::{sat64, sat_add, sat_mul, sat_sub, AxisAlignedBoundingBox, Mat4, Vector2, Vector3};

verus! {

/// Seed of the batch-id hash chain.
pub const BATCH_ID_SEED: u64 = 0xcbf29ce484222325;

/// Multiplier of the batch-id hash chain.
pub const BATCH_ID_PRIME: u64 = 0x100000001b3;

/// The shape of a scene texture.
#[derive(Clone, Copy, Debug, PartialEq, Eq, Structural)]
pub enum TextureKind {
    /// A plain two-dimensional image.
    Rectangle { width: u32, height: u32 },
}

/// The pixel format of a scene texture.
#[derive(Clone, Copy, Debug, PartialEq, Eq, Structural)]
pub enum TexturePixelKind {
    /// One byte per pixel.
    R8,
    /// Four bytes per pixel.
    RGBA8,
}

/// How many bytes a texture of the given shape and format occupies.
pub open spec fn spec_texture_byte_count(kind: TextureKind, pixel_kind: TexturePixelKind) -> int {
    let area = match kind {
        TextureKind::Rectangle { width, height } => width * height,
    };
    match pixel_kind {
        TexturePixelKind::R8 => area,
        TexturePixelKind::RGBA8 => 4 * area,
    }
}

/// A texture asset: an identity (used to group materials) plus its pixel
/// payload. The asset store that shares these lives outside the library.
#[derive(Debug)]
pub struct Texture {
    /// Identity of the texture asset.
    pub key: u64,
    /// Shape of the image.
    pub kind: TextureKind,
    /// Pixel format.
    pub pixel_kind: TexturePixelKind,
    /// The raw pixel bytes.
    pub bytes: Vec<u8>,
}

/// Whether two texture values agree on every field, the payload compared by
/// contents.
pub open spec fn spec_texture_eq(a: Texture, b: Texture) -> bool {
    &&& a.key == b.key
    &&& a.kind == b.kind
    &&& a.pixel_kind == b.pixel_kind
    &&& a.bytes@ == b.bytes@
}

/// Whether two optional textures agree.
pub open spec fn spec_opt_texture_eq(a: Option<Texture>, b: Option<Texture>) -> bool {
    match (a, b) {
        (None, None) => true,
        (Some(x), Some(y)) => spec_texture_eq(x, y),
        _ => false,
    }
}

impl Clone for Texture {
    fn clone(&self) -> (r: Self)
        ensures
            spec_texture_eq(r, *self),
    {
        let r = Texture {
            key: self.key,
            kind: self.kind,
            pixel_kind: self.pixel_kind,
            bytes: self.bytes.clone(),
        };
        proof {
            assert(r.bytes@ =~= self.bytes@);
        }
        r
    }
}

impl Texture {
    /// Builds a texture from raw bytes; rejects a payload whose length does
    /// not match the shape and format.
    pub fn from_bytes(kind: TextureKind, pixel_kind: TexturePixelKind, bytes: Vec<u8>, key: u64)
        -> (r: Option<Texture>)
        ensures
            bytes.len() == spec_texture_byte_count(kind, pixel_kind) ==> (r matches Some(t) && t
                == (Texture { key, kind, pixel_kind, bytes })),
            bytes.len() != spec_texture_byte_count(kind, pixel_kind) ==> r is None,
    {
        let TextureKind::Rectangle { width, height } = kind;
        proof {
            assert((width as int) * (height as int) <= 0xffff_ffff * 0xffff_ffff)
                by (nonlinear_arith)
                requires
                    0 <= width <= 0xffff_ffff,
                    0 <= height <= 0xffff_ffff,
            ;
        }
        let area: u128 = (width as u128) * (height as u128);
        let expected: u128 = match pixel_kind {
            TexturePixelKind::R8 => area,
            TexturePixelKind::RGBA8 => 4 * area,
        };
        if (bytes.len() as u128) != expected {
            return None;
        }
        Some(Texture { key, kind, pixel_kind, bytes })
    }
}

/// Duplicates an optional texture by contents.
fn clone_opt_texture(t: &Option<Texture>) -> (r: Option<Texture>)
    ensures
        spec_opt_texture_eq(r, *t),
{
    match t {
        Some(tex) => Some(tex.clone()),
        None => None,
    }
}

/// One material layer of a terrain chunk: up to five shared material
/// textures plus a per-chunk blending mask.
#[derive(Debug, Default)]
pub struct Layer {
    pub diffuse_texture: Option<Texture>,
    pub normal_texture: Option<Texture>,
    pub specular_texture: Option<Texture>,
    pub roughness_texture: Option<Texture>,
    pub height_texture: Option<Texture>,
    /// The blending mask; unlike the material textures it varies per chunk.
    pub mask: Option<Texture>,
}

/// Whether two layers agree on every texture, compared by contents.
pub open spec fn spec_layer_eq(a: Layer, b: Layer) -> bool {
    &&& spec_opt_texture_eq(a.diffuse_texture, b.diffuse_texture)
    &&& spec_opt_texture_eq(a.normal_texture, b.normal_texture)
    &&& spec_opt_texture_eq(a.specular_texture, b.specular_texture)
    &&& spec_opt_texture_eq(a.roughness_texture, b.roughness_texture)
    &&& spec_opt_texture_eq(a.height_texture, b.height_texture)
    &&& spec_opt_texture_eq(a.mask, b.mask)
}

impl Clone for Layer {
    fn clone(&self) -> (r: Self)
        ensures
            spec_layer_eq(r, *self),
    {
        Layer {
            diffuse_texture: clone_opt_texture(&self.diffuse_texture),
            normal_texture: clone_opt_texture(&self.normal_texture),
            specular_texture: clone_opt_texture(&self.specular_texture),
            roughness_texture: clone_opt_texture(&self.roughness_texture),
            height_texture: clone_opt_texture(&self.height_texture),
            mask: clone_opt_texture(&self.mask),
        }
    }
}

/// One step of the batch-id hash chain: mix a word into the accumulator.
pub open spec fn spec_mix(h: u64, x: u64) -> u64 {
    (((h ^ x) * BATCH_ID_PRIME) % 0x1_0000_0000_0000_0000) as u64
}

/// Mixes a texture's identity into the accumulator; an absent texture
/// leaves it unchanged.
pub open spec fn spec_mix_opt(h: u64, t: Option<Texture>) -> u64 {
    match t {
        None => h,
        Some(tex) => spec_mix(h, tex.key),
    }
}

/// The batch id of a layer under a caller-supplied key: the hash chain over
/// the key and the identities of the five material textures, in field
/// order. The mask is deliberately excluded, so that chunks sharing
/// materials batch together even though each has its own mask.
pub open spec fn spec_batch_id(l: Layer, data_key: u64) -> u64 {
    spec_mix_opt(
        spec_mix_opt(
            spec_mix_opt(
                spec_mix_opt(
                    spec_mix_opt(spec_mix(BATCH_ID_SEED, data_key), l.diffuse_texture),
                    l.normal_texture,
                ),
                l.specular_texture,
            ),
            l.roughness_texture,
        ),
        l.height_texture,
    )
}

/// Exec twin of [`spec_mix`].
fn mix(h: u64, x: u64) -> (r: u64)
    ensures
        r == spec_mix(h, x),
{
    let t: u128 = (h ^ x) as u128;
    ((t * (BATCH_ID_PRIME as u128)) % 0x1_0000_0000_0000_0000) as u64
}

impl Layer {
    /// A deterministic hash grouping chunks that share the same caller key
    /// and material textures. Layers that differ only in their mask get the
    /// same id.
    pub fn batch_id(&self, data_key: u64) -> (r: u64)
        ensures
            r == spec_batch_id(*self, data_key),
    {
        let mut h = mix(BATCH_ID_SEED, data_key);
        if let Some(t) = &self.diffuse_texture {
            h = mix(h, t.key);
        }
        if let Some(t) = &self.normal_texture {
            h = mix(h, t.key);
        }
        if let Some(t) = &self.specular_texture {
            h = mix(h, t.key);
        }
        if let Some(t) = &self.roughness_texture {
            h = mix(h, t.key);
        }
        if let Some(t) = &self.height_texture {
            h = mix(h, t.key);
        }
        h
    }
}

/// Two layers with the same material textures have the same batch id under
/// every key, whatever their masks: a mask-only difference never changes
/// the id.
pub proof fn lemma_batch_id_ignores_mask(a: Layer, b: Layer, data_key: u64)
    requires
        a.diffuse_texture == b.diffuse_texture,
        a.normal_texture == b.normal_texture,
        a.specular_texture == b.specular_texture,
        a.roughness_texture == b.roughness_texture,
        a.height_texture == b.height_texture,
    ensures
        spec_batch_id(a, data_key) == spec_batch_id(b, data_key),
{
}

/// One vertex of a chunk's generated surface. Texture coordinates are in
/// thousandths of a texture unit; normals and tangents are left for the
/// float pipeline outside the model.
#[derive(Clone, Copy, Debug, PartialEq, Eq, Structural)]
pub struct StaticVertex {
    pub position: Vector3,
    pub tex_coord: Vector2,
    pub normal: Vector3,
    pub tangent: Vector3,
}

/// One indexed triangle of a chunk's generated surface.
#[derive(Clone, Copy, Debug, PartialEq, Eq, Structural)]
pub struct TriangleDefinition {
    pub a: u32,
    pub b: u32,
    pub c: u32,
}

/// The generated surface of a chunk: a vertex buffer and an index buffer,
/// regenerated from the heightmap and never persisted.
#[derive(Debug)]
pub struct SurfaceData {
    pub vertex_buffer: Vec<StaticVertex>,
    pub triangles: Vec<TriangleDefinition>,
}

impl SurfaceData {
    /// An empty surface.
    pub fn new() -> (r: SurfaceData)
        ensures
            r.vertex_buffer@ == Seq::<StaticVertex>::empty(),
            r.triangles@ == Seq::<TriangleDefinition>::empty(),
    {
        SurfaceData { vertex_buffer: Vec::new(), triangles: Vec::new() }
    }

    /// Drops all vertices and triangles.
    pub fn clear(&mut self)
        ensures
            final(self).vertex_buffer@ == Seq::<StaticVertex>::empty(),
            final(self).triangles@ == Seq::<TriangleDefinition>::empty(),
    {
        self.vertex_buffer.clear();
        self.triangles.clear();
    }
}

impl Clone for SurfaceData {
    fn clone(&self) -> (r: Self)
        ensures
            r.vertex_buffer@ == self.vertex_buffer@,
            r.triangles@ == self.triangles@,
    {
        let r = SurfaceData {
            vertex_buffer: self.vertex_buffer.clone(),
            triangles: self.triangles.clone(),
        };
        proof {
            assert(r.vertex_buffer@ =~= self.vertex_buffer@);
            assert(r.triangles@ =~= self.triangles@);
        }
        r
    }
}

/// Componentwise saturating difference of two vectors.
pub open spec fn spec_vec_sub(a: Vector3, b: Vector3) -> Vector3 {
    Vector3 {
        x: sat64(a.x - b.x) as i64,
        y: sat64(a.y - b.y) as i64,
        z: sat64(a.z - b.z) as i64,
    }
}

/// Saturating cross product of two vectors.
pub open spec fn spec_cross(a: Vector3, b: Vector3) -> Vector3 {
    Vector3 {
        x: sat64(sat64(a.y * b.z) - sat64(a.z * b.y)) as i64,
        y: sat64(sat64(a.z * b.x) - sat64(a.x * b.z)) as i64,
        z: sat64(sat64(a.x * b.y) - sat64(a.y * b.x)) as i64,
    }
}

/// Exec twin of [`spec_vec_sub`].
fn vec_sub(a: Vector3, b: Vector3) -> (r: Vector3)
    ensures
        r == spec_vec_sub(a, b),
{
    Vector3 { x: sat_sub(a.x, b.x), y: sat_sub(a.y, b.y), z: sat_sub(a.z, b.z) }
}

/// Exec twin of [`spec_cross`].
fn cross(a: Vector3, b: Vector3) -> (r: Vector3)
    ensures
        r == spec_cross(a, b),
{
    Vector3 {
        x: sat_sub(sat_mul(a.y, b.z), sat_mul(a.z, b.y)),
        y: sat_sub(sat_mul(a.z, b.x), sat_mul(a.x, b.z)),
        z: sat_sub(sat_mul(a.x, b.y), sat_mul(a.y, b.x)),
    }
}

/// The unnormalized face normal of a triangle over a vertex buffer: the
/// cross product of its two edge vectors. Scaling it to unit length needs
/// the float pipeline and stays outside the model.
pub open spec fn spec_face_normal(vs: Seq<StaticVertex>, t: TriangleDefinition) -> Vector3 {
    spec_cross(
        spec_vec_sub(vs[t.b as int].position, vs[t.a as int].position),
        spec_vec_sub(vs[t.c as int].position, vs[t.a as int].position),
    )
}

/// The normal vertex `v` carries after the first `upto` triangles have
/// assigned their face normals: the last triangle among them that touches
/// `v` wins; a vertex no triangle touches keeps its stored normal.
pub open spec fn spec_flat_normal(
    vs: Seq<StaticVertex>,
    ts: Seq<TriangleDefinition>,
    upto: int,
    v: int,
) -> Vector3
    decreases upto,
{
    if upto <= 0 {
        vs[v].normal
    } else {
        let t = ts[upto - 1];
        if t.a == v || t.b == v || t.c == v {
            spec_face_normal(vs, t)
        } else {
            spec_flat_normal(vs, ts, upto - 1, v)
        }
    }
}

/// A vertex buffer after normal recomputation over the triangle soup `ts`.
pub open spec fn spec_surface_with_normals(
    vs: Seq<StaticVertex>,
    ts: Seq<TriangleDefinition>,
) -> Seq<StaticVertex> {
    Seq::new(
        vs.len(),
        |v: int| StaticVertex { normal: spec_flat_normal(vs, ts, ts.len() as int, v), ..vs[v] },
    )
}

/// Whether every index of every triangle points into a vertex buffer of
/// length `n`.
pub open spec fn spec_triangles_in_bounds(ts: Seq<TriangleDefinition>, n: int) -> bool {
    forall|k: int| 0 <= k < ts.len() ==> (#[trigger] ts[k]).a < n && ts[k].b < n && ts[k].c < n
}

impl SurfaceData {
    /// Recomputes the vertex normals from the finished triangle soup: every
    /// triangle assigns its unnormalized face normal to its three vertices.
    /// A triangle indexing outside the vertex buffer is reported as an
    /// error, with nothing changed.
    #[verifier::loop_isolation(false)]
    pub fn calculate_normals(&mut self) -> (r: Result<(), FrameworkError>)
        ensures
            final(self).triangles@ == old(self).triangles@,
            if spec_triangles_in_bounds(old(self).triangles@, old(self).vertex_buffer@.len() as int) {
                r is Ok && final(self).vertex_buffer@ == spec_surface_with_normals(
                    old(self).vertex_buffer@,
                    old(self).triangles@,
                )
            } else {
                r == Err::<(), FrameworkError>(FrameworkError::InvalidElementRange)
                    && final(self).vertex_buffer@ == old(self).vertex_buffer@
            },
    {
        let n = self.vertex_buffer.len();
        let tn = self.triangles.len();
        let mut k: usize = 0;
        while k < tn
            invariant
                k <= tn,
                *self == *old(self),
                forall|j: int|
                    0 <= j < k ==> (#[trigger] self.triangles@[j]).a < n && self.triangles@[j].b
                        < n && self.triangles@[j].c < n,
            decreases tn - k,
        {
            let t = self.triangles[k];
            if t.a as usize >= n || t.b as usize >= n || t.c as usize >= n {
                return Err(FrameworkError::InvalidElementRange);
            }
            k = k + 1;
        }
        let ghost vs0 = self.vertex_buffer@;
        let ghost ts = self.triangles@;
        let mut k: usize = 0;
        while k < tn
            invariant
                k <= tn,
                self.triangles@ == ts,
                spec_triangles_in_bounds(ts, n as int),
                self.vertex_buffer@.len() == n,
                n == vs0.len(),
                forall|v: int|
                    0 <= v < n ==> #[trigger] self.vertex_buffer@[v] == (StaticVertex {
                        normal: spec_flat_normal(vs0, ts, k as int, v),
                        ..vs0[v]
                    }),
            decreases tn - k,
        {
            let t = self.triangles[k];
            let p0 = self.vertex_buffer[t.a as usize].position;
            let p1 = self.vertex_buffer[t.b as usize].position;
            let p2 = self.vertex_buffer[t.c as usize].position;
            let normal = cross(vec_sub(p1, p0), vec_sub(p2, p0));
            proof {
                assert(p0 == vs0[t.a as int].position);
                assert(normal == spec_face_normal(vs0, t));
            }
            let ghost pre = self.vertex_buffer@;
            let va = &mut self.vertex_buffer[t.a as usize];
            va.normal = normal;
            let vb = &mut self.vertex_buffer[t.b as usize];
            vb.normal = normal;
            let vc = &mut self.vertex_buffer[t.c as usize];
            vc.normal = normal;
            proof {
                assert forall|v: int| 0 <= v < n implies #[trigger] self.vertex_buffer@[v]
                    == (StaticVertex {
                    normal: spec_flat_normal(vs0, ts, k as int + 1, v),
                    ..vs0[v]
                }) by {
                    if t.a == v || t.b == v || t.c == v {
                        assert(self.vertex_buffer@[v].normal == normal);
                        assert(pre[v].position == vs0[v].position);
                    } else {
                        assert(self.vertex_buffer@[v] == pre[v]);
                    }
                }
            }
            k = k + 1;
        }
        proof {
            assert(self.vertex_buffer@ =~= spec_surface_with_normals(vs0, ts));
        }
        Ok(())
    }
}

/// One rectangular tile of a terrain: a heightmap, material layers and the
/// surface data generated from them.
#[derive(Debug)]
pub struct Chunk {
    /// Height samples, row major, `width_point_count * length_point_count`
    /// of them.
    pub heightmap: Vec<i64>,
    /// The material layers blended over the chunk.
    pub layers: Vec<Layer>,
    /// World-space origin of the chunk.
    pub position: Vector3,
    /// World-space extent along X.
    pub width: i64,
    /// World-space extent along Z.
    pub length: i64,
    /// Number of height samples along X; always even.
    pub width_point_count: u32,
    /// Number of height samples along Z; always even.
    pub length_point_count: u32,
    /// The generated surface; regenerated by [`Chunk::update`], never
    /// persisted.
    pub surface_data: SurfaceData,
    /// Whether the surface data is out of date.
    pub dirty: bool,
}

impl Chunk {
    /// The shape invariant of a chunk: even point counts within the
    /// supported grid size, a full heightmap, and bounded extents and
    /// origin.
    pub open spec fn wf(self) -> bool {
        &&& 2 <= self.width_point_count <= 0x8000
        &&& 2 <= self.length_point_count <= 0x8000
        &&& self.width_point_count % 2 == 0
        &&& self.length_point_count % 2 == 0
        &&& self.heightmap.len() == self.width_point_count * self.length_point_count
        &&& 0 <= self.width <= 0x8000_0000
        &&& 0 <= self.length <= 0x8000_0000
        &&& -0x4000_0000_0000 <= self.position.x <= 0x4000_0000_0000
        &&& -0x4000_0000_0000 <= self.position.z <= 0x4000_0000_0000
    }

    /// World-space X of height sample column `x`.
    pub open spec fn spec_sample_x(self, x: int) -> int {
        sat64(self.position.x + (x * self.width) / (self.width_point_count - 1))
    }

    /// World-space Z of height sample row `z`.
    pub open spec fn spec_sample_z(self, z: int) -> int {
        sat64(self.position.z + (z * self.length) / (self.length_point_count - 1))
    }
}

/// The vertex the surface generator places at sample `(z, x)` of a chunk:
/// positions spread bilinearly across the chunk's extents, the height added
/// to the chunk origin's Y, and texture coordinates normalized over the
/// grid and scaled by 10 (stored in thousandths).
pub open spec fn spec_chunk_vertex(c: Chunk, z: int, x: int) -> StaticVertex {
    let wpc = c.width_point_count as int;
    let lpc = c.length_point_count as int;
    StaticVertex {
        position: Vector3 {
            x: c.spec_sample_x(x) as i64,
            y: sat64(c.position.y + c.heightmap@[z * wpc + x]) as i64,
            z: c.spec_sample_z(z) as i64,
        },
        tex_coord: Vector2 {
            x: (10000 * x / (wpc - 1)) as i64,
            y: (10000 * z / (lpc - 1)) as i64,
        },
        normal: Vector3 { x: 0, y: 0, z: 0 },
        tangent: Vector3 { x: 0, y: 0, z: 0 },
    }
}

/// The full vertex grid of a chunk, row major.
pub open spec fn spec_chunk_vertices(c: Chunk) -> Seq<StaticVertex> {
    let wpc = c.width_point_count as int;
    Seq::new(
        (c.length_point_count * c.width_point_count) as nat,
        |i: int| spec_chunk_vertex(c, i / wpc, i % wpc),
    )
}

/// Triangle `t` of a chunk's index buffer: two triangles per quad cell,
/// split along the low-left/high-right diagonal.
pub open spec fn spec_chunk_triangle(c: Chunk, t: int) -> TriangleDefinition {
    let wpc = c.width_point_count as int;
    let q = t / 2;
    let z = q / (wpc - 1);
    let x = q % (wpc - 1);
    let i0 = z * wpc + x;
    let i1 = (z + 1) * wpc + x;
    let i2 = (z + 1) * wpc + x + 1;
    let i3 = z * wpc + x + 1;
    if t % 2 == 0 {
        TriangleDefinition { a: i0 as u32, b: i1 as u32, c: i2 as u32 }
    } else {
        TriangleDefinition { a: i2 as u32, b: i3 as u32, c: i0 as u32 }
    }
}

/// The full index buffer of a chunk: two triangles for each of the
/// `(length_point_count - 1) * (width_point_count - 1)` quad cells.
pub open spec fn spec_chunk_triangles(c: Chunk) -> Seq<TriangleDefinition> {
    Seq::new(
        (2 * ((c.length_point_count - 1) * (c.width_point_count - 1))) as nat,
        |t: int| spec_chunk_triangle(c, t),
    )
}

/// How [`Chunk::update`] transforms a chunk: a clean chunk is left alone; a
/// dirty chunk gets its surface regenerated from the heightmap and its
/// dirty flag cleared, everything else unchanged.
pub open spec fn spec_chunk_update_rel(c_old: Chunk, c_new: Chunk) -> bool {
    if !c_old.dirty {
        c_new == c_old
    } else {
        &&& c_new.heightmap == c_old.heightmap
        &&& c_new.layers == c_old.layers
        &&& c_new.position == c_old.position
        &&& c_new.width == c_old.width
        &&& c_new.length == c_old.length
        &&& c_new.width_point_count == c_old.width_point_count
        &&& c_new.length_point_count == c_old.length_point_count
        &&& c_new.surface_data.vertex_buffer@ == spec_surface_with_normals(
            spec_chunk_vertices(c_old),
            spec_chunk_triangles(c_old),
        )
        &&& c_new.surface_data.triangles@ == spec_chunk_triangles(c_old)
        &&& !c_new.dirty
    }
}

/// Updating a chunk twice is the same as updating it once: the second pass
/// finds the chunk clean and leaves the buffers bit-identical.
pub proof fn lemma_chunk_update_idempotent(a: Chunk, b: Chunk, c: Chunk)
    requires
        a.dirty,
        spec_chunk_update_rel(a, b),
        spec_chunk_update_rel(b, c),
    ensures
        c == b,
{
}

impl Chunk {
    /// Regenerates the surface data from the heightmap if the chunk is
    /// dirty, and clears the flag: the vertex grid is laid out row major
    /// with bilinear placement across the extents, then two triangles per
    /// quad cell, and the vertex normals are recomputed from the finished
    /// triangle soup. Calling it again without touching the heightmap is a
    /// no-op. Scaling normals to unit length, and the tangents derived
    /// from it, are the float pipeline's work outside the model.
    #[verifier::loop_isolation(false)]
    pub fn update(&mut self)
        requires
            old(self).wf(),
        ensures
            final(self).wf(),
            spec_chunk_update_rel(*old(self), *final(self)),
    {
        if !self.dirty {
            return ;
        }
        self.surface_data.clear();
        let wpc = self.width_point_count as usize;
        let lpc = self.length_point_count as usize;
        let mut z: usize = 0;
        while z < lpc
            invariant
                z <= lpc,
                *self == (Chunk { surface_data: self.surface_data, ..*old(self) }),
                self.surface_data.triangles@ == Seq::<TriangleDefinition>::empty(),
                self.surface_data.vertex_buffer@.len() == z * wpc,
                forall|k: int|
                    0 <= k < z * wpc ==> #[trigger] self.surface_data.vertex_buffer@[k]
                        == spec_chunk_vertices(*old(self))[k],
            decreases lpc - z,
        {
            let mut x: usize = 0;
            while x < wpc
                invariant
                    z < lpc,
                    x <= wpc,
                    *self == (Chunk { surface_data: self.surface_data, ..*old(self) }),
                    self.surface_data.triangles@ == Seq::<TriangleDefinition>::empty(),
                    self.surface_data.vertex_buffer@.len() == z * wpc + x,
                    forall|k: int|
                        0 <= k < z * wpc + x ==> #[trigger] self.surface_data.vertex_buffer@[k]
                            == spec_chunk_vertices(*old(self))[k],
                decreases wpc - x,
            {
                proof {
                    assert(z * wpc + x < lpc * wpc) by (nonlinear_arith)
                        requires
                            z < lpc,
                            x < wpc,
                            0 <= z,
                            0 <= x,
                    ;
                    vstd::arithmetic::div_mod::lemma_fundamental_div_mod_converse(
                        (z * wpc + x) as int,
                        wpc as int,
                        z as int,
                        x as int,
                    );
                    assert((x as int) * self.width <= 0x8000 * 0x8000_0000) by (nonlinear_arith)
                        requires
                            0 <= x <= 0x8000,
                            0 <= self.width <= 0x8000_0000,
                    ;
                    assert((z as int) * self.length <= 0x8000 * 0x8000_0000) by (nonlinear_arith)
                        requires
                            0 <= z <= 0x8000,
                            0 <= self.length <= 0x8000_0000,
                    ;
                }
                let index = z * wpc + x;
                let height = self.heightmap[index];
                let px = sat_add(self.position.x, (x as i64) * self.width / (wpc as i64 - 1));
                let py = sat_add(self.position.y, height);
                let pz = sat_add(self.position.z, (z as i64) * self.length / (lpc as i64 - 1));
                let tx = 10000 * (x as i64) / (wpc as i64 - 1);
                let ty = 10000 * (z as i64) / (lpc as i64 - 1);
                let vertex = StaticVertex {
                    position: Vector3 { x: px, y: py, z: pz },
                    tex_coord: Vector2 { x: tx, y: ty },
                    normal: Vector3 { x: 0, y: 0, z: 0 },
                    tangent: Vector3 { x: 0, y: 0, z: 0 },
                };
                self.surface_data.vertex_buffer.push(vertex);
                x = x + 1;
            }
            proof {
                assert(z * wpc + wpc == (z + 1) * wpc) by (nonlinear_arith);
            }
            z = z + 1;
        }
        proof {
            assert(self.surface_data.vertex_buffer@ =~= spec_chunk_vertices(*old(self)));
        }
        let mut z: usize = 0;
        while z < lpc - 1
            invariant
                z <= lpc - 1,
                *self == (Chunk { surface_data: self.surface_data, ..*old(self) }),
                self.surface_data.vertex_buffer@ == spec_chunk_vertices(*old(self)),
                self.surface_data.triangles@.len() == 2 * (z * (wpc - 1)),
                forall|k: int|
                    0 <= k < 2 * (z * (wpc - 1)) ==> #[trigger] self.surface_data.triangles@[k]
                        == spec_chunk_triangles(*old(self))[k],
                spec_triangles_in_bounds(self.surface_data.triangles@, (lpc * wpc) as int),
            decreases lpc - z,
        {
            let z_next = z + 1;
            let mut x: usize = 0;
            while x < wpc - 1
                invariant
                    z < lpc - 1,
                    z_next == z + 1,
                    x <= wpc - 1,
                    *self == (Chunk { surface_data: self.surface_data, ..*old(self) }),
                    self.surface_data.vertex_buffer@ == spec_chunk_vertices(*old(self)),
                    self.surface_data.triangles@.len() == 2 * (z * (wpc - 1) + x),
                    forall|k: int|
                        0 <= k < 2 * (z * (wpc - 1) + x) ==> #[trigger] self.surface_data.triangles@[k]
                            == spec_chunk_triangles(*old(self))[k],
                    spec_triangles_in_bounds(self.surface_data.triangles@, (lpc * wpc) as int),
                decreases wpc - x,
            {
                let x_next = x + 1;
                proof {
                    let q = (z * (wpc - 1) + x) as int;
                    assert(q < (lpc - 1) * (wpc - 1)) by (nonlinear_arith)
                        requires
                            q == z * (wpc - 1) + x,
                            0 <= z < lpc - 1,
                            0 <= x < wpc - 1,
                    ;
                    assert((2 * q) / 2 == q && (2 * q) % 2 == 0 && (2 * q + 1) / 2 == q && (2 * q
                        + 1) % 2 == 1);
                    vstd::arithmetic::div_mod::lemma_fundamental_div_mod_converse(
                        q,
                        (wpc - 1) as int,
                        z as int,
                        x as int,
                    );
                    assert((z + 1) * wpc + x + 1 < 0x4000_0001) by (nonlinear_arith)
                        requires
                            0 <= z < lpc - 1,
                            0 <= x < wpc - 1,
                            wpc <= 0x8000,
                            lpc <= 0x8000,
                    ;
                    assert((z + 1) * wpc + x + 1 < lpc * wpc) by (nonlinear_arith)
                        requires
                            0 <= z < lpc - 1,
                            0 <= x < wpc - 1,
                            2 <= wpc,
                            2 <= lpc,
                    ;
                    assert(z * wpc + x <= (z + 1) * wpc + x) by (nonlinear_arith)
                        requires
                            0 <= z,
                            0 <= wpc,
                            0 <= x,
                    ;
                }
                let i0 = (z as u32) * (wpc as u32) + (x as u32);
                let i1 = (z_next as u32) * (wpc as u32) + (x as u32);
                let i2 = (z_next as u32) * (wpc as u32) + (x_next as u32);
                let i3 = (z as u32) * (wpc as u32) + (x_next as u32);
                self.surface_data.triangles.push(TriangleDefinition { a: i0, b: i1, c: i2 });
                self.surface_data.triangles.push(TriangleDefinition { a: i2, b: i3, c: i0 });
                x = x + 1;
            }
            proof {
                assert(z * (wpc - 1) + (wpc - 1) == (z + 1) * (wpc - 1)) by (nonlinear_arith);
            }
            z = z + 1;
        }
        proof {
            assert(self.surface_data.triangles@ =~= spec_chunk_triangles(*old(self)));
        }
        match self.surface_data.calculate_normals() {
            Ok(_) => {},
            Err(_) => {
                proof {
                    assert(false);
                }
            },
        }
        self.dirty = false;
    }

    /// Returns the material layers of the chunk.
    pub fn layers(&self) -> (r: &Vec<Layer>)
        ensures
            r == &self.layers,
    {
        &self.layers
    }

    /// Returns the generated surface data.
    pub fn data(&self) -> (r: &SurfaceData)
        ensures
            r == &self.surface_data,
    {
        &self.surface_data
    }

    /// Returns the height samples, row major.
    pub fn heightmap(&self) -> (r: &Vec<i64>)
        ensures
            r == &self.heightmap,
    {
        &self.heightmap
    }

    /// Number of height samples along X.
    pub fn width_point_count(&self) -> (r: u32)
        ensures
            r == self.width_point_count,
    {
        self.width_point_count
    }

    /// Number of height samples along Z.
    pub fn length_point_count(&self) -> (r: u32)
        ensures
            r == self.length_point_count,
    {
        self.length_point_count
    }
}

impl Clone for Chunk {
    fn clone(&self) -> (r: Self)
        ensures
            r.heightmap@ == self.heightmap@,
            r.layers@.len() == self.layers@.len(),
            forall|i: int|
                0 <= i < self.layers@.len() ==> spec_layer_eq(
                    #[trigger] r.layers@[i],
                    self.layers@[i],
                ),
            r.position == self.position,
            r.width == self.width,
            r.length == self.length,
            r.width_point_count == self.width_point_count,
            r.length_point_count == self.length_point_count,
            r.surface_data.vertex_buffer@ == self.surface_data.vertex_buffer@,
            r.surface_data.triangles@ == self.surface_data.triangles@,
            r.dirty == self.dirty,
            self.wf() ==> r.wf(),
    {
        let heightmap = self.heightmap.clone();
        let layers = self.layers.clone();
        proof {
            assert(heightmap@ =~= self.heightmap@);
        }
        Chunk {
            heightmap,
            layers,
            position: self.position,
            width: self.width,
            length: self.length,
            width_point_count: self.width_point_count,
            length_point_count: self.length_point_count,
            surface_data: self.surface_data.clone(),
            dirty: self.dirty,
        }
    }
}

/// Whether two chunk values agree on every field, collections compared by
/// contents.
pub open spec fn spec_chunk_eq(a: Chunk, b: Chunk) -> bool {
    &&& a.heightmap@ == b.heightmap@
    &&& a.layers@.len() == b.layers@.len()
    &&& forall|i: int| 0 <= i < b.layers@.len() ==> spec_layer_eq(#[trigger] a.layers@[i], b.layers@[i])
    &&& a.position == b.position
    &&& a.width == b.width
    &&& a.length == b.length
    &&& a.width_point_count == b.width_point_count
    &&& a.length_point_count == b.length_point_count
    &&& a.surface_data.vertex_buffer@ == b.surface_data.vertex_buffer@
    &&& a.surface_data.triangles@ == b.surface_data.triangles@
    &&& a.dirty == b.dirty
}

/// The base part of a terrain node: the world transform the scene graph
/// derived for it.
#[derive(Clone, Copy, Debug, PartialEq, Eq, Structural)]
pub struct Base {
    /// The node's world transform, written by the hierarchy update.
    pub global_transform: Mat4,
}

impl Base {
    /// A base at the world origin.
    pub fn new() -> (r: Base)
        ensures
            r.global_transform == Mat4::spec_identity(),
    {
        Base { global_transform: Mat4::identity() }
    }

    /// The node's position in world space.
    pub fn global_position(&self) -> (r: Vector3)
        ensures
            r == self.global_transform.spec_position(),
    {
        self.global_transform.position()
    }
}

/// Builds the base part of a node.
#[derive(Clone, Copy, Debug)]
pub struct BaseBuilder {}

impl BaseBuilder {
    /// Starts a base builder.
    pub fn new() -> (r: BaseBuilder) {
        BaseBuilder {  }
    }

    /// Builds a base at the world origin.
    pub fn build_base(self) -> (r: Base)
        ensures
            r.global_transform == Mat4::spec_identity(),
    {
        Base::new()
    }
}

/// The larger of two integers.
pub open spec fn spec_imax(a: int, b: int) -> int {
    if a > b {
        a
    } else {
        b
    }
}

/// The largest sample of a height sequence; the minimum representable
/// height when there is none.
pub open spec fn spec_seq_max(s: Seq<i64>) -> int
    decreases s.len(),
{
    if s.len() == 0 {
        i64::MIN as int
    } else {
        spec_imax(spec_seq_max(s.drop_last()), s.last() as int)
    }
}

/// The largest height sample across a sequence of chunks.
pub open spec fn spec_max_height(chunks: Seq<Chunk>) -> int
    decreases chunks.len(),
{
    if chunks.len() == 0 {
        i64::MIN as int
    } else {
        spec_imax(spec_max_height(chunks.drop_last()), spec_seq_max(chunks.last().heightmap@))
    }
}

/// Chunk sequences with pointwise equal heightmaps have the same maximum
/// height.
proof fn lemma_max_height_congruent(a: Seq<Chunk>, b: Seq<Chunk>)
    requires
        a.len() == b.len(),
        forall|i: int| 0 <= i < a.len() ==> (#[trigger] a[i]).heightmap@ == b[i].heightmap@,
    ensures
        spec_max_height(a) == spec_max_height(b),
    decreases a.len(),
{
    if a.len() > 0 {
        assert(a.drop_last().len() == b.drop_last().len());
        lemma_max_height_congruent(a.drop_last(), b.drop_last());
    }
}

/// A terrain node: a grid of heightmap chunks with a lazily recomputed
/// bounding box.
#[derive(Debug)]
pub struct Terrain {
    /// World-space extent along X.
    pub width: i64,
    /// World-space extent along Z.
    pub length: i64,
    /// The node base carrying the terrain's world transform.
    pub base: Base,
    /// The chunks, row major over the chunk grid.
    pub chunks: Vec<Chunk>,
    /// Whether the cached bounding box is out of date.
    pub bounding_box_dirty: bool,
    /// The cached bounding box; meaningful only when not dirty.
    pub bounding_box: AxisAlignedBoundingBox,
}

/// The bounding box a terrain's current state describes: it hangs off the
/// terrain's world position and spans the extents, its top at the world Y
/// plus the largest height sample across all chunks.
pub open spec fn spec_bounding_box(t: Terrain) -> AxisAlignedBoundingBox {
    let p = t.base.global_transform.spec_position();
    AxisAlignedBoundingBox {
        min: p,
        max: Vector3 {
            x: sat64(p.x + t.width) as i64,
            y: sat64(p.y + spec_max_height(t.chunks@)) as i64,
            z: sat64(p.z + t.length) as i64,
        },
    }
}

impl Terrain {
    /// The shape invariant of a terrain: well-formed chunks, nonnegative
    /// extents, and a cached bounding box that is accurate whenever it is
    /// marked clean.
    pub open spec fn wf(self) -> bool {
        &&& forall|i: int| 0 <= i < self.chunks.len() ==> (#[trigger] self.chunks[i]).wf()
        &&& 0 <= self.width
        &&& 0 <= self.length
        &&& !self.bounding_box_dirty ==> self.bounding_box == spec_bounding_box(self)
    }

    /// World-space extent along X.
    pub fn width(&self) -> (r: i64)
        ensures
            r == self.width,
    {
        self.width
    }

    /// World-space extent along Z.
    pub fn length(&self) -> (r: i64)
        ensures
            r == self.length,
    {
        self.length
    }

    /// Returns the chunks, row major over the chunk grid.
    pub fn chunks_ref(&self) -> (r: &Vec<Chunk>)
        ensures
            r == &self.chunks,
    {
        &self.chunks
    }

    /// Returns the node base.
    pub fn base(&self) -> (r: &Base)
        ensures
            r == &self.base,
    {
        &self.base
    }

    /// Returns the terrain's position in world space.
    pub fn global_position(&self) -> (r: Vector3)
        ensures
            r == self.base.global_transform.spec_position(),
    {
        self.base.global_position()
    }

    /// Places the terrain in the world. The cached bounding box hangs off
    /// the world position, so it is invalidated.
    pub fn set_global_transform(&mut self, m: Mat4)
        ensures
            *final(self) == (Terrain {
                base: Base { global_transform: m },
                bounding_box_dirty: true,
                ..*old(self)
            }),
    {
        self.base.global_transform = m;
        self.bounding_box_dirty = true;
    }

    /// Copies the terrain; the copy starts with a dirty bounding-box cache.
    #[verifier::loop_isolation(false)]
    pub fn raw_copy(&self) -> (r: Terrain)
        requires
            self.wf(),
        ensures
            r.wf(),
            r.width == self.width,
            r.length == self.length,
            r.base == self.base,
            r.chunks@.len() == self.chunks@.len(),
            forall|i: int|
                0 <= i < self.chunks@.len() ==> spec_chunk_eq(
                    #[trigger] r.chunks@[i],
                    self.chunks@[i],
                ),
            r.bounding_box_dirty,
    {
        let n = self.chunks.len();
        let mut chunks: Vec<Chunk> = Vec::new();
        let mut i: usize = 0;
        while i < n
            invariant
                i <= n,
                chunks@.len() == i,
                forall|j: int|
                    0 <= j < i ==> spec_chunk_eq(#[trigger] chunks@[j], self.chunks@[j])
                        && chunks@[j].wf(),
            decreases n - i,
        {
            chunks.push(self.chunks[i].clone());
            i = i + 1;
        }
        Terrain {
            width: self.width,
            length: self.length,
            base: self.base,
            chunks,
            bounding_box_dirty: true,
            bounding_box: AxisAlignedBoundingBox {
                min: Vector3 { x: 0, y: 0, z: 0 },
                max: Vector3 { x: 0, y: 0, z: 0 },
            },
        }
    }

    /// Returns the terrain's bounding box, recomputing and caching it if
    /// the cache is stale: its top Y is the terrain's world Y plus the
    /// largest height sample across all chunks. The result always describes
    /// the terrain's current heights; a height-modifying brush operation
    /// marks the cache dirty, so the box is never stale after one.
    #[verifier::loop_isolation(false)]
    pub fn bounding_box(&mut self) -> (r: AxisAlignedBoundingBox)
        requires
            old(self).wf(),
        ensures
            final(self).wf(),
            r == spec_bounding_box(*old(self)),
            *final(self) == (Terrain {
                bounding_box: r,
                bounding_box_dirty: false,
                ..*old(self)
            }),
    {
        if !self.bounding_box_dirty {
            return self.bounding_box;
        }
        let n = self.chunks.len();
        let mut max_height: i64 = i64::MIN;
        let mut ci: usize = 0;
        proof {
            assert(self.chunks@.take(0) =~= Seq::<Chunk>::empty());
        }
        while ci < n
            invariant
                ci <= n,
                *self == *old(self),
                max_height as int == spec_max_height(self.chunks@.take(ci as int)),
            decreases n - ci,
        {
            let hm_len = self.chunks[ci].heightmap.len();
            let mut k: usize = 0;
            proof {
                assert(self.chunks@[ci as int].heightmap@.take(0) =~= Seq::<i64>::empty());
            }
            while k < hm_len
                invariant
                    ci < n,
                    k <= hm_len,
                    *self == *old(self),
                    hm_len == self.chunks@[ci as int].heightmap@.len(),
                    max_height as int == spec_imax(
                        spec_max_height(self.chunks@.take(ci as int)),
                        spec_seq_max(self.chunks@[ci as int].heightmap@.take(k as int)),
                    ),
                decreases hm_len - k,
            {
                proof {
                    assert(self.chunks@[ci as int].heightmap@.take(k as int + 1).drop_last()
                        =~= self.chunks@[ci as int].heightmap@.take(k as int));
                }
                let h = self.chunks[ci].heightmap[k];
                if h > max_height {
                    max_height = h;
                }
                k = k + 1;
            }
            proof {
                assert(self.chunks@[ci as int].heightmap@.take(hm_len as int)
                    =~= self.chunks@[ci as int].heightmap@);
                assert(self.chunks@.take(ci as int + 1).drop_last() =~= self.chunks@.take(
                    ci as int,
                ));
                assert(self.chunks@.take(ci as int + 1).last() == self.chunks@[ci as int]);
            }
            ci = ci + 1;
        }
        proof {
            assert(self.chunks@.take(n as int) =~= self.chunks@);
        }
        let p = self.base.global_position();
        let bb = AxisAlignedBoundingBox {
            min: p,
            max: Vector3 {
                x: sat_add(p.x, self.width),
                y: sat_add(p.y, max_height),
                z: sat_add(p.z, self.length),
            },
        };
        self.bounding_box = bb;
        self.bounding_box_dirty = false;
        bb
    }

    /// Regenerates the surface data of every dirty chunk and clears the
    /// flags; clean chunks are untouched.
    #[verifier::loop_isolation(false)]
    pub fn update(&mut self)
        requires
            old(self).wf(),
        ensures
            final(self).wf(),
            final(self).chunks@.len() == old(self).chunks@.len(),
            forall|i: int|
                0 <= i < old(self).chunks@.len() ==> spec_chunk_update_rel(
                    old(self).chunks@[i],
                    #[trigger] final(self).chunks@[i],
                ),
            final(self).width == old(self).width,
            final(self).length == old(self).length,
            final(self).base == old(self).base,
            final(self).bounding_box == old(self).bounding_box,
            final(self).bounding_box_dirty == old(self).bounding_box_dirty,
    {
        let n = self.chunks.len();
        let mut i: usize = 0;
        while i < n
            invariant
                i <= n,
                self.chunks@.len() == n,
                forall|j: int|
                    0 <= j < i ==> spec_chunk_update_rel(
                        old(self).chunks@[j],
                        #[trigger] self.chunks@[j],
                    ) && self.chunks@[j].wf(),
                forall|j: int| i <= j < n ==> #[trigger] self.chunks@[j] == old(self).chunks@[j],
                self.width == old(self).width,
                self.length == old(self).length,
                self.base == old(self).base,
                self.bounding_box == old(self).bounding_box,
                self.bounding_box_dirty == old(self).bounding_box_dirty,
            decreases n - i,
        {
            let c = &mut self.chunks[i];
            c.update();
            i = i + 1;
        }
        proof {
            if !self.bounding_box_dirty {
                assert(forall|j: int|
                    0 <= j < n ==> (#[trigger] self.chunks@[j]).heightmap@ == old(
                        self,
                    ).chunks@[j].heightmap@);
                lemma_max_height_congruent(self.chunks@, old(self).chunks@);
            }
        }
    }
}

/// Largest number of layers one draw brush may paint at once.
pub const MAX_BRUSH_LAYERS: usize = 32;

/// The area a brush covers, centred on the brush position.
#[derive(Clone, Copy, Debug, PartialEq, Eq, Structural)]
pub enum BrushKind {
    /// A disc of the given radius.
    Circle { radius: i64 },
    /// An axis-aligned rectangle of the given extents.
    Rectangle { width: i64, length: i64 },
}

/// The effect a brush applies inside its area.
#[derive(Debug)]
pub enum BrushMode {
    /// Add `amount` to every covered height sample, saturating.
    ChangeHeight { amount: i64 },
    /// Paint the masks of the listed layers fully opaque.
    Draw { layers: Vec<usize> },
}

/// An editing brush: a world position, an area and an effect.
#[derive(Debug)]
pub struct Brush {
    /// World-space centre of the brush.
    pub position: Vector3,
    /// The covered area.
    pub kind: BrushKind,
    /// The applied effect.
    pub mode: BrushMode,
}

impl Brush {
    /// The validity of a brush: a bounded centre, a nonnegative area, and
    /// at most [`MAX_BRUSH_LAYERS`] painted layers.
    pub open spec fn wf(self) -> bool {
        &&& -0x4000_0000_0000_0000 <= self.position.x <= 0x4000_0000_0000_0000
        &&& -0x4000_0000_0000_0000 <= self.position.z <= 0x4000_0000_0000_0000
        &&& match self.kind {
            BrushKind::Circle { radius } => radius >= 0,
            BrushKind::Rectangle { width, length } => width >= 0 && length >= 0,
        }
        &&& match self.mode {
            BrushMode::ChangeHeight { .. } => true,
            BrushMode::Draw { layers } => layers.len() <= MAX_BRUSH_LAYERS,
        }
    }

    /// Builds a brush, rejecting an out-of-range centre, a negative area or
    /// a draw list over the layer limit.
    pub fn new(position: Vector3, kind: BrushKind, mode: BrushMode) -> (r: Option<Brush>)
        ensures
            match r {
                Some(b) => b == (Brush { position, kind, mode }) && b.wf(),
                None => !(Brush { position, kind, mode }).wf(),
            },
    {
        let centre_ok = -0x4000_0000_0000_0000i64 <= position.x && position.x
            <= 0x4000_0000_0000_0000i64 && -0x4000_0000_0000_0000i64 <= position.z && position.z
            <= 0x4000_0000_0000_0000i64;
        let kind_ok = match kind {
            BrushKind::Circle { radius } => radius >= 0,
            BrushKind::Rectangle { width, length } => width >= 0 && length >= 0,
        };
        let mode_ok = match &mode {
            BrushMode::ChangeHeight { .. } => true,
            BrushMode::Draw { layers } => layers.len() <= MAX_BRUSH_LAYERS,
        };
        if centre_ok && kind_ok && mode_ok {
            Some(Brush { position, kind, mode })
        } else {
            None
        }
    }
}

/// Whether the brush covers the world-space point `(px, pz)`.
pub open spec fn spec_in_brush(b: Brush, px: int, pz: int) -> bool {
    match b.kind {
        BrushKind::Circle { radius } => {
            let dx = px - b.position.x;
            let dz = pz - b.position.z;
            dx * dx + dz * dz <= radius * radius
        },
        BrushKind::Rectangle { width, length } => {
            &&& b.position.x - width / 2 <= px <= b.position.x + width / 2
            &&& b.position.z - length / 2 <= pz <= b.position.z + length / 2
        },
    }
}

/// Exec twin of [`spec_in_brush`].
fn brush_contains(b: &Brush, px: i64, pz: i64) -> (r: bool)
    requires
        b.wf(),
        -0x2_0000_0000_0000 <= px <= 0x2_0000_0000_0000,
        -0x2_0000_0000_0000 <= pz <= 0x2_0000_0000_0000,
    ensures
        r == spec_in_brush(*b, px as int, pz as int),
{
    match b.kind {
        BrushKind::Circle { radius } => {
            let dx: i128 = px as i128 - b.position.x as i128;
            let dz: i128 = pz as i128 - b.position.z as i128;
            let rr: i128 = radius as i128;
            proof {
                assert(dx * dx <= 0x5000_0000_0000_0000 * 0x5000_0000_0000_0000)
                    by (nonlinear_arith)
                    requires
                        -0x5000_0000_0000_0000 <= dx <= 0x5000_0000_0000_0000,
                ;
                assert(dx * dx >= 0) by (nonlinear_arith);
                assert(dz * dz <= 0x5000_0000_0000_0000 * 0x5000_0000_0000_0000)
                    by (nonlinear_arith)
                    requires
                        -0x5000_0000_0000_0000 <= dz <= 0x5000_0000_0000_0000,
                ;
                assert(dz * dz >= 0) by (nonlinear_arith);
                assert(rr * rr <= 0x8000_0000_0000_0000 * 0x8000_0000_0000_0000)
                    by (nonlinear_arith)
                    requires
                        0 <= rr <= 0x8000_0000_0000_0000,
                ;
            }
            dx * dx + dz * dz <= rr * rr
        },
        BrushKind::Rectangle { width, length } => {
            let w2: i128 = (width as i128) / 2;
            let l2: i128 = (length as i128) / 2;
            let bx = b.position.x as i128;
            let bz = b.position.z as i128;
            bx - w2 <= px as i128 && px as i128 <= bx + w2 && bz - l2 <= pz as i128 && pz as i128
                <= bz + l2
        },
    }
}

/// The heightmap of a chunk after a height brush: every covered sample is
/// raised by `amount` (saturating), every other sample keeps its value.
pub open spec fn spec_brushed_heights(c: Chunk, b: Brush, amount: i64) -> Seq<i64> {
    let wpc = c.width_point_count as int;
    Seq::new(
        c.heightmap@.len(),
        |k: int|
            if spec_in_brush(b, c.spec_sample_x(k % wpc), c.spec_sample_z(k / wpc)) {
                sat64(c.heightmap@[k] + amount) as i64
            } else {
                c.heightmap@[k]
            },
    )
}

/// A single-channel pixel grid after a draw brush: every covered texel is
/// painted fully opaque, every other texel keeps its value. A texel's world
/// position spreads the chunk's extents over the grid.
pub open spec fn spec_painted_grid(
    bytes: Seq<u8>,
    mw: int,
    mh: int,
    pos_x: int,
    pos_z: int,
    width: int,
    length: int,
    b: Brush,
) -> Seq<u8> {
    Seq::new(
        bytes.len(),
        |k: int|
            if spec_in_brush(
                b,
                sat64(pos_x + ((k % mw) * width) / mw),
                sat64(pos_z + ((k / mw) * length) / mh),
            ) {
                255u8
            } else {
                bytes[k]
            },
    )
}

/// The mask payload of a layer after a draw brush over its chunk.
pub open spec fn spec_painted_mask(c: Chunk, m: Texture, b: Brush) -> Seq<u8> {
    spec_painted_grid(
        m.bytes@,
        spec_mask_width(m) as int,
        spec_mask_height(m) as int,
        c.position.x as int,
        c.position.z as int,
        c.width as int,
        c.length as int,
        b,
    )
}

/// Width of a texture's pixel grid.
pub open spec fn spec_mask_width(m: Texture) -> u32 {
    match m.kind {
        TextureKind::Rectangle { width, .. } => width,
    }
}

/// Height of a texture's pixel grid.
pub open spec fn spec_mask_height(m: Texture) -> u32 {
    match m.kind {
        TextureKind::Rectangle { height, .. } => height,
    }
}

/// Whether a mask texture is paintable: a single-channel payload matching
/// its grid, within the supported grid size.
pub open spec fn spec_mask_paintable(m: Texture) -> bool {
    &&& m.pixel_kind == TexturePixelKind::R8
    &&& m.bytes@.len() == spec_mask_width(m) * spec_mask_height(m)
    &&& 1 <= spec_mask_width(m) <= 0x8000
    &&& 1 <= spec_mask_height(m) <= 0x8000
}

/// How a draw brush changes one layer: a listed layer with a paintable
/// mask gets it painted; everything else is untouched.
pub open spec fn spec_layer_brushed(c: Chunk, l0: Layer, l1: Layer, b: Brush, listed: bool) -> bool {
    if !listed {
        l1 == l0
    } else {
        &&& l1.diffuse_texture == l0.diffuse_texture
        &&& l1.normal_texture == l0.normal_texture
        &&& l1.specular_texture == l0.specular_texture
        &&& l1.roughness_texture == l0.roughness_texture
        &&& l1.height_texture == l0.height_texture
        &&& match l0.mask {
            None => l1.mask is None,
            Some(m0) => {
                if spec_mask_paintable(m0) {
                    &&& l1.mask matches Some(m1)
                    &&& m1.key == m0.key
                    &&& m1.kind == m0.kind
                    &&& m1.pixel_kind == m0.pixel_kind
                    &&& m1.bytes@ == spec_painted_mask(c, m0, b)
                } else {
                    l1.mask == l0.mask
                }
            },
        }
    }
}

/// How a brush application changes one chunk: a height brush rewrites the
/// covered samples, a draw brush paints the listed layers' masks; either
/// way the chunk is marked dirty.
pub open spec fn spec_chunk_brushed(c0: Chunk, c1: Chunk, b: Brush) -> bool {
    &&& c1.position == c0.position
    &&& c1.width == c0.width
    &&& c1.length == c0.length
    &&& c1.width_point_count == c0.width_point_count
    &&& c1.length_point_count == c0.length_point_count
    &&& c1.surface_data.vertex_buffer@ == c0.surface_data.vertex_buffer@
    &&& c1.surface_data.triangles@ == c0.surface_data.triangles@
    &&& c1.dirty
    &&& match b.mode {
        BrushMode::ChangeHeight { amount } => {
            &&& c1.heightmap@ == spec_brushed_heights(c0, b, amount)
            &&& c1.layers == c0.layers
        },
        BrushMode::Draw { layers } => {
            &&& c1.heightmap@ == c0.heightmap@
            &&& c1.layers@.len() == c0.layers@.len()
            &&& forall|li: int|
                0 <= li < c0.layers@.len() ==> spec_layer_brushed(
                    c0,
                    c0.layers@[li],
                    #[trigger] c1.layers@[li],
                    b,
                    layers@.contains(li as usize),
                )
        },
    }
}

/// Whether a value occurs in a list of layer indices.
#[verifier::loop_isolation(false)]
fn list_contains(list: &Vec<usize>, v: usize) -> (r: bool)
    ensures
        r == list@.contains(v),
{
    let n = list.len();
    let mut i: usize = 0;
    while i < n
        invariant
            i <= n,
            forall|j: int| 0 <= j < i ==> list@[j] != v,
        decreases n - i,
    {
        if list[i] == v {
            return true;
        }
        i = i + 1;
    }
    proof {
        assert(!list@.contains(v));
    }
    false
}

/// Paints every texel of a single-channel grid covered by the brush fully
/// opaque.
#[verifier::loop_isolation(false)]
fn paint_grid(
    bytes: &mut Vec<u8>,
    mw: usize,
    mh: usize,
    pos_x: i64,
    pos_z: i64,
    width: i64,
    length: i64,
    b: &Brush,
)
    requires
        b.wf(),
        old(bytes).len() == mw * mh,
        1 <= mw <= 0x8000,
        1 <= mh <= 0x8000,
        -0x4000_0000_0000 <= pos_x <= 0x4000_0000_0000,
        -0x4000_0000_0000 <= pos_z <= 0x4000_0000_0000,
        0 <= width <= 0x8000_0000,
        0 <= length <= 0x8000_0000,
    ensures
        final(bytes)@ == spec_painted_grid(
            old(bytes)@,
            mw as int,
            mh as int,
            pos_x as int,
            pos_z as int,
            width as int,
            length as int,
            *b,
        ),
{
    let ghost target = spec_painted_grid(
        old(bytes)@,
        mw as int,
        mh as int,
        pos_x as int,
        pos_z as int,
        width as int,
        length as int,
        *b,
    );
    let n = bytes.len();
    let mut k: usize = 0;
    while k < n
        invariant
            k <= n,
            bytes@.len() == n,
            forall|q: int| 0 <= q < k ==> bytes@[q] == target[q],
            forall|q: int| k <= q < n ==> bytes@[q] == old(bytes)@[q],
        decreases n - k,
    {
        let x = k % mw;
        let z = k / mw;
        proof {
            assert((x as int) * width <= 0x8000 * 0x8000_0000) by (nonlinear_arith)
                requires
                    0 <= x <= 0x8000,
                    0 <= width <= 0x8000_0000,
            ;
            vstd::arithmetic::div_mod::lemma_multiply_divide_lt(k as int, mw as int, mh as int);
            assert((z as int) * length <= 0x8000 * 0x8000_0000) by (nonlinear_arith)
                requires
                    0 <= z <= 0x8000,
                    0 <= length <= 0x8000_0000,
            ;
        }
        let px = sat_add(pos_x, (x as i64) * width / (mw as i64));
        let pz = sat_add(pos_z, (z as i64) * length / (mh as i64));
        if brush_contains(b, px, pz) {
            bytes[k] = 255;
        }
        k = k + 1;
    }
    proof {
        assert(bytes@ =~= target);
    }
}

impl Chunk {
    /// Applies a brush to the chunk: a height brush raises every covered
    /// sample by its amount (saturating), a draw brush paints the covered
    /// texels of the listed layers' masks fully opaque. Either way the
    /// chunk is marked dirty so the next update regenerates its surface.
    #[verifier::loop_isolation(false)]
    pub fn apply_brush(&mut self, b: &Brush)
        requires
            old(self).wf(),
            b.wf(),
        ensures
            final(self).wf(),
            spec_chunk_brushed(*old(self), *final(self), *b),
    {
        match &b.mode {
            BrushMode::ChangeHeight { amount } => {
                let amount = *amount;
                let ghost target = spec_brushed_heights(*old(self), *b, amount);
                let wpc = self.width_point_count as usize;
                let lpc = self.length_point_count as usize;
                let n = self.heightmap.len();
                let mut k: usize = 0;
                while k < n
                    invariant
                        k <= n,
                        *self == (Chunk { heightmap: self.heightmap, ..*old(self) }),
                        self.heightmap@.len() == n,
                        forall|q: int| 0 <= q < k ==> self.heightmap@[q] == target[q],
                        forall|q: int| k <= q < n ==> self.heightmap@[q] == old(self).heightmap@[q],
                    decreases n - k,
                {
                    let x = k % wpc;
                    let z = k / wpc;
                    proof {
                        assert((x as int) * self.width <= 0x8000 * 0x8000_0000)
                            by (nonlinear_arith)
                            requires
                                0 <= x <= 0x8000,
                                0 <= self.width <= 0x8000_0000,
                        ;
                        vstd::arithmetic::div_mod::lemma_multiply_divide_lt(
                            k as int,
                            wpc as int,
                            lpc as int,
                        );
                        assert((z as int) * self.length <= 0x8000 * 0x8000_0000)
                            by (nonlinear_arith)
                            requires
                                0 <= z <= 0x8000,
                                0 <= self.length <= 0x8000_0000,
                        ;
                    }
                    let px = sat_add(self.position.x, (x as i64) * self.width / (wpc as i64 - 1));
                    let pz = sat_add(self.position.z, (z as i64) * self.length / (lpc as i64 - 1));
                    if brush_contains(b, px, pz) {
                        let h = self.heightmap[k];
                        let nh = sat_add(h, amount);
                        self.heightmap[k] = nh;
                    }
                    k = k + 1;
                }
                proof {
                    assert(self.heightmap@ =~= target);
                }
                self.dirty = true;
            },
            BrushMode::Draw { layers } => {
                let ln = self.layers.len();
                let mut li: usize = 0;
                while li < ln
                    invariant
                        li <= ln,
                        b.mode matches BrushMode::Draw { layers: bl } && bl == layers,
                        *self == (Chunk { layers: self.layers, dirty: self.dirty, ..*old(self) }),
                        self.layers@.len() == ln,
                        ln == old(self).layers@.len(),
                        forall|j: int|
                            0 <= j < li ==> spec_layer_brushed(
                                *old(self),
                                old(self).layers@[j],
                                #[trigger] self.layers@[j],
                                *b,
                                layers@.contains(j as usize),
                            ),
                        forall|j: int| li <= j < ln ==> #[trigger] self.layers@[j] == old(
                            self,
                        ).layers@[j],
                    decreases ln - li,
                {
                    if list_contains(layers, li) {
                        let l = &mut self.layers[li];
                        match l.mask.take() {
                            Some(mut m) => {
                                let TextureKind::Rectangle { width: mw, height: mh } = m.kind;
                                let paintable = match m.pixel_kind {
                                    TexturePixelKind::R8 => true,
                                    TexturePixelKind::RGBA8 => false,
                                } && 1 <= mw && mw <= 0x8000 && 1 <= mh && mh <= 0x8000 && {
                                    proof {
                                        assert((mw as int) * (mh as int) <= 0x8000 * 0x8000)
                                            by (nonlinear_arith)
                                            requires
                                                0 <= mw <= 0x8000,
                                                0 <= mh <= 0x8000,
                                        ;
                                    }
                                    m.bytes.len() == (mw as usize) * (mh as usize)
                                };
                                if paintable {
                                    let pos_x = self.position.x;
                                    let pos_z = self.position.z;
                                    let width = self.width;
                                    let length = self.length;
                                    paint_grid(
                                        &mut m.bytes,
                                        mw as usize,
                                        mh as usize,
                                        pos_x,
                                        pos_z,
                                        width,
                                        length,
                                        b,
                                    );
                                }
                                l.mask = Some(m);
                            },
                            None => {},
                        }
                    }
                    li = li + 1;
                }
                self.dirty = true;
            },
        }
    }
}

impl Terrain {
    /// Applies a brush to every chunk and invalidates the cached bounding
    /// box, so the next [`Terrain::bounding_box`] reflects the edit and the
    /// next [`Terrain::update`] regenerates the touched surfaces.
    #[verifier::loop_isolation(false)]
    pub fn apply_brush(&mut self, b: &Brush)
        requires
            old(self).wf(),
            b.wf(),
        ensures
            final(self).wf(),
            final(self).width == old(self).width,
            final(self).length == old(self).length,
            final(self).base == old(self).base,
            final(self).bounding_box_dirty,
            final(self).chunks@.len() == old(self).chunks@.len(),
            forall|i: int|
                0 <= i < old(self).chunks@.len() ==> spec_chunk_brushed(
                    old(self).chunks@[i],
                    #[trigger] final(self).chunks@[i],
                    *b,
                ),
    {
        let n = self.chunks.len();
        let mut i: usize = 0;
        while i < n
            invariant
                i <= n,
                self.chunks@.len() == n,
                self.width == old(self).width,
                self.length == old(self).length,
                self.base == old(self).base,
                self.bounding_box == old(self).bounding_box,
                self.bounding_box_dirty == old(self).bounding_box_dirty,
                forall|j: int|
                    0 <= j < i ==> spec_chunk_brushed(
                        old(self).chunks@[j],
                        #[trigger] self.chunks@[j],
                        *b,
                    ) && self.chunks@[j].wf(),
                forall|j: int| i <= j < n ==> #[trigger] self.chunks@[j] == old(self).chunks@[j],
            decreases n - i,
        {
            let c = &mut self.chunks[i];
            c.apply_brush(b);
            i = i + 1;
        }
        self.bounding_box_dirty = true;
    }
}

/// The next even number at or above `n`.
pub open spec fn spec_even_up(n: int) -> int {
    if n % 2 == 1 {
        n + 1
    } else {
        n
    }
}

/// Rounds a point count up to the next even number, as the symmetric quad
/// triangulation requires.
pub fn make_divisible_by_2(n: u32) -> (r: u32)
    requires
        n < u32::MAX,
    ensures
        r == spec_even_up(n as int),
        r % 2 == 0,
        n <= r <= n + 1,
{
    if n & 1 == 1 {
        proof {
            assert((n & 1 == 1) == (n % 2 == 1)) by (bit_vector);
            assert((n + 1) % 2 == 0) by (nonlinear_arith)
            requires
                n % 2 == 1,
            ;
        }
        n + 1
    } else {
        proof {
            assert((n & 1 != 1) == (n % 2 == 0)) by (bit_vector);
        }
        n
    }
}

/// The material textures of one layer a terrain is built with; each chunk
/// gets its own fully opaque mask for it.
#[derive(Debug, Default)]
pub struct LayerDefinition {
    pub diffuse_texture: Option<Texture>,
    pub normal_texture: Option<Texture>,
    pub specular_texture: Option<Texture>,
    pub roughness_texture: Option<Texture>,
    pub height_texture: Option<Texture>,
}

/// Whether `l` is the layer built from definition `def`: the five material
/// textures carried over, plus a fresh fully opaque single-channel mask of
/// the given grid size under the given identity.
pub open spec fn spec_built_layer(def: LayerDefinition, l: Layer, mw: u32, mh: u32, key: u64) -> bool {
    &&& spec_opt_texture_eq(l.diffuse_texture, def.diffuse_texture)
    &&& spec_opt_texture_eq(l.normal_texture, def.normal_texture)
    &&& spec_opt_texture_eq(l.specular_texture, def.specular_texture)
    &&& spec_opt_texture_eq(l.roughness_texture, def.roughness_texture)
    &&& spec_opt_texture_eq(l.height_texture, def.height_texture)
    &&& l.mask matches Some(m) && m.key == key && m.kind == (TextureKind::Rectangle {
        width: mw,
        height: mh,
    }) && m.pixel_kind == TexturePixelKind::R8 && m.bytes@.len() == mw * mh && (forall|i: int|
        0 <= i < m.bytes@.len() ==> m.bytes@[i] == 255u8)
}

/// Builds terrains: validates and derives the chunk grid from the extents,
/// chunk counts and resolution, forcing point counts even, and allocates
/// one fully opaque mask per layer per chunk.
#[derive(Debug)]
pub struct TerrainBuilder {
    /// Builder of the node base.
    pub base_builder: BaseBuilder,
    /// World-space extent along X.
    pub width: u32,
    /// World-space extent along Z.
    pub length: u32,
    /// Mask texels per world unit.
    pub mask_resolution: u32,
    /// Number of chunks along X.
    pub width_chunks: usize,
    /// Number of chunks along Z.
    pub length_chunks: usize,
    /// Height samples per world unit.
    pub resolution: u32,
    /// The material layers every chunk starts with.
    pub layers: Vec<LayerDefinition>,
}

/// Width of one chunk of the builder's grid, in world units.
pub open spec fn spec_builder_chunk_width(b: TerrainBuilder) -> int {
    b.width as int / b.width_chunks as int
}

/// Length of one chunk of the builder's grid, in world units.
pub open spec fn spec_builder_chunk_length(b: TerrainBuilder) -> int {
    b.length as int / b.length_chunks as int
}

/// The preconditions under which the builder's grid arithmetic stays in
/// range: sensible chunk counts, at least one world unit per chunk, and
/// point and mask grids within the supported sizes.
pub open spec fn spec_builder_ok(b: TerrainBuilder) -> bool {
    &&& 1 <= b.width_chunks <= 0x400
    &&& 1 <= b.length_chunks <= 0x400
    &&& b.width <= 0x10_0000
    &&& b.length <= 0x10_0000
    &&& 1 <= b.resolution <= 0x400
    &&& b.mask_resolution <= 0x400
    &&& 1 <= spec_builder_chunk_width(b)
    &&& 1 <= spec_builder_chunk_length(b)
    &&& spec_builder_chunk_width(b) * b.resolution <= 0x7ffe
    &&& spec_builder_chunk_length(b) * b.resolution <= 0x7ffe
    &&& spec_builder_chunk_width(b) * b.mask_resolution <= 0x8000
    &&& spec_builder_chunk_length(b) * b.mask_resolution <= 0x8000
    &&& b.layers.len() <= 0x1000
}

/// Whether `c` is chunk `(x, z)` of the grid the builder lays out, before
/// its first surface update: a zeroed heightmap over the evened point
/// grid, the layers built from the definitions, and a dirty flag.
pub open spec fn spec_initial_chunk(b: TerrainBuilder, x: int, z: int, c: Chunk) -> bool {
    let cw = spec_builder_chunk_width(b);
    let cl = spec_builder_chunk_length(b);
    let wpc = spec_even_up(cw * b.resolution);
    let lpc = spec_even_up(cl * b.resolution);
    let mw = cw * b.mask_resolution;
    let mh = cl * b.mask_resolution;
    &&& c.width_point_count == wpc
    &&& c.length_point_count == lpc
    &&& c.heightmap@.len() == wpc * lpc
    &&& (forall|k: int| 0 <= k < c.heightmap@.len() ==> c.heightmap@[k] == 0i64)
    &&& c.position == (Vector3 { x: (x * cw) as i64, y: 0, z: (z * cl) as i64 })
    &&& c.width == cw
    &&& c.length == cl
    &&& c.layers@.len() == b.layers@.len()
    &&& (forall|li: int|
        0 <= li < b.layers@.len() ==> spec_built_layer(
            b.layers@[li],
            #[trigger] c.layers@[li],
            mw as u32,
            mh as u32,
            ((z * b.width_chunks + x) * b.layers@.len() + li) as u64,
        ))
    &&& c.dirty
}

impl TerrainBuilder {
    /// Starts a builder with the default grid: a 64 by 64 terrain of 2 by 2
    /// chunks, 8 height samples and 16 mask texels per world unit, and no
    /// layers.
    pub fn new(base_builder: BaseBuilder) -> (r: Self)
        ensures
            r.width == 64u32,
            r.length == 64u32,
            r.width_chunks == 2usize,
            r.length_chunks == 2usize,
            r.mask_resolution == 16u32,
            r.resolution == 8u32,
            r.layers@.len() == 0,
    {
        Self {
            base_builder,
            width: 64,
            length: 64,
            width_chunks: 2,
            length_chunks: 2,
            mask_resolution: 16,
            resolution: 8,
            layers: Vec::new(),
        }
    }

    /// Chooses the world-space extent along X.
    pub fn with_width(self, width: u32) -> (r: Self)
        ensures
            r == (TerrainBuilder { width, ..self }),
    {
        TerrainBuilder { width, ..self }
    }

    /// Chooses the world-space extent along Z.
    pub fn with_length(self, length: u32) -> (r: Self)
        ensures
            r == (TerrainBuilder { length, ..self }),
    {
        TerrainBuilder { length, ..self }
    }

    /// Chooses the mask texel density.
    pub fn with_mask_resolution(self, resolution: u32) -> (r: Self)
        ensures
            r == (TerrainBuilder { mask_resolution: resolution, ..self }),
    {
        TerrainBuilder { mask_resolution: resolution, ..self }
    }

    /// Chooses the number of chunks along X.
    pub fn with_width_chunks(self, count: usize) -> (r: Self)
        ensures
            r == (TerrainBuilder { width_chunks: count, ..self }),
    {
        TerrainBuilder { width_chunks: count, ..self }
    }

    /// Chooses the number of chunks along Z.
    pub fn with_length_chunks(self, count: usize) -> (r: Self)
        ensures
            r == (TerrainBuilder { length_chunks: count, ..self }),
    {
        TerrainBuilder { length_chunks: count, ..self }
    }

    /// Chooses the height sample density.
    pub fn with_resolution(self, resolution: u32) -> (r: Self)
        ensures
            r == (TerrainBuilder { resolution, ..self }),
    {
        TerrainBuilder { resolution, ..self }
    }

    /// Chooses the material layers.
    pub fn with_layers(self, layers: Vec<LayerDefinition>) -> (r: Self)
        ensures
            r.layers == layers,
            r.base_builder == self.base_builder,
            r.width == self.width,
            r.length == self.length,
            r.mask_resolution == self.mask_resolution,
            r.width_chunks == self.width_chunks,
            r.length_chunks == self.length_chunks,
            r.resolution == self.resolution,
    {
        TerrainBuilder { layers, ..self }
    }

    /// Builds the terrain: lays the chunks out row major over the chunk
    /// grid, each with a zeroed heightmap over the evened point grid and
    /// one fully opaque mask per layer, then generates every chunk's
    /// surface. Linking the terrain into a scene graph is the graph
    /// owner's task.
    #[verifier::loop_isolation(false)]
    pub fn build(self) -> (t: Terrain)
        requires
            spec_builder_ok(self),
        ensures
            t.wf(),
            t.width == self.width,
            t.length == self.length,
            t.base.global_transform == Mat4::spec_identity(),
            t.bounding_box_dirty,
            t.chunks@.len() == self.width_chunks * self.length_chunks,
            forall|ci: int|
                0 <= ci < t.chunks@.len() ==> {
                    let c = #[trigger] t.chunks@[ci];
                    &&& spec_initial_chunk(
                        self,
                        ci % self.width_chunks as int,
                        ci / self.width_chunks as int,
                        (Chunk { dirty: true, ..c }),
                    )
                    &&& !c.dirty
                    &&& c.surface_data.vertex_buffer@ == spec_surface_with_normals(
                        spec_chunk_vertices(c),
                        spec_chunk_triangles(c),
                    )
                    &&& c.surface_data.triangles@ == spec_chunk_triangles(c)
                },
    {
        let ghost b = self;
        let wc = self.width_chunks;
        let lc = self.length_chunks;
        let chunk_width: u32 = self.width / (wc as u32);
        let chunk_length: u32 = self.length / (lc as u32);
        proof {
            assert(chunk_width == spec_builder_chunk_width(b));
            assert(chunk_length == spec_builder_chunk_length(b));
            vstd::arithmetic::div_mod::lemma_div_nonincreasing(
                b.width as int,
                b.width_chunks as int,
            );
            vstd::arithmetic::div_mod::lemma_div_nonincreasing(
                b.length as int,
                b.length_chunks as int,
            );
            assert((chunk_width as int) * (b.resolution as int) >= 1) by (nonlinear_arith)
                requires
                    chunk_width >= 1,
                    b.resolution >= 1,
            ;
            assert((chunk_length as int) * (b.resolution as int) >= 1) by (nonlinear_arith)
                requires
                    chunk_length >= 1,
                    b.resolution >= 1,
            ;
        }
        let chunk_width_points = make_divisible_by_2(chunk_width * self.resolution);
        let chunk_length_points = make_divisible_by_2(chunk_length * self.resolution);
        let chunk_mask_width = chunk_width * self.mask_resolution;
        let chunk_mask_height = chunk_length * self.mask_resolution;
        let n_layers = self.layers.len();
        proof {
            assert((chunk_mask_width as int) * (chunk_mask_height as int) <= 0x8000 * 0x8000)
                by (nonlinear_arith)
                requires
                    0 <= chunk_mask_width <= 0x8000,
                    0 <= chunk_mask_height <= 0x8000,
            ;
            assert((chunk_width_points as int) * (chunk_length_points as int) <= 0x8000 * 0x8000)
                by (nonlinear_arith)
                requires
                    0 <= chunk_width_points <= 0x8000,
                    0 <= chunk_length_points <= 0x8000,
            ;
        }
        let mask_len: usize = (chunk_mask_width as usize) * (chunk_mask_height as usize);
        let heightmap_len: usize = (chunk_width_points as usize) * (chunk_length_points as usize);
        let mut chunks: Vec<Chunk> = Vec::new();
        let mut z: usize = 0;
        while z < lc
            invariant
                z <= lc,
                chunks@.len() == z * wc,
                forall|ci: int|
                    0 <= ci < chunks@.len() ==> spec_initial_chunk(
                        b,
                        ci % wc as int,
                        ci / wc as int,
                        #[trigger] chunks@[ci],
                    ) && chunks@[ci].wf(),
            decreases lc - z,
        {
            let mut x: usize = 0;
            while x < wc
                invariant
                    z < lc,
                    x <= wc,
                    chunks@.len() == z * wc + x,
                    forall|ci: int|
                        0 <= ci < chunks@.len() ==> spec_initial_chunk(
                            b,
                            ci % wc as int,
                            ci / wc as int,
                            #[trigger] chunks@[ci],
                        ) && chunks@[ci].wf(),
                decreases wc - x,
            {
                proof {
                    assert(z * wc + x <= 0x400 * 0x400 + 0x400) by (nonlinear_arith)
                        requires
                            0 <= z <= 0x400,
                            0 <= wc <= 0x400,
                            0 <= x <= 0x400,
                    ;
                }
                let ci = z * wc + x;
                proof {
                    assert(ci < lc * wc) by (nonlinear_arith)
                        requires
                            ci == z * wc + x,
                            0 <= z < lc,
                            0 <= x < wc,
                    ;
                    vstd::arithmetic::div_mod::lemma_fundamental_div_mod_converse(
                        ci as int,
                        wc as int,
                        z as int,
                        x as int,
                    );
                    assert(lc * wc <= 0x400 * 0x400) by (nonlinear_arith)
                        requires
                            0 <= lc <= 0x400,
                            0 <= wc <= 0x400,
                    ;
                    assert((ci as int) * (n_layers as int) + (n_layers as int)
                        <= 0x100000 * 0x1000 + 0x1000) by (nonlinear_arith)
                        requires
                            0 <= ci < 0x100000,
                            0 <= n_layers <= 0x1000,
                    ;
                }
                let mut layers: Vec<Layer> = Vec::new();
                let mut li: usize = 0;
                while li < n_layers
                    invariant
                        li <= n_layers,
                        n_layers == b.layers@.len(),
                        ci < 0x100000,
                        layers@.len() == li,
                        forall|j: int|
                            0 <= j < li ==> spec_built_layer(
                                b.layers@[j],
                                #[trigger] layers@[j],
                                chunk_mask_width,
                                chunk_mask_height,
                                ((ci * n_layers + j) as u64),
                            ),
                    decreases n_layers - li,
                {
                    let mask_key: u64 = (ci as u64) * (n_layers as u64) + (li as u64);
                    let definition = &self.layers[li];
                    let mask_bytes: Vec<u8> = vec![255u8; mask_len];
                    let layer = Layer {
                        diffuse_texture: clone_opt_texture(&definition.diffuse_texture),
                        normal_texture: clone_opt_texture(&definition.normal_texture),
                        specular_texture: clone_opt_texture(&definition.specular_texture),
                        roughness_texture: clone_opt_texture(&definition.roughness_texture),
                        height_texture: clone_opt_texture(&definition.height_texture),
                        mask: Some(
                            Texture {
                                key: mask_key,
                                kind: TextureKind::Rectangle {
                                    width: chunk_mask_width,
                                    height: chunk_mask_height,
                                },
                                pixel_kind: TexturePixelKind::R8,
                                bytes: mask_bytes,
                            },
                        ),
                    };
                    layers.push(layer);
                    li = li + 1;
                }
                proof {
                    assert((x as int) * (chunk_width as int) <= 0x400 * 0x10_0000)
                        by (nonlinear_arith)
                        requires
                            0 <= x <= 0x400,
                            0 <= chunk_width <= 0x10_0000,
                    ;
                    assert((z as int) * (chunk_length as int) <= 0x400 * 0x10_0000)
                        by (nonlinear_arith)
                        requires
                            0 <= z <= 0x400,
                            0 <= chunk_length <= 0x10_0000,
                    ;
                }
                let chunk = Chunk {
                    width_point_count: chunk_width_points,
                    length_point_count: chunk_length_points,
                    heightmap: vec![0i64; heightmap_len],
                    layers,
                    position: Vector3 {
                        x: (x as i64) * (chunk_width as i64),
                        y: 0,
                        z: (z as i64) * (chunk_length as i64),
                    },
                    width: chunk_width as i64,
                    length: chunk_length as i64,
                    surface_data: SurfaceData::new(),
                    dirty: true,
                };
                proof {
                    assert(spec_initial_chunk(b, x as int, z as int, chunk));
                    assert(chunk.wf());
                }
                chunks.push(chunk);
                x = x + 1;
            }
            proof {
                assert(z * wc + wc == (z + 1) * wc) by (nonlinear_arith);
            }
            z = z + 1;
        }
        let mut terrain = Terrain {
            width: self.width as i64,
            length: self.length as i64,
            base: self.base_builder.build_base(),
            chunks,
            bounding_box_dirty: true,
            bounding_box: AxisAlignedBoundingBox {
                min: Vector3 { x: 0, y: 0, z: 0 },
                max: Vector3 { x: 0, y: 0, z: 0 },
            },
        };
        proof {
            assert(lc * wc == wc * lc) by (nonlinear_arith);
        }
        let ghost pre_chunks = terrain.chunks@;
        terrain.update();
        proof {
            assert forall|ci: int| 0 <= ci < terrain.chunks@.len() implies {
                let c = #[trigger] terrain.chunks@[ci];
                &&& spec_initial_chunk(
                    b,
                    ci % wc as int,
                    ci / wc as int,
                    (Chunk { dirty: true, ..c }),
                )
                &&& !c.dirty
                &&& c.surface_data.vertex_buffer@ == spec_surface_with_normals(
                    spec_chunk_vertices(c),
                    spec_chunk_triangles(c),
                )
                &&& c.surface_data.triangles@ == spec_chunk_triangles(c)
            } by {
                let c0 = pre_chunks[ci];
                let c = terrain.chunks@[ci];
                assert(spec_chunk_update_rel(c0, c));
                assert(spec_chunk_vertices(c0) =~= spec_chunk_vertices(c));
                assert(spec_chunk_triangles(c0) =~= spec_chunk_triangles(c));
            }
        }
        terrain
    }
}

} // verus!
