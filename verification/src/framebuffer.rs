//! Frame buffers: sets of attachments addressable as one render target,
//! with clear, blit and draw-dispatch operations.
//!
//! A frame buffer owns a list of color attachments and at most one depth or
//! depth-stencil attachment. Pixel contents are modelled exactly: a color
//! word packs four 8-bit channels, a depth-stencil word packs 24 bits of
//! depth above 8 bits of stencil, so partial clears and blits have
//! pointwise contracts.

use vstd::prelude::*;

use crate::error::FrameworkError;
use crate::gpu::{
    spec_has_block_slot, spec_has_uniform_slot, spec_tex_eq, CubeMapFace, GpuBuffer,
    GpuGeometryBuffer, GpuProgram, GpuTexture, GpuTextureKind, GraphicsServer, TEXTURE_DIM_LIMIT,
};
use crate::math::Rect;

verus! {

/// Frame buffer attachment kind.
#[derive(Clone, Copy, Debug, PartialEq, Eq, Structural)]
pub enum AttachmentKind {
    /// Color attachment; its texture must have a renderable format.
    Color,
    /// Combined depth + stencil attachment.
    DepthStencil,
    /// Depth-only attachment.
    Depth,
}

/// Frame buffer attachment: a texture bound to a color, depth or
/// depth-stencil slot.
#[derive(Debug)]
pub struct Attachment {
    /// How the renderer uses the texture.
    pub kind: AttachmentKind,
    /// The texture the rendered image is written to.
    pub texture: GpuTexture,
}

impl Attachment {
    /// Creates a new [`AttachmentKind::Color`] attachment with the given
    /// texture.
    pub fn color(texture: GpuTexture) -> (r: Self)
        ensures
            r.kind == AttachmentKind::Color,
            r.texture == texture,
    {
        Self { kind: AttachmentKind::Color, texture }
    }

    /// Creates a new [`AttachmentKind::Depth`] attachment with the given
    /// texture.
    pub fn depth(texture: GpuTexture) -> (r: Self)
        ensures
            r.kind == AttachmentKind::Depth,
            r.texture == texture,
    {
        Self { kind: AttachmentKind::Depth, texture }
    }

    /// Creates a new [`AttachmentKind::DepthStencil`] attachment with the
    /// given texture.
    pub fn depth_stencil(texture: GpuTexture) -> (r: Self)
        ensures
            r.kind == AttachmentKind::DepthStencil,
            r.texture == texture,
    {
        Self { kind: AttachmentKind::DepthStencil, texture }
    }

    /// Whether the attachment binds a depth or depth-stencil slot.
    pub open spec fn spec_is_depth(self) -> bool {
        self.kind == AttachmentKind::Depth || self.kind == AttachmentKind::DepthStencil
    }
}

/// An 8-bit-per-channel color.
#[derive(Clone, Copy, Debug, PartialEq, Eq, Structural)]
pub struct Color {
    pub r: u8,
    pub g: u8,
    pub b: u8,
    pub a: u8,
}

/// The packed 32-bit word a color occupies in a render target.
pub open spec fn spec_pack_color(c: Color) -> u32 {
    (c.r * 0x1000000 + c.g * 0x10000 + c.b * 0x100 + c.a) as u32
}

impl Color {
    /// Fully transparent black.
    pub fn transparent() -> (r: Color)
        ensures
            r == (Color { r: 0, g: 0, b: 0, a: 0 }),
    {
        Color { r: 0, g: 0, b: 0, a: 0 }
    }

    /// Packs the color into one render-target word.
    pub fn pack(&self) -> (r: u32)
        ensures
            r == spec_pack_color(*self),
    {
        (self.r as u32) * 0x1000000 + (self.g as u32) * 0x10000 + (self.b as u32) * 0x100
            + (self.a as u32)
    }
}

/// Defines a range of data in a particular buffer.
#[derive(Clone, Copy, Debug, PartialEq, Eq, Structural)]
pub enum BufferDataUsage {
    /// Use everything at once.
    UseEverything,
    /// Use just a segment of data starting from the given `offset` with
    /// `size` bytes.
    UseSegment { offset: usize, size: usize },
}

impl Default for BufferDataUsage {
    fn default() -> (r: Self)
        ensures
            r == BufferDataUsage::UseEverything,
    {
        BufferDataUsage::UseEverything
    }
}

/// A resource binding defines where to bind specific GPU resources.
#[derive(Debug)]
pub enum ResourceBinding {
    /// Texture binding.
    Texture {
        /// The bound texture.
        texture: GpuTexture,
        /// Binding point for the texture.
        binding: usize,
    },
    /// Generic data buffer binding.
    Buffer {
        /// The bound buffer.
        buffer: GpuBuffer,
        /// Binding point for the buffer.
        binding: usize,
        /// Data portion to use.
        data_usage: BufferDataUsage,
    },
}

impl ResourceBinding {
    /// Creates a new explicit texture binding.
    pub fn texture(texture: &GpuTexture, binding: usize) -> (r: Self)
        ensures
            r matches ResourceBinding::Texture { texture: t, binding: b } && spec_tex_eq(
                t,
                *texture,
            ) && b == binding,
    {
        Self::Texture { texture: texture.clone(), binding }
    }

    /// Creates a new explicit buffer binding.
    pub fn buffer(buffer: &GpuBuffer, binding: usize, data_usage: BufferDataUsage) -> (r: Self)
        ensures
            r == (ResourceBinding::Buffer { buffer: *buffer, binding, data_usage }),
    {
        Self::Buffer { buffer: *buffer, binding, data_usage }
    }
}

/// Resource bind group: a set of bindings applied together.
#[derive(Debug)]
pub struct ResourceBindGroup {
    /// The bindings of the group.
    pub bindings: Vec<ResourceBinding>,
}

/// Statistics for a single GPU draw call.
#[must_use]
#[derive(Clone, Copy, Debug, PartialEq, Eq, Structural)]
pub struct DrawCallStatistics {
    /// Total number of rendered triangles.
    pub triangles: usize,
}

/// Which range of a geometry buffer's elements to draw.
#[derive(Clone, Copy, Debug, PartialEq, Eq, Structural)]
pub enum ElementRange {
    /// Draw every indexed triangle.
    Full,
    /// Draw `count` triangles starting at triangle `offset`.
    Specific { offset: usize, count: usize },
}

/// Which side of a triangle is culled.
#[derive(Clone, Copy, Debug, PartialEq, Eq, Structural)]
pub enum CullFace {
    Back,
    Front,
}

/// A per-fragment comparison function.
#[derive(Clone, Copy, Debug, PartialEq, Eq, Structural)]
pub enum CompareFunc {
    Never,
    Less,
    Equal,
    LessOrEqual,
    Greater,
    NotEqual,
    GreaterOrEqual,
    Always,
}

/// Which color channels a draw call may write.
#[derive(Clone, Copy, Debug, PartialEq, Eq, Structural)]
pub struct ColorMask {
    pub red: bool,
    pub green: bool,
    pub blue: bool,
    pub alpha: bool,
}

impl ColorMask {
    /// A mask with every channel set to `value`.
    pub fn all(value: bool) -> (r: ColorMask)
        ensures
            r == (ColorMask { red: value, green: value, blue: value, alpha: value }),
    {
        ColorMask { red: value, green: value, blue: value, alpha: value }
    }
}

/// Graphics pipeline state for one draw call: culling, write masks, tests
/// and scissoring.
#[derive(Clone, Copy, Debug, PartialEq, Eq, Structural)]
pub struct DrawParameters {
    /// Back- or front-face culling, if any.
    pub cull_face: Option<CullFace>,
    /// Which color channels are written.
    pub color_write: ColorMask,
    /// Whether the depth buffer is written.
    pub depth_write: bool,
    /// Stencil test to apply, if any.
    pub stencil_test: Option<CompareFunc>,
    /// Depth test to apply, if any.
    pub depth_test: Option<CompareFunc>,
    /// Restricts rendering to a rectangle, if given.
    pub scissor_box: Option<Rect>,
}

/// The color attachments of an attachment list, in their supplied order.
pub open spec fn spec_color_filter(s: Seq<Attachment>) -> Seq<Attachment>
    decreases s.len(),
{
    if s.len() == 0 {
        Seq::empty()
    } else if s.last().spec_is_depth() {
        spec_color_filter(s.drop_last())
    } else {
        spec_color_filter(s.drop_last()).push(s.last())
    }
}

/// How many depth or depth-stencil attachments an attachment list carries.
pub open spec fn spec_depth_count(s: Seq<Attachment>) -> nat
    decreases s.len(),
{
    if s.len() == 0 {
        0
    } else if s.last().spec_is_depth() {
        spec_depth_count(s.drop_last()) + 1
    } else {
        spec_depth_count(s.drop_last())
    }
}

/// The depth or depth-stencil attachment of an attachment list, if any.
pub open spec fn spec_depth_of(s: Seq<Attachment>) -> Option<Attachment>
    decreases s.len(),
{
    if s.len() == 0 {
        None
    } else if s.last().spec_is_depth() && spec_depth_of(s.drop_last()) is None {
        Some(s.last())
    } else {
        spec_depth_of(s.drop_last())
    }
}

/// A prefix of an attachment list never carries more depth attachments than
/// the whole list.
proof fn lemma_depth_count_monotonic(s: Seq<Attachment>, k: int)
    requires
        0 <= k <= s.len(),
    ensures
        spec_depth_count(s) >= spec_depth_count(s.take(k)),
    decreases s.len() - k,
{
    if k == s.len() {
        assert(s.take(k) =~= s);
    } else {
        assert(s.take(k + 1).drop_last() =~= s.take(k));
        assert(s.take(k + 1).last() == s[k]);
        lemma_depth_count_monotonic(s, k + 1);
    }
}

/// An attachment list without a depth attachment counts zero of them.
proof fn lemma_depth_of_none_count(s: Seq<Attachment>)
    requires
        spec_depth_of(s) is None,
    ensures
        spec_depth_count(s) == 0,
    decreases s.len(),
{
    if s.len() > 0 {
        lemma_depth_of_none_count(s.drop_last());
    }
}

/// An attachment list with a depth attachment counts at least one of them.
proof fn lemma_depth_of_some_count(s: Seq<Attachment>)
    requires
        spec_depth_of(s) is Some,
    ensures
        spec_depth_count(s) >= 1,
    decreases s.len(),
{
    if s.len() > 0 {
        if s.last().spec_is_depth() {
        } else {
            lemma_depth_of_some_count(s.drop_last());
        }
    }
}

/// A frame buffer: a set of images used as one render target. It consists
/// of color attachments in a caller-chosen order and an optional depth or
/// depth-stencil attachment.
#[derive(Debug)]
pub struct FrameBuffer {
    /// The color attachments, order preserved as supplied.
    pub color_attachments: Vec<Attachment>,
    /// The depth or depth-stencil attachment, if any.
    pub depth_attachment: Option<Attachment>,
}

impl FrameBuffer {
    /// Every color slot holds a color attachment over a well-formed texture,
    /// and the depth slot, when filled, holds a depth-class attachment over
    /// a well-formed texture.
    pub open spec fn wf(self) -> bool {
        &&& forall|i: int|
            0 <= i < self.color_attachments.len() ==> (#[trigger] self.color_attachments[i]).kind
                == AttachmentKind::Color && self.color_attachments[i].texture.wf()
        &&& match self.depth_attachment {
            Some(d) => d.spec_is_depth() && d.texture.wf(),
            None => true,
        }
    }

    /// Builds a frame buffer from one attachment list. The attachments keep
    /// their order; at most one of them may be a depth or depth-stencil
    /// attachment, or the layout is rejected.
    #[verifier::loop_isolation(false)]
    pub fn new(attachments: Vec<Attachment>) -> (r: Result<FrameBuffer, FrameworkError>)
        requires
            forall|i: int| 0 <= i < attachments.len() ==> (#[trigger] attachments[i]).texture.wf(),
        ensures
            match r {
                Ok(fb) => {
                    &&& spec_depth_count(attachments@) <= 1
                    &&& fb.color_attachments@ == spec_color_filter(attachments@)
                    &&& fb.depth_attachment == spec_depth_of(attachments@)
                    &&& fb.wf()
                },
                Err(e) => {
                    &&& e == FrameworkError::InvalidAttachmentLayout
                    &&& spec_depth_count(attachments@) > 1
                },
            },
    {
        let ghost orig = attachments@;
        let mut rest = attachments;
        let total = rest.len();
        let mut colors: Vec<Attachment> = Vec::new();
        let mut depth: Option<Attachment> = None;
        let mut i: usize = 0;
        proof {
            assert(orig.take(0) =~= Seq::<Attachment>::empty());
            assert(orig.skip(0) =~= orig);
        }
        // Consuming the list in order keeps the color ordering as supplied.
        while rest.len() > 0
            invariant
                orig.len() == total,
                i + rest.len() == orig.len(),
                rest@ == orig.skip(i as int),
                forall|j: int| 0 <= j < orig.len() ==> (#[trigger] orig[j]).texture.wf(),
                colors@ == spec_color_filter(orig.take(i as int)),
                depth == spec_depth_of(orig.take(i as int)),
                spec_depth_count(orig.take(i as int)) <= 1,
                forall|j: int| 0 <= j < colors.len() ==> (#[trigger] colors[j]).kind
                    == AttachmentKind::Color && colors[j].texture.wf(),
                match depth {
                    Some(d) => d.spec_is_depth() && d.texture.wf(),
                    None => true,
                },
            decreases rest.len(),
        {
            let a = rest.remove(0);
            proof {
                assert(a == orig[i as int]);
                assert(orig.skip(i as int).remove(0) =~= orig.skip(i as int + 1));
                assert(orig.take(i as int + 1).drop_last() =~= orig.take(i as int));
                assert(orig.take(i as int + 1).last() == orig[i as int]);
            }
            let is_depth = match a.kind {
                AttachmentKind::Color => false,
                AttachmentKind::Depth => true,
                AttachmentKind::DepthStencil => true,
            };
            if is_depth {
                if depth.is_some() {
                    proof {
                        lemma_depth_of_some_count(orig.take(i as int));
                        assert(spec_depth_count(orig.take(i as int + 1)) == spec_depth_count(
                            orig.take(i as int),
                        ) + 1);
                        lemma_depth_count_monotonic(orig, i as int + 1);
                        assert(spec_depth_count(orig) >= 2);
                    }
                    return Err(FrameworkError::InvalidAttachmentLayout);
                }
                proof {
                    lemma_depth_of_none_count(orig.take(i as int));
                }
                depth = Some(a);
            } else {
                colors.push(a);
            }
            i = i + 1;
        }
        proof {
            assert(orig.take(i as int) =~= orig);
        }
        Ok(FrameBuffer { color_attachments: colors, depth_attachment: depth })
    }

    /// Returns the list of color attachments, in the order supplied at
    /// construction.
    pub fn color_attachments(&self) -> (r: &Vec<Attachment>)
        ensures
            r == &self.color_attachments,
    {
        &self.color_attachments
    }

    /// Returns the optional depth or depth-stencil attachment.
    pub fn depth_attachment(&self) -> (r: &Option<Attachment>)
        ensures
            r == &self.depth_attachment,
    {
        &self.depth_attachment
    }

    /// Rebinds a color attachment to a specific cube-map face for subsequent
    /// draws. A no-op when the index is out of range or the attachment is
    /// not a cube-map texture.
    pub fn set_cubemap_face(&mut self, attachment_index: usize, face: CubeMapFace)
        ensures
            final(self).depth_attachment == old(self).depth_attachment,
            final(self).color_attachments.len() == old(self).color_attachments.len(),
            forall|i: int|
                0 <= i < old(self).color_attachments.len() && i != attachment_index
                    ==> final(self).color_attachments[i] == old(self).color_attachments[i],
            attachment_index < old(self).color_attachments.len() ==> {
                let a_old = old(self).color_attachments[attachment_index as int];
                let a_new = final(self).color_attachments[attachment_index as int];
                if a_old.texture.kind matches GpuTextureKind::Cube { .. } {
                    &&& a_new.kind == a_old.kind
                    &&& a_new.texture == (GpuTexture { active_face: face, ..a_old.texture })
                } else {
                    a_new == a_old
                }
            },
    {
        if attachment_index < self.color_attachments.len() {
            let is_cube = match self.color_attachments[attachment_index].texture.kind {
                GpuTextureKind::Cube { .. } => true,
                GpuTextureKind::Rectangle { .. } => false,
            };
            if is_cube {
                let a = &mut self.color_attachments[attachment_index];
                a.texture.active_face = face;
            }
        }
    }
}

/// Which part of a 32-bit render-target word an operation writes: the whole
/// word, the 24 depth bits above the stencil byte, or the stencil byte.
#[derive(Clone, Copy, Debug, PartialEq, Eq, Structural)]
pub enum ChannelSelect {
    All,
    DepthBits,
    StencilBits,
}

/// Combines a source word with an existing word, writing only the selected
/// channels. The low 8 bits of a depth-stencil word are the stencil byte.
pub open spec fn spec_combine(sel: ChannelSelect, s: u32, o: u32) -> u32 {
    match sel {
        ChannelSelect::All => s,
        ChannelSelect::DepthBits => ((s - s % 256) + o % 256) as u32,
        ChannelSelect::StencilBits => ((o - o % 256) + s % 256) as u32,
    }
}

/// Exec twin of [`spec_combine`].
fn combine_word(sel: ChannelSelect, s: u32, o: u32) -> (r: u32)
    ensures
        r == spec_combine(sel, s, o),
{
    match sel {
        ChannelSelect::All => s,
        ChannelSelect::DepthBits => (s - s % 256) + o % 256,
        ChannelSelect::StencilBits => (o - o % 256) + s % 256,
    }
}

/// A pixel grid after writing `word` (through the selected channels) at
/// every position inside `vp`; every other position keeps its old value.
pub open spec fn spec_fill(
    px: Seq<u32>,
    w: int,
    vp: Rect,
    word: u32,
    sel: ChannelSelect,
) -> Seq<u32> {
    Seq::new(
        px.len(),
        |p: int|
            if vp.contains(p % w, p / w) {
                spec_combine(sel, word, px[p])
            } else {
                px[p]
            },
    )
}

/// Writes `word` through the selected channels at every grid position
/// inside `vp`.
#[verifier::loop_isolation(false)]
fn fill_region(pixels: &mut Vec<u32>, w: usize, h: usize, vp: Rect, word: u32, sel: ChannelSelect)
    requires
        old(pixels).len() == w * h,
        w <= TEXTURE_DIM_LIMIT,
        h <= TEXTURE_DIM_LIMIT,
    ensures
        final(pixels)@ == spec_fill(old(pixels)@, w as int, vp, word, sel),
{
    let ghost target = spec_fill(old(pixels)@, w as int, vp, word, sel);
    let n = pixels.len();
    let mut p: usize = 0;
    while p < n
        invariant
            pixels@.len() == n,
            p <= n,
            forall|q: int| 0 <= q < p ==> pixels@[q] == target[q],
            forall|q: int| p <= q < n ==> pixels@[q] == old(pixels)@[q],
        decreases n - p,
    {
        proof {
            assert(w != 0) by (nonlinear_arith)
                requires
                    n == w * h,
                    p < n,
                    0 <= w,
                    0 <= h,
            ;
            vstd::arithmetic::div_mod::lemma_multiply_divide_lt(p as int, w as int, h as int);
        }
        let x = p % w;
        let y = p / w;
        let inside = vp.x as i64 <= x as i64 && (x as i64) < vp.x as i64 + vp.w as i64
            && vp.y as i64 <= y as i64 && (y as i64) < vp.y as i64 + vp.h as i64;
        if inside {
            let updated = combine_word(sel, word, pixels[p]);
            pixels[p] = updated;
        }
        p = p + 1;
    }
    proof {
        assert(pixels@ =~= target);
    }
}

/// The texture of `a_new` equals the texture of `a_old` with its grid
/// filled inside `vp`; everything else about the attachment is unchanged.
pub open spec fn spec_att_cleared(
    a_old: Attachment,
    a_new: Attachment,
    vp: Rect,
    word: u32,
    sel: ChannelSelect,
) -> bool {
    &&& a_new.kind == a_old.kind
    &&& a_new.texture.key == a_old.texture.key
    &&& a_new.texture.kind == a_old.texture.kind
    &&& a_new.texture.pixel_kind == a_old.texture.pixel_kind
    &&& a_new.texture.active_face == a_old.texture.active_face
    &&& a_new.texture.alive == a_old.texture.alive
    &&& a_new.texture.pixels@ == spec_fill(
        a_old.texture.pixels@,
        a_old.texture.spec_width(),
        vp,
        word,
        sel,
    )
}

/// What the depth attachment must look like after a clear with the given
/// optional depth word and stencil value.
pub open spec fn spec_depth_cleared(
    d_old: Attachment,
    d_new: Attachment,
    vp: Rect,
    depth: Option<u32>,
    stencil: Option<i32>,
) -> bool {
    match d_old.kind {
        AttachmentKind::Depth => match depth {
            Some(dv) => spec_att_cleared(d_old, d_new, vp, dv, ChannelSelect::All),
            None => d_new == d_old,
        },
        AttachmentKind::DepthStencil => match (depth, stencil) {
            (Some(dv), Some(sv)) => spec_att_cleared(
                d_old,
                d_new,
                vp,
                ((dv % 0x1000000) * 256 + sv) as u32,
                ChannelSelect::All,
            ),
            (Some(dv), None) => spec_att_cleared(
                d_old,
                d_new,
                vp,
                ((dv % 0x1000000) * 256) as u32,
                ChannelSelect::DepthBits,
            ),
            (None, Some(sv)) => spec_att_cleared(
                d_old,
                d_new,
                vp,
                sv as u32,
                ChannelSelect::StencilBits,
            ),
            (None, None) => d_new == d_old,
        },
        AttachmentKind::Color => d_new == d_old,
    }
}

impl FrameBuffer {
    /// Clears the frame buffer inside `viewport` with the given set of
    /// optional values. Only channels whose argument is present change: a
    /// given `color` clears all color attachments at once, `depth` and
    /// `stencil` clear their channels of the depth attachment. Untouched
    /// channels and pixels outside the viewport keep their contents.
    #[verifier::loop_isolation(false)]
    pub fn clear(
        &mut self,
        viewport: Rect,
        color: Option<Color>,
        depth: Option<u32>,
        stencil: Option<i32>,
    )
        requires
            old(self).wf(),
            stencil matches Some(s) ==> 0 <= s <= 255,
        ensures
            final(self).wf(),
            color is None && depth is None && stencil is None ==> *final(self) == *old(self),
            final(self).color_attachments.len() == old(self).color_attachments.len(),
            forall|i: int|
                0 <= i < old(self).color_attachments.len() ==> match color {
                    Some(c) => spec_att_cleared(
                        old(self).color_attachments[i],
                        #[trigger] final(self).color_attachments[i],
                        viewport,
                        spec_pack_color(c),
                        ChannelSelect::All,
                    ),
                    None => final(self).color_attachments[i] == old(self).color_attachments[i],
                },
            match old(self).depth_attachment {
                None => final(self).depth_attachment is None,
                Some(d) => final(self).depth_attachment matches Some(nd) && spec_depth_cleared(
                    d,
                    nd,
                    viewport,
                    depth,
                    stencil,
                ),
            },
    {
        if let Some(c) = color {
            let word = c.pack();
            let n = self.color_attachments.len();
            let mut i: usize = 0;
            while i < n
                invariant
                    self.color_attachments.len() == n,
                    i <= n,
                    self.depth_attachment == old(self).depth_attachment,
                    forall|j: int|
                        0 <= j < i ==> spec_att_cleared(
                            old(self).color_attachments[j],
                            #[trigger] self.color_attachments[j],
                            viewport,
                            spec_pack_color(c),
                            ChannelSelect::All,
                        ),
                    forall|j: int|
                        i <= j < n ==> #[trigger] self.color_attachments[j] == old(
                            self,
                        ).color_attachments[j],
                decreases n - i,
            {
                let w = self.color_attachments[i].texture.width();
                let h = self.color_attachments[i].texture.height();
                fill_region(
                    &mut self.color_attachments[i].texture.pixels,
                    w,
                    h,
                    viewport,
                    word,
                    ChannelSelect::All,
                );
                i = i + 1;
            }
        }
        if depth.is_some() || stencil.is_some() {
            match self.depth_attachment.take() {
                Some(mut d) => {
                    let w = d.texture.width();
                    let h = d.texture.height();
                    match d.kind {
                        AttachmentKind::Depth => {
                            if let Some(dv) = depth {
                                fill_region(
                                    &mut d.texture.pixels,
                                    w,
                                    h,
                                    viewport,
                                    dv,
                                    ChannelSelect::All,
                                );
                            }
                        },
                        AttachmentKind::DepthStencil => {
                            match (depth, stencil) {
                                (Some(dv), Some(sv)) => {
                                    let word = (dv % 0x1000000) * 256 + (sv as u32);
                                    fill_region(
                                        &mut d.texture.pixels,
                                        w,
                                        h,
                                        viewport,
                                        word,
                                        ChannelSelect::All,
                                    );
                                },
                                (Some(dv), None) => {
                                    let word = (dv % 0x1000000) * 256;
                                    fill_region(
                                        &mut d.texture.pixels,
                                        w,
                                        h,
                                        viewport,
                                        word,
                                        ChannelSelect::DepthBits,
                                    );
                                },
                                (None, Some(sv)) => {
                                    fill_region(
                                        &mut d.texture.pixels,
                                        w,
                                        h,
                                        viewport,
                                        sv as u32,
                                        ChannelSelect::StencilBits,
                                    );
                                },
                                (None, None) => {},
                            }
                        },
                        AttachmentKind::Color => {},
                    }
                    self.depth_attachment = Some(d);
                },
                None => {},
            }
        }
    }
}

/// Whether a rectangle given by its two corners lies inside a texture's
/// pixel grid.
pub open spec fn spec_rect_in(x0: int, y0: int, x1: int, y1: int, t: GpuTexture) -> bool {
    &&& 0 <= x0 <= x1 <= t.spec_width()
    &&& 0 <= y0 <= y1 <= t.spec_height()
}

/// A destination grid after pasting the rectangle `(sx0, sy0)..(sx1, sy1)`
/// of the source grid over its rectangle `(dx0, dy0)..(dx1, dy1)`, resampled
/// with nearest-neighbour interpolation and written through the selected
/// channels.
pub open spec fn spec_blit(
    dst: Seq<u32>,
    src: Seq<u32>,
    sw: int,
    dw: int,
    sx0: int,
    sy0: int,
    sx1: int,
    sy1: int,
    dx0: int,
    dy0: int,
    dx1: int,
    dy1: int,
    sel: ChannelSelect,
) -> Seq<u32> {
    Seq::new(
        dst.len(),
        |p: int|
            {
                let x = p % dw;
                let y = p / dw;
                if dx0 <= x < dx1 && dy0 <= y < dy1 {
                    let sx = sx0 + (x - dx0) * (sx1 - sx0) / (dx1 - dx0);
                    let sy = sy0 + (y - dy0) * (sy1 - sy0) / (dy1 - dy0);
                    spec_combine(sel, src[sy * sw + sx], dst[p])
                } else {
                    dst[p]
                }
            },
    )
}

/// Pastes a source rectangle over a destination rectangle with
/// nearest-neighbour resampling, writing through the selected channels.
#[verifier::loop_isolation(false)]
fn blit_region(
    dst: &mut Vec<u32>,
    dw: usize,
    dh: usize,
    src: &Vec<u32>,
    sw: usize,
    sh: usize,
    sx0: i32,
    sy0: i32,
    sx1: i32,
    sy1: i32,
    dx0: i32,
    dy0: i32,
    dx1: i32,
    dy1: i32,
    sel: ChannelSelect,
)
    requires
        old(dst).len() == dw * dh,
        src.len() == sw * sh,
        dw <= TEXTURE_DIM_LIMIT,
        dh <= TEXTURE_DIM_LIMIT,
        sw <= TEXTURE_DIM_LIMIT,
        sh <= TEXTURE_DIM_LIMIT,
        0 <= sx0 <= sx1 <= sw,
        0 <= sy0 <= sy1 <= sh,
        0 <= dx0 <= dx1 <= dw,
        0 <= dy0 <= dy1 <= dh,
        dx1 > dx0 ==> sx1 > sx0,
        dy1 > dy0 ==> sy1 > sy0,
    ensures
        final(dst)@ == spec_blit(
            old(dst)@,
            src@,
            sw as int,
            dw as int,
            sx0 as int,
            sy0 as int,
            sx1 as int,
            sy1 as int,
            dx0 as int,
            dy0 as int,
            dx1 as int,
            dy1 as int,
            sel,
        ),
{
    let ghost target = spec_blit(
        old(dst)@,
        src@,
        sw as int,
        dw as int,
        sx0 as int,
        sy0 as int,
        sx1 as int,
        sy1 as int,
        dx0 as int,
        dy0 as int,
        dx1 as int,
        dy1 as int,
        sel,
    );
    let n = dst.len();
    let mut p: usize = 0;
    while p < n
        invariant
            dst@.len() == n,
            p <= n,
            forall|q: int| 0 <= q < p ==> dst@[q] == target[q],
            forall|q: int| p <= q < n ==> dst@[q] == old(dst)@[q],
        decreases n - p,
    {
        proof {
            assert(dw != 0) by (nonlinear_arith)
                requires
                    n == dw * dh,
                    p < n,
                    0 <= dw,
                    0 <= dh,
            ;
            vstd::arithmetic::div_mod::lemma_multiply_divide_lt(p as int, dw as int, dh as int);
        }
        let x = (p % dw) as i64;
        let y = (p / dw) as i64;
        let inside = dx0 as i64 <= x && x < dx1 as i64 && dy0 as i64 <= y && y < dy1 as i64;
        if inside {
            proof {
                assert((x - dx0) * (sx1 - sx0) < (dx1 - dx0) * (sx1 - sx0)) by (nonlinear_arith)
                    requires
                        dx0 <= x < dx1,
                        sx0 < sx1,
                ;
                vstd::arithmetic::div_mod::lemma_multiply_divide_lt(
                    (x - dx0) * (sx1 - sx0),
                    (dx1 - dx0) as int,
                    (sx1 - sx0) as int,
                );
                assert((x - dx0) * (sx1 - sx0) >= 0) by (nonlinear_arith)
                    requires
                        dx0 <= x,
                        sx0 < sx1,
                ;
                vstd::arithmetic::div_mod::lemma_div_pos_is_pos(
                    (x - dx0) * (sx1 - sx0),
                    (dx1 - dx0) as int,
                );
                assert((y - dy0) * (sy1 - sy0) < (dy1 - dy0) * (sy1 - sy0)) by (nonlinear_arith)
                    requires
                        dy0 <= y < dy1,
                        sy0 < sy1,
                ;
                vstd::arithmetic::div_mod::lemma_multiply_divide_lt(
                    (y - dy0) * (sy1 - sy0),
                    (dy1 - dy0) as int,
                    (sy1 - sy0) as int,
                );
                assert((y - dy0) * (sy1 - sy0) >= 0) by (nonlinear_arith)
                    requires
                        dy0 <= y,
                        sy0 < sy1,
                ;
                vstd::arithmetic::div_mod::lemma_div_pos_is_pos(
                    (y - dy0) * (sy1 - sy0),
                    (dy1 - dy0) as int,
                );
            }
            proof {
                assert((x - dx0) * (sx1 - sx0) <= 0x4000_0000) by (nonlinear_arith)
                    requires
                        0 <= x - dx0 <= 0x8000,
                        0 <= sx1 - sx0 <= 0x8000,
                ;
                assert((y - dy0) * (sy1 - sy0) <= 0x4000_0000) by (nonlinear_arith)
                    requires
                        0 <= y - dy0 <= 0x8000,
                        0 <= sy1 - sy0 <= 0x8000,
                ;
            }
            let sx = sx0 as i64 + (x - dx0 as i64) * (sx1 as i64 - sx0 as i64) / (dx1 as i64
                - dx0 as i64);
            let sy = sy0 as i64 + (y - dy0 as i64) * (sy1 as i64 - sy0 as i64) / (dy1 as i64
                - dy0 as i64);
            proof {
                assert(sy * sw + sx < sw * sh) by (nonlinear_arith)
                    requires
                        0 <= sx < sw,
                        0 <= sy < sh,
                        sw >= 1,
                ;
                assert(sy * sw + sx >= 0) by (nonlinear_arith)
                    requires
                        0 <= sx,
                        0 <= sy,
                        sw >= 1,
                ;
            }
            let si = (sy as usize) * sw + (sx as usize);
            let updated = combine_word(sel, src[si], dst[p]);
            dst[p] = updated;
        }
        p = p + 1;
    }
    proof {
        assert(dst@ =~= target);
    }
}

/// The texture of `d_new` equals the texture of `d_old` with the source
/// attachment's rectangle pasted over it; everything else about the
/// attachment is unchanged.
pub open spec fn spec_att_blitted(
    src_a: Attachment,
    d_old: Attachment,
    d_new: Attachment,
    sx0: int,
    sy0: int,
    sx1: int,
    sy1: int,
    dx0: int,
    dy0: int,
    dx1: int,
    dy1: int,
    sel: ChannelSelect,
) -> bool {
    &&& d_new.kind == d_old.kind
    &&& d_new.texture.key == d_old.texture.key
    &&& d_new.texture.kind == d_old.texture.kind
    &&& d_new.texture.pixel_kind == d_old.texture.pixel_kind
    &&& d_new.texture.active_face == d_old.texture.active_face
    &&& d_new.texture.alive == d_old.texture.alive
    &&& d_new.texture.pixels@ == spec_blit(
        d_old.texture.pixels@,
        src_a.texture.pixels@,
        src_a.texture.spec_width(),
        d_old.texture.spec_width(),
        sx0,
        sy0,
        sx1,
        sy1,
        dx0,
        dy0,
        dx1,
        dy1,
        sel,
    )
}

/// Which channels a depth-class blit writes, given the two attachment kinds
/// and the copy flags; `None` when nothing is transferred.
pub open spec fn spec_depth_blit_channels(
    src_kind: AttachmentKind,
    dst_kind: AttachmentKind,
    copy_depth: bool,
    copy_stencil: bool,
) -> Option<ChannelSelect> {
    if src_kind == AttachmentKind::Depth && dst_kind == AttachmentKind::Depth {
        if copy_depth {
            Some(ChannelSelect::All)
        } else {
            None
        }
    } else if src_kind == AttachmentKind::DepthStencil && dst_kind == AttachmentKind::DepthStencil {
        if copy_depth && copy_stencil {
            Some(ChannelSelect::All)
        } else if copy_depth {
            Some(ChannelSelect::DepthBits)
        } else if copy_stencil {
            Some(ChannelSelect::StencilBits)
        } else {
            None
        }
    } else {
        None
    }
}

impl FrameBuffer {
    /// Copies a rectangular region of this frame buffer into a region of
    /// `dest`, resampling with nearest-neighbour interpolation where the two
    /// rectangles differ in size. `copy_color` transfers each color
    /// attachment onto the like-indexed one of `dest`; `copy_depth` and
    /// `copy_stencil` independently gate the channels moved between the two
    /// depth attachments. With all three flags false the destination is
    /// untouched.
    #[verifier::loop_isolation(false)]
    pub fn blit_to(
        &self,
        dest: &mut FrameBuffer,
        src_x0: i32,
        src_y0: i32,
        src_x1: i32,
        src_y1: i32,
        dst_x0: i32,
        dst_y0: i32,
        dst_x1: i32,
        dst_y1: i32,
        copy_color: bool,
        copy_depth: bool,
        copy_stencil: bool,
    )
        requires
            self.wf(),
            old(dest).wf(),
            dst_x1 > dst_x0 ==> src_x1 > src_x0,
            dst_y1 > dst_y0 ==> src_y1 > src_y0,
            copy_color ==> forall|i: int|
                0 <= i < self.color_attachments.len() && i < old(dest).color_attachments.len()
                    ==> spec_rect_in(
                    src_x0 as int,
                    src_y0 as int,
                    src_x1 as int,
                    src_y1 as int,
                    (#[trigger] self.color_attachments[i]).texture,
                ) && spec_rect_in(
                    dst_x0 as int,
                    dst_y0 as int,
                    dst_x1 as int,
                    dst_y1 as int,
                    old(dest).color_attachments[i].texture,
                ),
            (copy_depth || copy_stencil) && self.depth_attachment is Some && old(
                dest,
            ).depth_attachment is Some ==> spec_rect_in(
                src_x0 as int,
                src_y0 as int,
                src_x1 as int,
                src_y1 as int,
                self.depth_attachment->0.texture,
            ) && spec_rect_in(
                dst_x0 as int,
                dst_y0 as int,
                dst_x1 as int,
                dst_y1 as int,
                old(dest).depth_attachment->0.texture,
            ),
        ensures
            final(dest).wf(),
            !copy_color && !copy_depth && !copy_stencil ==> *final(dest) == *old(dest),
            final(dest).color_attachments.len() == old(dest).color_attachments.len(),
            forall|i: int|
                0 <= i < old(dest).color_attachments.len() ==> if copy_color && i
                    < self.color_attachments.len() {
                    spec_att_blitted(
                        self.color_attachments[i],
                        old(dest).color_attachments[i],
                        #[trigger] final(dest).color_attachments[i],
                        src_x0 as int,
                        src_y0 as int,
                        src_x1 as int,
                        src_y1 as int,
                        dst_x0 as int,
                        dst_y0 as int,
                        dst_x1 as int,
                        dst_y1 as int,
                        ChannelSelect::All,
                    )
                } else {
                    final(dest).color_attachments[i] == old(dest).color_attachments[i]
                },
            match (self.depth_attachment, old(dest).depth_attachment) {
                (Some(s), Some(d)) => match spec_depth_blit_channels(
                    s.kind,
                    d.kind,
                    copy_depth,
                    copy_stencil,
                ) {
                    Some(sel) => final(dest).depth_attachment matches Some(nd)
                        && spec_att_blitted(
                        s,
                        d,
                        nd,
                        src_x0 as int,
                        src_y0 as int,
                        src_x1 as int,
                        src_y1 as int,
                        dst_x0 as int,
                        dst_y0 as int,
                        dst_x1 as int,
                        dst_y1 as int,
                        sel,
                    ),
                    None => final(dest).depth_attachment == old(dest).depth_attachment,
                },
                _ => final(dest).depth_attachment == old(dest).depth_attachment,
            },
    {
        if copy_color {
            let a = self.color_attachments.len();
            let b = dest.color_attachments.len();
            let count = if a < b {
                a
            } else {
                b
            };
            let mut i: usize = 0;
            while i < count
                invariant
                    dest.color_attachments.len() == b,
                    i <= count,
                    dest.depth_attachment == old(dest).depth_attachment,
                    forall|j: int|
                        0 <= j < i ==> spec_att_blitted(
                            self.color_attachments[j],
                            old(dest).color_attachments[j],
                            #[trigger] dest.color_attachments[j],
                            src_x0 as int,
                            src_y0 as int,
                            src_x1 as int,
                            src_y1 as int,
                            dst_x0 as int,
                            dst_y0 as int,
                            dst_x1 as int,
                            dst_y1 as int,
                            ChannelSelect::All,
                        ),
                    forall|j: int|
                        i <= j < b ==> #[trigger] dest.color_attachments[j] == old(
                            dest,
                        ).color_attachments[j],
                decreases count - i,
            {
                let dw = dest.color_attachments[i].texture.width();
                let dh = dest.color_attachments[i].texture.height();
                let sw = self.color_attachments[i].texture.width();
                let sh = self.color_attachments[i].texture.height();
                blit_region(
                    &mut dest.color_attachments[i].texture.pixels,
                    dw,
                    dh,
                    &self.color_attachments[i].texture.pixels,
                    sw,
                    sh,
                    src_x0,
                    src_y0,
                    src_x1,
                    src_y1,
                    dst_x0,
                    dst_y0,
                    dst_x1,
                    dst_y1,
                    ChannelSelect::All,
                );
                i = i + 1;
            }
        }
        if copy_depth || copy_stencil {
            if let Some(sa) = &self.depth_attachment {
                match dest.depth_attachment.take() {
                    Some(mut d) => {
                        let sel: Option<ChannelSelect> = match (sa.kind, d.kind) {
                            (AttachmentKind::Depth, AttachmentKind::Depth) => if copy_depth {
                                Some(ChannelSelect::All)
                            } else {
                                None
                            },
                            (AttachmentKind::DepthStencil, AttachmentKind::DepthStencil) => {
                                if copy_depth && copy_stencil {
                                    Some(ChannelSelect::All)
                                } else if copy_depth {
                                    Some(ChannelSelect::DepthBits)
                                } else if copy_stencil {
                                    Some(ChannelSelect::StencilBits)
                                } else {
                                    None
                                }
                            },
                            _ => None,
                        };
                        if let Some(sel) = sel {
                            let dw = d.texture.width();
                            let dh = d.texture.height();
                            let sw = sa.texture.width();
                            let sh = sa.texture.height();
                            blit_region(
                                &mut d.texture.pixels,
                                dw,
                                dh,
                                &sa.texture.pixels,
                                sw,
                                sh,
                                src_x0,
                                src_y0,
                                src_x1,
                                src_y1,
                                dst_x0,
                                dst_y0,
                                dst_x1,
                                dst_y1,
                                sel,
                            );
                        }
                        dest.depth_attachment = Some(d);
                    },
                    None => {},
                }
            }
        }
    }
}

/// The error a single resource binding produces under a program, if any: a
/// destroyed texture or buffer, a binding slot outside the program's
/// reflected locations, or a buffer segment outside the buffer, checked in
/// that order.
pub open spec fn spec_binding_err(b: ResourceBinding, p: GpuProgram) -> Option<FrameworkError> {
    match b {
        ResourceBinding::Texture { texture, binding } => if !texture.alive {
            Some(FrameworkError::InvalidResource)
        } else if !spec_has_uniform_slot(p.uniforms@, binding) {
            Some(FrameworkError::InvalidBindingSlot)
        } else {
            None
        },
        ResourceBinding::Buffer { buffer, binding, data_usage } => if !buffer.alive {
            Some(FrameworkError::InvalidResource)
        } else if !spec_has_block_slot(p.blocks@, binding) {
            Some(FrameworkError::InvalidBindingSlot)
        } else {
            match data_usage {
                BufferDataUsage::UseEverything => None,
                BufferDataUsage::UseSegment { offset, size } => if offset + size > buffer.length {
                    Some(FrameworkError::InvalidBufferSegment)
                } else {
                    None
                },
            }
        },
    }
}

/// The first error among a list of bindings, checked in order.
pub open spec fn spec_bindings_err(s: Seq<ResourceBinding>, p: GpuProgram) -> Option<
    FrameworkError,
>
    decreases s.len(),
{
    if s.len() == 0 {
        None
    } else {
        match spec_binding_err(s[0], p) {
            Some(e) => Some(e),
            None => spec_bindings_err(s.drop_first(), p),
        }
    }
}

/// The first error among the bind groups, checked group by group in order.
pub open spec fn spec_groups_err(s: Seq<ResourceBindGroup>, p: GpuProgram) -> Option<
    FrameworkError,
>
    decreases s.len(),
{
    if s.len() == 0 {
        None
    } else {
        match spec_bindings_err(s[0].bindings@, p) {
            Some(e) => Some(e),
            None => spec_groups_err(s.drop_first(), p),
        }
    }
}

/// The pipeline-state error of a draw call, if any: a depth test or depth
/// write without a depth attachment, or a stencil test without a
/// depth-stencil attachment.
pub open spec fn spec_pipeline_err(fb: FrameBuffer, params: DrawParameters) -> Option<
    FrameworkError,
> {
    if (params.depth_test is Some || params.depth_write) && fb.depth_attachment is None {
        Some(FrameworkError::NoDepthAttachment)
    } else if params.stencil_test is Some && !(fb.depth_attachment matches Some(d) && d.kind
        == AttachmentKind::DepthStencil) {
        Some(FrameworkError::NoDepthAttachment)
    } else {
        None
    }
}

/// How many triangles an element range selects out of a geometry buffer;
/// `None` when the range exceeds the buffer's index count.
pub open spec fn spec_range_count(range: ElementRange, triangle_count: usize) -> Option<usize> {
    match range {
        ElementRange::Full => Some(triangle_count),
        ElementRange::Specific { offset, count } => if offset + count <= triangle_count {
            Some(count)
        } else {
            None
        },
    }
}

/// The outcome of a draw call: its statistics, or the first error found
/// checking, in order, the geometry, the resource bind groups, the pipeline
/// state and the element range.
pub open spec fn spec_draw_result(
    fb: FrameBuffer,
    geometry: GpuGeometryBuffer,
    program: GpuProgram,
    params: DrawParameters,
    groups: Seq<ResourceBindGroup>,
    range: ElementRange,
) -> Result<DrawCallStatistics, FrameworkError> {
    if !geometry.alive {
        Err(FrameworkError::InvalidResource)
    } else {
        match spec_groups_err(groups, program) {
            Some(e) => Err(e),
            None => match spec_pipeline_err(fb, params) {
                Some(e) => Err(e),
                None => match spec_range_count(range, geometry.triangle_count) {
                    Some(c) => Ok(DrawCallStatistics { triangles: c }),
                    None => Err(FrameworkError::InvalidElementRange),
                },
            },
        }
    }
}

/// Checks one list of bindings in order, reporting the first error.
#[verifier::loop_isolation(false)]
fn check_bindings(bindings: &Vec<ResourceBinding>, program: &GpuProgram) -> (r: Option<
    FrameworkError,
>)
    ensures
        r == spec_bindings_err(bindings@, *program),
{
    let n = bindings.len();
    let mut i: usize = 0;
    proof {
        assert(bindings@.skip(0) =~= bindings@);
    }
    while i < n
        invariant
            n == bindings.len(),
            i <= n,
            spec_bindings_err(bindings@, *program) == spec_bindings_err(
                bindings@.skip(i as int),
                *program,
            ),
        decreases n - i,
    {
        proof {
            assert(bindings@.skip(i as int)[0] == bindings@[i as int]);
            assert(bindings@.skip(i as int).drop_first() =~= bindings@.skip(i as int + 1));
        }
        match &bindings[i] {
            ResourceBinding::Texture { texture, binding } => {
                if !texture.alive {
                    return Some(FrameworkError::InvalidResource);
                }
                if !program.has_uniform_slot(*binding) {
                    return Some(FrameworkError::InvalidBindingSlot);
                }
            },
            ResourceBinding::Buffer { buffer, binding, data_usage } => {
                if !buffer.alive {
                    return Some(FrameworkError::InvalidResource);
                }
                if !program.has_block_slot(*binding) {
                    return Some(FrameworkError::InvalidBindingSlot);
                }
                if let BufferDataUsage::UseSegment { offset, size } = data_usage {
                    if *size > buffer.length || *offset > buffer.length - *size {
                        return Some(FrameworkError::InvalidBufferSegment);
                    }
                }
            },
        }
        i = i + 1;
    }
    None
}

impl FrameBuffer {
    /// Validates one draw call and reports its statistics. The geometry and
    /// every bound resource must still exist, every binding slot must be
    /// among the program's reflected locations, buffer segments must lie
    /// inside their buffers, depth or stencil state needs a matching depth
    /// attachment, and the element range must fit the geometry buffer's
    /// index count; the first violation, in that order, is returned as an
    /// error. Rasterization itself is the GPU's work and happens outside
    /// this model; `viewport` is handed to the backend unchanged.
    #[verifier::loop_isolation(false)]
    pub fn draw(
        &self,
        geometry: &GpuGeometryBuffer,
        viewport: Rect,
        program: &GpuProgram,
        params: &DrawParameters,
        resources: &Vec<ResourceBindGroup>,
        element_range: ElementRange,
    ) -> (r: Result<DrawCallStatistics, FrameworkError>)
        ensures
            r == spec_draw_result(*self, *geometry, *program, *params, resources@, element_range),
    {
        let _ = viewport;
        if !geometry.alive {
            return Err(FrameworkError::InvalidResource);
        }
        let n = resources.len();
        let mut i: usize = 0;
        proof {
            assert(resources@.skip(0) =~= resources@);
        }
        while i < n
            invariant
                n == resources.len(),
                i <= n,
                spec_groups_err(resources@, *program) == spec_groups_err(
                    resources@.skip(i as int),
                    *program,
                ),
            decreases n - i,
        {
            proof {
                assert(resources@.skip(i as int)[0] == resources@[i as int]);
                assert(resources@.skip(i as int).drop_first() =~= resources@.skip(i as int + 1));
            }
            if let Some(e) = check_bindings(&resources[i].bindings, program) {
                return Err(e);
            }
            i = i + 1;
        }
        let needs_depth = params.depth_test.is_some() || params.depth_write;
        if needs_depth && self.depth_attachment.is_none() {
            return Err(FrameworkError::NoDepthAttachment);
        }
        if params.stencil_test.is_some() {
            let has_depth_stencil = match &self.depth_attachment {
                Some(d) => match d.kind {
                    AttachmentKind::DepthStencil => true,
                    AttachmentKind::Depth => false,
                    AttachmentKind::Color => false,
                },
                None => false,
            };
            if !has_depth_stencil {
                return Err(FrameworkError::NoDepthAttachment);
            }
        }
        match element_range {
            ElementRange::Full => Ok(DrawCallStatistics { triangles: geometry.triangle_count }),
            ElementRange::Specific { offset, count } => {
                if count > geometry.triangle_count || offset > geometry.triangle_count - count {
                    Err(FrameworkError::InvalidElementRange)
                } else {
                    Ok(DrawCallStatistics { triangles: count })
                }
            },
        }
    }

    /// The same contract as [`FrameBuffer::draw`], issuing `instance_count`
    /// instances in one submission: the reported triangle count is the
    /// per-instance count times the number of instances. Per-instance
    /// differentiation is the geometry's and the resources' own concern.
    pub fn draw_instances(
        &self,
        instance_count: usize,
        geometry: &GpuGeometryBuffer,
        viewport: Rect,
        program: &GpuProgram,
        params: &DrawParameters,
        resources: &Vec<ResourceBindGroup>,
        element_range: ElementRange,
    ) -> (r: Result<DrawCallStatistics, FrameworkError>)
        requires
            geometry.triangle_count * instance_count <= usize::MAX,
        ensures
            r == match spec_draw_result(
                *self,
                *geometry,
                *program,
                *params,
                resources@,
                element_range,
            ) {
                Ok(st) => Ok::<DrawCallStatistics, FrameworkError>(
                    DrawCallStatistics { triangles: (st.triangles * instance_count) as usize },
                ),
                Err(e) => Err(e),
            },
    {
        match self.draw(geometry, viewport, program, params, resources, element_range) {
            Ok(st) => {
                proof {
                    assert(st.triangles * instance_count <= geometry.triangle_count
                        * instance_count) by (nonlinear_arith)
                        requires
                            st.triangles <= geometry.triangle_count,
                            instance_count >= 0,
                    ;
                }
                Ok(DrawCallStatistics { triangles: st.triangles * instance_count })
            },
            Err(e) => Err(e),
        }
    }
}

impl GraphicsServer {
    /// Builds a frame buffer from an optional depth attachment and a list of
    /// color attachments, validating that each stands in the right slot.
    pub fn create_frame_buffer(
        &self,
        depth_attachment: Option<Attachment>,
        color_attachments: Vec<Attachment>,
    ) -> (r: Result<FrameBuffer, FrameworkError>)
        requires
            forall|i: int|
                0 <= i < color_attachments.len() ==> (#[trigger] color_attachments[
                i]).texture.wf(),
            depth_attachment matches Some(d) ==> d.texture.wf(),
        ensures
            match r {
                Ok(fb) => {
                    &&& fb.color_attachments@ == color_attachments@
                    &&& fb.depth_attachment == depth_attachment
                    &&& fb.wf()
                    &&& forall|i: int|
                        0 <= i < color_attachments.len() ==> (#[trigger] color_attachments[i]).kind
                            == AttachmentKind::Color
                    &&& depth_attachment matches Some(d) ==> d.spec_is_depth()
                },
                Err(e) => {
                    &&& e == FrameworkError::InvalidAttachmentLayout
                    &&& {
                        ||| exists|i: int|
                            0 <= i < color_attachments.len() && (#[trigger] color_attachments[
                            i]).kind != AttachmentKind::Color
                        ||| depth_attachment matches Some(d) && !d.spec_is_depth()
                    }
                },
            },
    {
        if let Some(d) = &depth_attachment {
            let ok = match d.kind {
                AttachmentKind::Color => false,
                AttachmentKind::Depth => true,
                AttachmentKind::DepthStencil => true,
            };
            if !ok {
                return Err(FrameworkError::InvalidAttachmentLayout);
            }
        }
        let n = color_attachments.len();
        let mut i: usize = 0;
        while i < n
            invariant
                n == color_attachments.len(),
                i <= n,
                forall|j: int| 0 <= j < i ==> (#[trigger] color_attachments[j]).kind
                    == AttachmentKind::Color,
            decreases n - i,
        {
            let is_color = match color_attachments[i].kind {
                AttachmentKind::Color => true,
                AttachmentKind::Depth => false,
                AttachmentKind::DepthStencil => false,
            };
            if !is_color {
                return Err(FrameworkError::InvalidAttachmentLayout);
            }
            i = i + 1;
        }
        Ok(FrameBuffer { color_attachments, depth_attachment })
    }
}

} // verus!
