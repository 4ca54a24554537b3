//! Text rendering state: per-font glyph atlases that grow on overflow, stored
//! glyph runs, and drawable text objects.

use crate::dirty::DirtyFlag;
use crate::geometry::Point2;
use crate::shader::MeshUniform;
use crate::color::Decimal;
use crate::pipeline::ID_TEXT;
use std::collections::HashMap;
use vstd::prelude::*;

verus! {

broadcast use vstd::std_specs::hash::group_hash_axioms;

/// Invalid font ID.
pub const ID_INVALID: u64 = 0;

/// ID of the default font, which is always loaded.
pub const ID_DEFAULT: u64 = 1;

/// Side of a freshly created glyph atlas, in pixels.
pub const INITIAL_ATLAS_SIDE: u32 = 1024;

/// Possible errors during text operations.
#[derive(Clone, Copy, Debug, PartialEq, Eq, Structural)]
pub enum TextError {
    /// Failed to create a font cache.
    CacheCreation,
    /// Failed to load a font.
    FontLoading,
    /// Failed to get a set of pre-positioned glyphs.
    GlyphRetrieval,
}

impl TextError {
    /// Human-readable description.
    pub fn message(&self) -> (r: &'static str)
        ensures
            r == (match *self {
                TextError::CacheCreation => "Failed to create a font cache.",
                TextError::FontLoading => "Failed to load a font.",
                TextError::GlyphRetrieval => "Failed to get pre-positioned glyphs.",
            }),
    {
        match self {
            TextError::CacheCreation => "Failed to create a font cache.",
            TextError::FontLoading => "Failed to load a font.",
            TextError::GlyphRetrieval => "Failed to get pre-positioned glyphs.",
        }
    }
}

/// Result of placing the queued glyphs into a glyph cache.
#[derive(Clone, Copy, Debug, PartialEq, Eq, Structural)]
pub enum CacheOutcome {
    /// All glyphs were placed without moving those already cached.
    Adding,
    /// The glyphs were placed, but cached glyphs had to be moved: text drawn
    /// with the old places may show corrupted this frame.
    Reordering,
    /// The glyphs did not fit.
    Overflow,
}

/// Abstract state of a glyph atlas.
pub struct AtlasView {
    pub width: nat,
    pub height: nat,
    pub pending_growth: bool,
}

impl AtlasView {
    /// State after a cache fill ended with `outcome`.
    pub open spec fn after_outcome(self, outcome: CacheOutcome) -> AtlasView {
        if outcome == CacheOutcome::Adding {
            self
        } else {
            AtlasView { pending_growth: true, ..self }
        }
    }

    /// State after the check made once per frame before drawing: a pending
    /// growth doubles both sides and returns the atlas to the stable state.
    pub open spec fn after_growth_check(self) -> AtlasView {
        if self.pending_growth {
            AtlasView { width: self.width * 2, height: self.height * 2, pending_growth: false }
        } else {
            self
        }
    }

    /// Both sides still fit in 32 bits once doubled.
    pub open spec fn can_grow(self) -> bool {
        self.width * 2 <= u32::MAX && self.height * 2 <= u32::MAX
    }
}

/// Size and growth state of the texture atlas that caches a font's glyphs.
#[derive(Clone, Copy, Debug, PartialEq, Eq, Structural)]
pub struct GlyphAtlas {
    width: u32,
    height: u32,
    pending_growth: bool,
}

impl View for GlyphAtlas {
    type V = AtlasView;

    closed spec fn view(&self) -> AtlasView {
        AtlasView {
            width: self.width as nat,
            height: self.height as nat,
            pending_growth: self.pending_growth,
        }
    }
}

impl GlyphAtlas {
    /// A stable atlas of the given size.
    pub fn new(width: u32, height: u32) -> (r: GlyphAtlas)
        ensures
            r@ == (AtlasView { width: width as nat, height: height as nat, pending_growth: false }),
    {
        GlyphAtlas { width, height, pending_growth: false }
    }

    pub fn width(&self) -> (r: u32)
        ensures
            r == self@.width,
    {
        self.width
    }

    pub fn height(&self) -> (r: u32)
        ensures
            r == self@.height,
    {
        self.height
    }

    /// Whether the atlas must grow before the next draw.
    pub fn needs_growth(&self) -> (r: bool)
        ensures
            r == self@.pending_growth,
    {
        self.pending_growth
    }

    /// React to the outcome of a cache fill. Returns whether the glyphs can
    /// be drawn from the atlas now; otherwise growth is scheduled.
    pub fn record_outcome(&mut self, outcome: CacheOutcome) -> (draw: bool)
        ensures
            final(self)@ == old(self)@.after_outcome(outcome),
            draw == (outcome == CacheOutcome::Adding),
    {
        match outcome {
            CacheOutcome::Adding => true,
            _ => {
                self.pending_growth = true;
                false
            },
        }
    }

    /// Both sides doubled, when they still fit in 32 bits.
    pub fn grown_dimensions(&self) -> (r: Option<(u32, u32)>)
        ensures
            r == (if self@.can_grow() {
                Some(((self@.width * 2) as u32, (self@.height * 2) as u32))
            } else {
                None
            }),
    {
        if self.width <= u32::MAX / 2 && self.height <= u32::MAX / 2 {
            Some((self.width * 2, self.height * 2))
        } else {
            None
        }
    }

    /// Record that a new, empty atlas with both sides doubled replaced this
    /// one, when a growth was pending.
    pub fn complete_growth(&mut self)
        requires
            old(self)@.pending_growth ==> old(self)@.can_grow(),
        ensures
            final(self)@ == old(self)@.after_growth_check(),
    {
        if self.pending_growth {
            self.width = self.width * 2;
            self.height = self.height * 2;
            self.pending_growth = false;
        }
    }
}

/// An overflow or reordering makes the next check grow the atlas to exactly
/// twice its size once; a following frame whose fill fits leaves the size
/// unchanged.
pub proof fn lemma_atlas_growth_once(a: AtlasView, outcome: CacheOutcome)
    requires
        outcome != CacheOutcome::Adding,
    ensures
        ({
            let grown = a.after_outcome(outcome).after_growth_check();
            let next = grown.after_outcome(CacheOutcome::Adding).after_growth_check();
            &&& grown.width == 2 * a.width
            &&& grown.height == 2 * a.height
            &&& !grown.pending_growth
            &&& next == grown
        }),
{
}

/// Growth never shrinks an atlas.
pub proof fn lemma_atlas_never_shrinks(a: AtlasView, outcome: CacheOutcome)
    ensures
        a.width <= a.after_outcome(outcome).after_growth_check().width,
        a.height <= a.after_outcome(outcome).after_growth_check().height,
{
}

/// Glyph state of one font: its atlas and the glyph runs laid out with it.
pub struct FontData<G> {
    /// Atlas of the font's glyph cache.
    atlas: GlyphAtlas,
    /// ID that the next stored glyph run gets.
    next_glyph_id: u64,
    /// Glyph runs, by ID.
    positioned_glyphs: HashMap<u64, G>,
}

/// Abstract state of a font's glyph data.
pub struct FontView<G> {
    pub atlas: AtlasView,
    pub next_glyph_id: nat,
    pub glyphs: Map<u64, G>,
}

impl<G> View for FontData<G> {
    type V = FontView<G>;

    closed spec fn view(&self) -> FontView<G> {
        FontView {
            atlas: self.atlas@,
            next_glyph_id: self.next_glyph_id as nat,
            glyphs: self.positioned_glyphs@,
        }
    }
}

impl<G> FontData<G> {
    /// A font with a stable atlas of the given size and no glyph runs.
    pub fn new(atlas: GlyphAtlas) -> (r: FontData<G>)
        ensures
            r@.atlas == atlas@,
            r@.next_glyph_id == 1,
            r@.glyphs == Map::<u64, G>::empty(),
    {
        FontData { atlas, next_glyph_id: 1, positioned_glyphs: HashMap::new() }
    }

    /// Store a glyph run under a fresh ID and return the ID; `None` once the
    /// IDs are used up.
    pub fn add_glyphs(&mut self, glyphs: G) -> (r: Option<u64>)
        ensures
            old(self)@.next_glyph_id < u64::MAX ==> {
                &&& r == Some(old(self)@.next_glyph_id as u64)
                &&& final(self)@ == (FontView {
                    next_glyph_id: old(self)@.next_glyph_id + 1,
                    glyphs: old(self)@.glyphs.insert(old(self)@.next_glyph_id as u64, glyphs),
                    ..old(self)@
                })
            },
            old(self)@.next_glyph_id == u64::MAX ==> r is None && final(self)@ == old(self)@,
    {
        if self.next_glyph_id == u64::MAX {
            return None;
        }
        let id = self.next_glyph_id;
        self.positioned_glyphs.insert(id, glyphs);
        self.next_glyph_id = self.next_glyph_id + 1;
        Some(id)
    }

    /// Replace the glyph run stored under `id`.
    pub fn update_glyphs(&mut self, id: u64, new_glyphs: G)
        ensures
            final(self)@ == (FontView {
                glyphs: old(self)@.glyphs.insert(id, new_glyphs),
                ..old(self)@
            }),
    {
        self.positioned_glyphs.insert(id, new_glyphs);
    }

    /// The glyph run stored under `id`.
    pub fn glyphs(&self, id: u64) -> (r: Option<&G>)
        ensures
            r == (if self@.glyphs.contains_key(id) {
                Some(&self@.glyphs[id])
            } else {
                None
            }),
    {
        self.positioned_glyphs.get(&id)
    }

    /// The font's atlas.
    pub fn atlas(&self) -> (r: GlyphAtlas)
        ensures
            r@ == self@.atlas,
    {
        self.atlas
    }
}

/// Glyph data of every loaded font, by font ID.
pub struct TextHandler<G> {
    fonts: HashMap<u64, FontData<G>>,
}

impl<G> View for TextHandler<G> {
    type V = Map<u64, FontData<G>>;

    closed spec fn view(&self) -> Map<u64, FontData<G>> {
        self.fonts@
    }
}

/// The font that text asking for `font_id` is laid out and drawn with: the
/// font itself when loaded, the default font otherwise.
pub open spec fn resolved_font<G>(fonts: Map<u64, FontData<G>>, font_id: u64) -> u64 {
    if fonts.contains_key(font_id) {
        font_id
    } else {
        ID_DEFAULT
    }
}

impl<G> TextHandler<G> {
    /// The default font is always loaded.
    pub open spec fn wf(&self) -> bool {
        self@.contains_key(ID_DEFAULT)
    }

    /// A handler with only the default font, whose atlas has the initial size.
    pub fn new() -> (r: TextHandler<G>)
        ensures
            r.wf(),
            r@.dom() == set![ID_DEFAULT],
            r@[ID_DEFAULT]@ == (FontView::<G> {
                atlas: AtlasView {
                    width: INITIAL_ATLAS_SIDE as nat,
                    height: INITIAL_ATLAS_SIDE as nat,
                    pending_growth: false,
                },
                next_glyph_id: 1,
                glyphs: Map::empty(),
            }),
    {
        let mut fonts = HashMap::new();
        fonts.insert(ID_DEFAULT, FontData::new(GlyphAtlas::new(INITIAL_ATLAS_SIDE, INITIAL_ATLAS_SIDE)));
        assert(fonts@.dom() =~= set![ID_DEFAULT]);
        TextHandler { fonts }
    }

    /// Glyph data of the font with the given ID, when loaded.
    pub fn font(&self, id: u64) -> (r: Option<&FontData<G>>)
        ensures
            r == (if self@.contains_key(id) {
                Some(&self@[id])
            } else {
                None
            }),
    {
        self.fonts.get(&id)
    }

    /// The font used for `font_id`: itself when loaded, else the default.
    pub fn resolve_font(&self, font_id: u64) -> (r: u64)
        ensures
            r == resolved_font(self@, font_id),
    {
        if self.fonts.contains_key(&font_id) {
            font_id
        } else {
            ID_DEFAULT
        }
    }

    /// Store a glyph run with the font `font_id`, or with the default font
    /// when that one is not loaded. Returns the font used and the run's ID;
    /// `None` once that font's run IDs are used up.
    pub fn add_glyphs(&mut self, font_id: u64, glyphs: G) -> (r: Option<(u64, u64)>)
        requires
            old(self).wf(),
        ensures
            final(self).wf(),
            ({
                let used = resolved_font(old(self)@, font_id);
                let before = old(self)@[used]@;
                if before.next_glyph_id < u64::MAX {
                    &&& r == Some((used, before.next_glyph_id as u64))
                    &&& final(self)@.dom() == old(self)@.dom()
                    &&& final(self)@[used]@ == (FontView {
                        next_glyph_id: before.next_glyph_id + 1,
                        glyphs: before.glyphs.insert(before.next_glyph_id as u64, glyphs),
                        ..before
                    })
                    &&& forall|k: u64| k != used ==> #[trigger] final(self)@.contains_key(k)
                        ==> final(self)@[k] == old(self)@[k]
                } else {
                    r is None && final(self)@ == old(self)@
                }
            }),
    {
        let used = self.resolve_font(font_id);
        match self.fonts.get(&used) {
            Some(data) => {
                if data.next_glyph_id == u64::MAX {
                    return None;
                }
            },
            None => {
                return None;
            },
        }
        let removed = self.fonts.remove(&used);
        match removed {
            Some(mut data) => {
                let added = data.add_glyphs(glyphs);
                self.fonts.insert(used, data);
                assert(self.fonts@.dom() =~= old(self)@.dom());
                match added {
                    Some(id) => Some((used, id)),
                    None => None,
                }
            },
            None => None,
        }
    }

    /// React to the outcome of filling the cache of `font_id`. Returns
    /// whether the text can be drawn; a font that is not loaded draws nothing.
    pub fn record_outcome(&mut self, font_id: u64, outcome: CacheOutcome) -> (draw: bool)
        requires
            old(self).wf(),
        ensures
            final(self).wf(),
            final(self)@.dom() == old(self)@.dom(),
            old(self)@.contains_key(font_id) ==> {
                &&& draw == (outcome == CacheOutcome::Adding)
                &&& final(self)@[font_id]@ == (FontView {
                    atlas: old(self)@[font_id]@.atlas.after_outcome(outcome),
                    ..old(self)@[font_id]@
                })
            },
            !old(self)@.contains_key(font_id) ==> !draw,
            forall|k: u64| k != font_id ==> #[trigger] final(self)@.contains_key(k) ==> final(self)@[k]
                == old(self)@[k],
    {
        let removed = self.fonts.remove(&font_id);
        match removed {
            Some(mut data) => {
                let draw = data.atlas.record_outcome(outcome);
                self.fonts.insert(font_id, data);
                assert(self.fonts@.dom() =~= old(self)@.dom());
                draw
            },
            None => false,
        }
    }

    /// Size of the new atlas of `font_id`, when that font must grow and the
    /// doubled size fits in 32 bits.
    pub fn growth_dimensions(&self, font_id: u64) -> (r: Option<(u32, u32)>)
        ensures
            r == (if self@.contains_key(font_id) && self@[font_id]@.atlas.pending_growth
                && self@[font_id]@.atlas.can_grow() {
                Some(
                    (
                        (self@[font_id]@.atlas.width * 2) as u32,
                        (self@[font_id]@.atlas.height * 2) as u32,
                    ),
                )
            } else {
                None
            }),
    {
        match self.fonts.get(&font_id) {
            Some(data) => {
                if data.atlas.needs_growth() {
                    data.atlas.grown_dimensions()
                } else {
                    None
                }
            },
            None => None,
        }
    }

    /// Record that `font_id` got a new, empty atlas with both sides doubled
    /// and an empty glyph cache, when its growth was pending.
    pub fn complete_growth(&mut self, font_id: u64)
        requires
            old(self).wf(),
            old(self)@.contains_key(font_id) && old(self)@[font_id]@.atlas.pending_growth
                ==> old(self)@[font_id]@.atlas.can_grow(),
        ensures
            final(self).wf(),
            final(self)@.dom() == old(self)@.dom(),
            old(self)@.contains_key(font_id) ==> final(self)@[font_id]@ == (FontView {
                atlas: old(self)@[font_id]@.atlas.after_growth_check(),
                ..old(self)@[font_id]@
            }),
            forall|k: u64| k != font_id ==> #[trigger] final(self)@.contains_key(k) ==> final(self)@[k]
                == old(self)@[k],
    {
        let removed = self.fonts.remove(&font_id);
        match removed {
            Some(mut data) => {
                data.atlas.complete_growth();
                self.fonts.insert(font_id, data);
                assert(self.fonts@.dom() =~= old(self)@.dom());
            },
            None => {},
        }
    }
}

/// Index `k` of the index list of text made of `quads` glyph quads: two
/// triangles, corners `0, 1, 2` and `2, 3, 0`, for each quad after the first.
pub open spec fn text_index(k: int) -> int {
    let quad = k / 6 + 1;
    let corner = k % 6;
    4 * quad + if corner == 0 || corner == 5 {
        0int
    } else if corner == 1 {
        1int
    } else if corner == 2 || corner == 3 {
        2int
    } else {
        3int
    }
}

/// Number of indices of text made of `quads` glyph quads.
pub open spec fn text_index_count(quads: nat) -> nat {
    if quads == 0 {
        0
    } else {
        (6 * (quads - 1)) as nat
    }
}

/// Largest number of glyph quads whose indices fit in 16 bits.
pub const MAX_TEXT_QUADS: usize = 16384;

/// Index list of text made of `quads` glyph quads.
pub fn quad_indices(quads: usize) -> (r: Vec<u16>)
    requires
        quads <= MAX_TEXT_QUADS,
    ensures
        r@.len() == text_index_count(quads as nat),
        forall|k: int| 0 <= k < r@.len() ==> r@[k] as int == text_index(k),
{
    let mut indices: Vec<u16> = Vec::new();
    let mut i: usize = 1;
    while i < quads
        invariant
            1 <= i,
            quads <= MAX_TEXT_QUADS,
            quads > 0 ==> i <= quads,
            quads == 0 ==> i == 1,
            indices@.len() == 6 * (i - 1),
            forall|k: int| 0 <= k < indices@.len() ==> indices@[k] as int == text_index(k),
        decreases quads - i,
    {
        let base: u16 = (4 * i) as u16;
        let start = indices.len();
        indices.push(base);
        indices.push(base + 1);
        indices.push(base + 2);
        indices.push(base + 2);
        indices.push(base + 3);
        indices.push(base);
        proof {
            assert forall|k: int| 0 <= k < indices@.len() implies indices@[k] as int == text_index(
                k,
            ) by {
                if k >= start {
                    assert(k / 6 == i - 1) by (nonlinear_arith)
                        requires
                            start == 6 * (i - 1),
                            start <= k < start + 6,
                    ;
                    assert(k % 6 == k - start) by (nonlinear_arith)
                        requires
                            start == 6 * (i - 1),
                            start <= k < start + 6,
                    ;
                }
            }
        }
        i = i + 1;
    }
    indices
}

/// What a draw of a text object hands to the graphics backend.
#[derive(Clone, Copy, Debug, PartialEq, Eq)]
pub struct TextDraw {
    /// The vertex buffer must be rewritten from the glyph quads.
    pub upload_vertices: bool,
    /// Uniform snapshot to upload, whole, when it changed.
    pub mesh_uniform: Option<MeshUniform>,
    /// Font whose cache the glyphs are queued into.
    pub font_id: u64,
    /// ID of the glyph run to queue.
    pub glyphs_id: u64,
    /// Number of indices of the indexed draw.
    pub index_count: u32,
}

/// Abstract state of a text object.
pub struct TextView {
    pub font_id: u64,
    pub glyphs_id: u64,
    pub index_count: nat,
    pub mesh_uniform: MeshUniform,
    pub vertex_dirty: bool,
    pub uniform_dirty: bool,
    /// Uniform data last written to the GPU.
    pub gpu_uniform: MeshUniform,
}

impl TextView {
    /// A clear uniform flag means the GPU holds the uniform snapshot.
    pub open spec fn wf(self) -> bool {
        !self.uniform_dirty ==> self.gpu_uniform == self.mesh_uniform
    }
}

/// Drawable text object.
pub struct Text {
    /// ID of the font used.
    font_id: u64,
    /// ID of the glyph run stored with that font.
    positioned_glyphs_id: u64,
    /// Number of indices of the index buffer.
    index_count: u32,
    /// Uniform data of the text.
    mesh_uniform: MeshUniform,
    /// The vertex buffer must be rewritten.
    vertex_dirty: DirtyFlag,
    /// The uniform buffer must be rewritten.
    uniform_dirty: DirtyFlag,
    /// Uniform data last written to the GPU.
    gpu_uniform: Ghost<MeshUniform>,
}

impl View for Text {
    type V = TextView;

    closed spec fn view(&self) -> TextView {
        TextView {
            font_id: self.font_id,
            glyphs_id: self.positioned_glyphs_id,
            index_count: self.index_count as nat,
            mesh_uniform: self.mesh_uniform,
            vertex_dirty: self.vertex_dirty@,
            uniform_dirty: self.uniform_dirty@,
            gpu_uniform: self.gpu_uniform@,
        }
    }
}

/// Transparent black, the background of text.
pub open spec fn transparent() -> Decimal {
    Decimal { r: 0, g: 0, b: 0, a: 0 }
}

impl Text {
    /// A text object for the glyph run `glyphs`, laid out with the font
    /// `font_id` (the default font when that one is not loaded) into `quads`
    /// glyph quads. The run is stored with the font used. `None` once that
    /// font's run IDs are used up.
    pub fn new<G>(
        text_handler: &mut TextHandler<G>,
        font_id: u64,
        glyphs: G,
        quads: usize,
        position: Point2,
        z: i64,
    ) -> (r: Option<Text>)
        requires
            old(text_handler).wf(),
            quads <= MAX_TEXT_QUADS,
        ensures
            final(text_handler).wf(),
            ({
                let used = resolved_font(old(text_handler)@, font_id);
                let before = old(text_handler)@[used]@;
                if before.next_glyph_id < u64::MAX {
                    &&& r is Some
                    &&& r->0@.wf()
                    &&& r->0@ == (TextView {
                        font_id: used,
                        glyphs_id: before.next_glyph_id as u64,
                        index_count: text_index_count(quads as nat),
                        mesh_uniform: MeshUniform {
                            position,
                            z,
                            overlay_alpha: 0,
                            back_colour: transparent(),
                        },
                        vertex_dirty: false,
                        uniform_dirty: false,
                        gpu_uniform: MeshUniform {
                            position,
                            z,
                            overlay_alpha: 0,
                            back_colour: transparent(),
                        },
                    })
                    &&& final(text_handler)@.dom() == old(text_handler)@.dom()
                    &&& final(text_handler)@[used]@ == (FontView {
                        next_glyph_id: before.next_glyph_id + 1,
                        glyphs: before.glyphs.insert(before.next_glyph_id as u64, glyphs),
                        ..before
                    })
                    &&& forall|k: u64| k != used ==> #[trigger] final(text_handler)@.contains_key(k)
                        ==> final(text_handler)@[k] == old(text_handler)@[k]
                } else {
                    r is None && final(text_handler)@ == old(text_handler)@
                }
            }),
    {
        let index_count: u32 = if quads == 0 {
            0
        } else {
            (6 * (quads - 1)) as u32
        };
        let mesh_uniform = MeshUniform::new(position, z, 0, Decimal::new(0, 0, 0, 0));
        match text_handler.add_glyphs(font_id, glyphs) {
            Some((used, glyphs_id)) => Some(
                Text {
                    font_id: used,
                    positioned_glyphs_id: glyphs_id,
                    index_count,
                    mesh_uniform,
                    vertex_dirty: DirtyFlag::new(),
                    uniform_dirty: DirtyFlag::new(),
                    gpu_uniform: Ghost(mesh_uniform),
                },
            ),
            None => None,
        }
    }

    /// ID of the font the text is drawn with.
    pub fn font_id(&self) -> (r: u64)
        ensures
            r == self@.font_id,
    {
        self.font_id
    }

    /// Move the text; the uniform buffer is rewritten at the next draw.
    pub fn set_position(&mut self, position: Point2)
        requires
            old(self)@.wf(),
        ensures
            final(self)@.wf(),
            final(self)@ == (TextView {
                mesh_uniform: MeshUniform { position, ..old(self)@.mesh_uniform },
                uniform_dirty: true,
                ..old(self)@
            }),
    {
        self.mesh_uniform.position = position;
        self.uniform_dirty.mark();
    }

    /// Start a draw on the pipeline `pipeline_id`. Text draws only on the
    /// text pipeline: elsewhere nothing happens. On it, the dirty flags are
    /// cleared and the returned plan says what to upload, which glyph run to
    /// queue into which font's cache, and how many indices to draw once the
    /// cache fill allows it.
    pub fn draw(&mut self, pipeline_id: u64) -> (r: Option<TextDraw>)
        requires
            old(self)@.wf(),
        ensures
            final(self)@.wf(),
            pipeline_id != ID_TEXT ==> r is None && final(self)@ == old(self)@,
            pipeline_id == ID_TEXT ==> {
                &&& final(self)@ == (TextView {
                    vertex_dirty: false,
                    uniform_dirty: false,
                    gpu_uniform: old(self)@.mesh_uniform,
                    ..old(self)@
                })
                &&& r == Some(
                    TextDraw {
                        upload_vertices: old(self)@.vertex_dirty,
                        mesh_uniform: if old(self)@.uniform_dirty {
                            Some(old(self)@.mesh_uniform)
                        } else {
                            None
                        },
                        font_id: old(self)@.font_id,
                        glyphs_id: old(self)@.glyphs_id,
                        index_count: old(self)@.index_count as u32,
                    },
                )
            },
    {
        if pipeline_id != ID_TEXT {
            return None;
        }
        let upload_vertices = self.vertex_dirty.check_and_clear();
        proof {
            self.gpu_uniform = Ghost(self.mesh_uniform);
        }
        let mesh_uniform = if self.uniform_dirty.check_and_clear() {
            Some(self.mesh_uniform)
        } else {
            None
        };
        Some(
            TextDraw {
                upload_vertices,
                mesh_uniform,
                font_id: self.font_id,
                glyphs_id: self.positioned_glyphs_id,
                index_count: self.index_count,
            },
        )
    }
}

} // verus!
