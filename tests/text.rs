use rwgfx::geometry::Point2;
use rwgfx::pipeline::{ID_GENERAL, ID_TEXT};
use rwgfx::text::{
    quad_indices, CacheOutcome, FontData, GlyphAtlas, Text, TextError, TextHandler, ID_DEFAULT,
    INITIAL_ATLAS_SIDE,
};

#[test]
fn atlas_grows_once_after_reordering() {
    let mut a = GlyphAtlas::new(1024, 1024);
    assert!(!a.record_outcome(CacheOutcome::Reordering));
    assert!(a.needs_growth());
    assert_eq!(a.grown_dimensions(), Some((2048, 2048)));
    a.complete_growth();
    assert_eq!((a.width(), a.height()), (2048, 2048));
    assert!(!a.needs_growth());
    assert!(a.record_outcome(CacheOutcome::Adding));
    a.complete_growth();
    assert_eq!((a.width(), a.height()), (2048, 2048));
}

#[test]
fn atlas_grows_after_overflow() {
    let mut a = GlyphAtlas::new(64, 32);
    assert!(!a.record_outcome(CacheOutcome::Overflow));
    a.complete_growth();
    assert_eq!((a.width(), a.height()), (128, 64));
}

#[test]
fn two_overflows_in_one_frame_grow_once() {
    let mut a = GlyphAtlas::new(10, 10);
    a.record_outcome(CacheOutcome::Overflow);
    a.record_outcome(CacheOutcome::Reordering);
    a.complete_growth();
    a.complete_growth();
    assert_eq!((a.width(), a.height()), (20, 20));
}

#[test]
fn atlas_at_the_size_limit_cannot_grow() {
    let mut a = GlyphAtlas::new(u32::MAX / 2 + 1, 8);
    a.record_outcome(CacheOutcome::Overflow);
    assert_eq!(a.grown_dimensions(), None);
    let b = GlyphAtlas::new(u32::MAX / 2, 8);
    assert_eq!(b.grown_dimensions(), Some((u32::MAX - 1, 16)));
}

#[test]
fn missing_font_falls_back_to_default() {
    let mut h: TextHandler<Vec<u32>> = TextHandler::new();
    assert_eq!(h.resolve_font(42), ID_DEFAULT);
    assert_eq!(h.resolve_font(ID_DEFAULT), ID_DEFAULT);
    let r = h.add_glyphs(42, vec![7, 8]);
    assert_eq!(r, Some((ID_DEFAULT, 1)));
    let font = h.font(ID_DEFAULT).unwrap();
    assert_eq!(font.glyphs(1), Some(&vec![7, 8]));
    assert!(h.font(42).is_none());
}

#[test]
fn glyph_run_ids_count_up() {
    let mut h: TextHandler<u8> = TextHandler::new();
    assert_eq!(h.add_glyphs(ID_DEFAULT, 1), Some((ID_DEFAULT, 1)));
    assert_eq!(h.add_glyphs(ID_DEFAULT, 2), Some((ID_DEFAULT, 2)));
    assert_eq!(h.add_glyphs(9, 3), Some((ID_DEFAULT, 3)));
    assert_eq!(h.font(ID_DEFAULT).unwrap().glyphs(2), Some(&2));
    assert_eq!(h.font(ID_DEFAULT).unwrap().glyphs(4), None);
}

#[test]
fn font_data_update_replaces_run() {
    let mut f: FontData<u8> = FontData::new(GlyphAtlas::new(8, 8));
    let id = f.add_glyphs(5).unwrap();
    f.update_glyphs(id, 6);
    assert_eq!(f.glyphs(id), Some(&6));
}

#[test]
fn handler_growth_protocol() {
    let mut h: TextHandler<u8> = TextHandler::new();
    let atlas = h.font(ID_DEFAULT).unwrap().atlas();
    assert_eq!((atlas.width(), atlas.height()), (INITIAL_ATLAS_SIDE, INITIAL_ATLAS_SIDE));
    assert_eq!(h.growth_dimensions(ID_DEFAULT), None);
    assert!(!h.record_outcome(ID_DEFAULT, CacheOutcome::Reordering));
    assert_eq!(h.growth_dimensions(ID_DEFAULT), Some((2048, 2048)));
    h.complete_growth(ID_DEFAULT);
    assert_eq!(h.growth_dimensions(ID_DEFAULT), None);
    let atlas = h.font(ID_DEFAULT).unwrap().atlas();
    assert_eq!((atlas.width(), atlas.height()), (2048, 2048));
    assert!(h.record_outcome(ID_DEFAULT, CacheOutcome::Adding));
    h.complete_growth(ID_DEFAULT);
    let atlas = h.font(ID_DEFAULT).unwrap().atlas();
    assert_eq!((atlas.width(), atlas.height()), (2048, 2048));
}

#[test]
fn outcome_for_unknown_font_draws_nothing() {
    let mut h: TextHandler<u8> = TextHandler::new();
    assert!(!h.record_outcome(77, CacheOutcome::Adding));
    assert_eq!(h.growth_dimensions(77), None);
}

#[test]
fn quad_indices_skip_the_first_quad() {
    assert_eq!(quad_indices(0), Vec::<u16>::new());
    assert_eq!(quad_indices(1), Vec::<u16>::new());
    assert_eq!(quad_indices(3), vec![4, 5, 6, 6, 7, 4, 8, 9, 10, 10, 11, 8]);
    let last = quad_indices(16384);
    assert_eq!(last.len(), 6 * 16383);
    assert_eq!(*last.last().unwrap(), 65532);
    assert_eq!(last[last.len() - 2], 65535);
}

#[test]
fn text_draws_only_on_text_pipeline() {
    let mut h: TextHandler<u8> = TextHandler::new();
    let mut t = Text::new(&mut h, 5, 0, 3, Point2::new(10, 20), 4).unwrap();
    assert_eq!(t.font_id(), ID_DEFAULT);
    t.set_position(Point2::new(1, 2));
    assert_eq!(t.draw(ID_GENERAL), None);
    let d = t.draw(ID_TEXT).unwrap();
    assert!(!d.upload_vertices);
    assert_eq!(d.mesh_uniform.unwrap().position, Point2::new(1, 2));
    assert_eq!(d.mesh_uniform.unwrap().z, 4);
    assert_eq!(d.font_id, ID_DEFAULT);
    assert_eq!(d.glyphs_id, 1);
    assert_eq!(d.index_count, 12);
    assert_eq!(t.draw(ID_TEXT).unwrap().mesh_uniform, None);
}

#[test]
fn text_error_messages() {
    assert_eq!(TextError::CacheCreation.message(), "Failed to create a font cache.");
    assert_eq!(TextError::FontLoading.message(), "Failed to load a font.");
    assert_eq!(TextError::GlyphRetrieval.message(), "Failed to get pre-positioned glyphs.");
}
