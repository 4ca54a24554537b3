//! Asset management: textures by ID, with a guaranteed fallback, and the
//! glyph data of the loaded fonts.

use crate::text::TextHandler;
use crate::texture::ID_EMPTY;
use std::collections::HashMap;
use vstd::prelude::*;

verus! {

broadcast use vstd::std_specs::hash::group_hash_axioms;

/// Asset manager over textures of type `T` and glyph runs of type `G`.
pub struct Manager<T, G> {
    /// Available textures, by ID.
    textures: HashMap<u64, T>,
    /// Glyph data of the loaded fonts.
    text_handler: TextHandler<G>,
}

/// The texture drawn for `id`: itself when loaded, the empty texture otherwise.
pub open spec fn texture_or_default<T>(textures: Map<u64, T>, id: u64) -> T {
    if textures.contains_key(id) {
        textures[id]
    } else {
        textures[ID_EMPTY]
    }
}

impl<T, G> Manager<T, G> {
    /// Loaded textures, by ID.
    pub closed spec fn textures(&self) -> Map<u64, T> {
        self.textures@
    }

    /// Glyph data of the loaded fonts.
    pub closed spec fn text(&self) -> TextHandler<G> {
        self.text_handler
    }

    /// The empty texture and the default font are always loaded.
    pub open spec fn wf(&self) -> bool {
        &&& self.textures().contains_key(ID_EMPTY)
        &&& self.text().wf()
    }

    /// A manager holding only the empty texture and the default font.
    pub fn new(empty_texture: T, text_handler: TextHandler<G>) -> (r: Manager<T, G>)
        requires
            text_handler.wf(),
        ensures
            r.wf(),
            r.textures() == Map::<u64, T>::empty().insert(ID_EMPTY, empty_texture),
            r.text() == text_handler,
    {
        let mut textures = HashMap::new();
        textures.insert(ID_EMPTY, empty_texture);
        Manager { textures, text_handler }
    }

    /// The texture with the given ID, if loaded.
    pub fn get_texture(&self, id: u64) -> (r: Option<&T>)
        ensures
            r == (if self.textures().contains_key(id) {
                Some(&self.textures()[id])
            } else {
                None
            }),
    {
        self.textures.get(&id)
    }

    /// The texture with the given ID, or the empty texture when it is not
    /// loaded. Never fails.
    pub fn get_texture_or_default(&self, id: u64) -> (r: &T)
        requires
            self.wf(),
        ensures
            *r == texture_or_default(self.textures(), id),
    {
        match self.textures.get(&id) {
            Some(t) => t,
            None => self.textures.get(&ID_EMPTY).unwrap(),
        }
    }

    /// Make `texture` available under `id`, replacing any texture there.
    pub fn add_texture(&mut self, id: u64, texture: T)
        requires
            old(self).wf(),
        ensures
            final(self).wf(),
            final(self).textures() == old(self).textures().insert(id, texture),
            final(self).text() == old(self).text(),
    {
        self.textures.insert(id, texture);
    }

    /// The glyph data of the loaded fonts.
    pub fn text_handler(&self) -> (r: &TextHandler<G>)
        ensures
            *r == self.text(),
    {
        &self.text_handler
    }

    /// The glyph data of the loaded fonts, for changing.
    pub fn text_handler_mut(&mut self) -> (r: &mut TextHandler<G>)
        ensures
            *r == old(self).text(),
            final(self).text() == *final(r),
            final(self).textures() == old(self).textures(),
    {
        &mut self.text_handler
    }
}

} // verus!
