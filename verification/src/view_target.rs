//! The colour target of a view: two textures that take turns.

use vstd::prelude::*;
use crate::texture_cache::TextureId;

verus! {

/// The two colour textures of a view. One of them is the main texture: it
/// holds what has been drawn so far. A post-process pass reads the main
/// texture and writes the other, which thereby becomes the main texture.
#[derive(Clone, Copy, Debug, PartialEq, Eq, Hash, Structural)]
pub struct ViewTarget {
    pub a: TextureId,
    pub b: TextureId,
    /// Whether `b` is the main texture.
    pub main_is_b: bool,
}

/// What a post-process pass reads and what it writes.
#[derive(Clone, Copy, Debug, PartialEq, Eq, Hash, Structural)]
pub struct PostProcessWrite {
    pub source: TextureId,
    pub destination: TextureId,
}

impl ViewTarget {
    pub open spec fn spec_main_texture(self) -> TextureId {
        if self.main_is_b {
            self.b
        } else {
            self.a
        }
    }

    /// The texture that is not the main texture.
    pub open spec fn spec_other_texture(self) -> TextureId {
        if self.main_is_b {
            self.a
        } else {
            self.b
        }
    }

    /// A target whose main texture is `a`.
    pub fn new(a: TextureId, b: TextureId) -> (target: Self)
        ensures
            target == (ViewTarget { a, b, main_is_b: false }),
    {
        ViewTarget { a, b, main_is_b: false }
    }

    /// The texture that holds what has been drawn so far.
    pub fn main_texture(&self) -> (texture: TextureId)
        ensures
            texture == self.spec_main_texture(),
    {
        if self.main_is_b {
            self.b
        } else {
            self.a
        }
    }

    /// Begins a post-process pass: the pass reads the main texture and
    /// writes the other, and the two change roles.
    pub fn post_process_write(&mut self) -> (write: PostProcessWrite)
        ensures
            write.source == old(self).spec_main_texture(),
            write.destination == old(self).spec_other_texture(),
            *final(self) == (ViewTarget { main_is_b: !old(self).main_is_b, ..*old(self) }),
            final(self).spec_main_texture() == write.destination,
    {
        let write = if self.main_is_b {
            PostProcessWrite { source: self.b, destination: self.a }
        } else {
            PostProcessWrite { source: self.a, destination: self.b }
        };
        self.main_is_b = !self.main_is_b;
        write
    }
}

} // verus!
