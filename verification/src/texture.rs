use std::path::PathBuf;
use vstd::prelude::*;

verus! {

#[verifier::external_type_specification]
#[verifier::external_body]
pub struct ExPathBuf(PathBuf);

/// Identifies a texture among those an atlas will load; negative for "no
/// texture".
#[derive(Copy, Clone, PartialEq, Eq, Structural, Ord, PartialOrd, Debug)]
pub struct TextureId {
    index: i32,
}

impl TextureId {
    /// The raw index of the texture.
    pub closed spec fn spec_index(self) -> i32 {
        self.index
    }

    /// Two ids with the same raw index are the same id: in particular the
    /// default id is `no_texture()`, and `no_texture()` differs from every id
    /// with an index of 0 or more.
    pub proof fn lemma_index_determines_id(self, other: TextureId)
        ensures
            self.spec_index() == other.spec_index() <==> self == other,
    {
    }

    /// The id that refers to no texture.
    pub fn no_texture() -> (id: Self)
        ensures
            id.spec_index() == -1,
    {
        TextureId { index: -1 }
    }

    /// The id with the given raw index.
    pub fn from_raw(index: i32) -> (id: Self)
        ensures
            id.spec_index() == index,
    {
        TextureId { index }
    }

    /// The raw index of the texture.
    pub fn get_index(&self) -> (index: i32)
        ensures
            index == self.spec_index(),
    {
        self.index
    }
}

impl Default for TextureId {
    /// The default id refers to no texture.
    fn default() -> (id: Self)
        ensures
            id.spec_index() == -1,
    {
        Self::no_texture()
    }
}

/// Where a texture is loaded from.
pub enum Source<Img> {
    FilePath(PathBuf),
    Image(Img),
}

/// A collection of all available textures for this application: textures
/// are reserved first, each getting the next id, and loaded all at once
/// later.
pub struct TextureAtlas<Img> {
    texture_reservations: Vec<Source<Img>>,
}

impl<Img> TextureAtlas<Img> {
    /// The reserved textures, in the order of their ids.
    pub closed spec fn reservations(self) -> Seq<Source<Img>> {
        self.texture_reservations@
    }

    /// An atlas with no texture reserved.
    pub fn new() -> (atlas: Self)
        ensures
            atlas.reservations() == Seq::<Source<Img>>::empty(),
    {
        TextureAtlas { texture_reservations: Vec::new() }
    }

    /// Reserve a texture to be loaded from the given file.
    pub fn load_file(&mut self, file_path: PathBuf) -> (id: TextureId)
        ensures
            final(self).reservations() == old(self).reservations().push(Source::FilePath(file_path)),
            id.spec_index() == old(self).reservations().len() as i32,
    {
        self.load_texture_2d_from_source(Source::FilePath(file_path))
    }

    /// Reserve a texture made from the given image.
    pub fn load_image(&mut self, img: Img) -> (id: TextureId)
        ensures
            final(self).reservations() == old(self).reservations().push(Source::Image(img)),
            id.spec_index() == old(self).reservations().len() as i32,
    {
        self.load_texture_2d_from_source(Source::Image(img))
    }

    fn load_texture_2d_from_source(&mut self, source: Source<Img>) -> (id: TextureId)
        ensures
            final(self).reservations() == old(self).reservations().push(source),
            id.spec_index() == old(self).reservations().len() as i32,
    {
        let index = self.texture_reservations.len();
        self.texture_reservations.push(source);
        TextureId::from_raw(index as i32)
    }

    /// How many textures are reserved.
    pub fn reserved_count(&self) -> (count: usize)
        ensures
            count == self.reservations().len(),
    {
        self.texture_reservations.len()
    }

    /// Hand over the reserved textures, in the order of their ids, to be
    /// loaded.
    pub fn into_reservations(self) -> (reservations: Vec<Source<Img>>)
        ensures
            reservations@ == self.reservations(),
    {
        self.texture_reservations
    }
}

impl<Img> Default for TextureAtlas<Img> {
    /// An atlas with no texture reserved.
    fn default() -> (atlas: Self)
        ensures
            atlas.reservations() == Seq::<Source<Img>>::empty(),
    {
        Self::new()
    }
}

/// Each reservation gets the next id: reserving two textures in a row gives
/// ids `n` and `n + 1`, where `n` textures were reserved before, so long as
/// fewer than `i32::MAX` textures are reserved.
pub proof fn law_ids_are_sequential<Img>(
    start: TextureAtlas<Img>,
    middle: TextureAtlas<Img>,
    end: TextureAtlas<Img>,
    first: TextureId,
    second: TextureId,
)
    requires
        start.reservations().len() + 1 < i32::MAX,
        middle.reservations().len() == start.reservations().len() + 1,
        end.reservations().len() == middle.reservations().len() + 1,
        first.spec_index() == start.reservations().len() as i32,
        second.spec_index() == middle.reservations().len() as i32,
    ensures
        first.spec_index() == start.reservations().len(),
        second.spec_index() == first.spec_index() + 1,
        first != second,
{
}

} // verus!
