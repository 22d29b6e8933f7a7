use vstd::prelude::*;

verus! {

/// Identifier of a loaded texture.
#[derive(Debug, Copy, Clone, PartialEq, Eq, Structural, Hash)]
pub struct TextureIndex {
    id: u128,
}

/// Identifier of a loaded font.
#[derive(Debug, Copy, Clone, PartialEq, Eq, Structural, Hash)]
pub struct FontIndex {
    id: u128,
}

impl TextureIndex {
    pub closed spec fn spec_id(&self) -> u128 {
        self.id
    }

    pub fn new(id: u128) -> (r: Self)
        ensures
            r.spec_id() == id,
    {
        Self { id }
    }

    pub fn id(&self) -> (r: u128)
        ensures
            r == self.spec_id(),
    {
        self.id
    }
}

impl FontIndex {
    pub closed spec fn spec_id(&self) -> u128 {
        self.id
    }

    pub fn new(id: u128) -> (r: Self)
        ensures
            r.spec_id() == id,
    {
        Self { id }
    }

    pub fn id(&self) -> (r: u128)
        ensures
            r == self.spec_id(),
    {
        self.id
    }
}

} // verus!
