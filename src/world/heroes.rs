use vstd::prelude::*;

use crate::screen::textures::Texture;
use crate::screen::translations::{CharacterText, Translation};

verus! {

/// A purchasable passive producer: the heroes clean, the villains make a mess.
#[derive(Copy, Clone, PartialEq, Eq, Structural, Hash, Debug)]
pub enum Hero {
    Hero1,
    Villain1,
    Hero2,
    Villain2,
    Hero3,
    Villain3,
}

/// Number of producer kinds in the catalog.
pub const HERO_COUNT: usize = 6;

/// The kind at position `i` of the catalog.
pub open spec fn hero_at(i: int) -> Hero {
    if i == 0 {
        Hero::Hero1
    } else if i == 1 {
        Hero::Villain1
    } else if i == 2 {
        Hero::Hero2
    } else if i == 3 {
        Hero::Villain2
    } else if i == 4 {
        Hero::Hero3
    } else {
        Hero::Villain3
    }
}

/// Position of a kind in the catalog.
pub open spec fn index_of(h: Hero) -> int {
    match h {
        Hero::Hero1 => 0,
        Hero::Villain1 => 1,
        Hero::Hero2 => 2,
        Hero::Villain2 => 3,
        Hero::Hero3 => 4,
        Hero::Villain3 => 5,
    }
}

pub open spec fn base_price_of(h: Hero) -> int {
    match h {
        Hero::Hero1 => 5,
        Hero::Villain1 => 12,
        Hero::Hero2 => 500,
        Hero::Villain2 => 1000,
        Hero::Hero3 => 50000,
        Hero::Villain3 => 80000,
    }
}

/// Hundredths of dirtiness that one unit of the kind removes per tick.
pub open spec fn clean_rate_of(h: Hero) -> int {
    match h {
        Hero::Hero1 => 1,
        Hero::Hero2 => 10,
        Hero::Hero3 => 100,
        _ => 0,
    }
}

/// Hundredths of dirtiness that one unit of the kind adds per tick.
pub open spec fn dirty_rate_of(h: Hero) -> int {
    match h {
        Hero::Villain1 => 2,
        Hero::Villain2 => 21,
        Hero::Villain3 => 221,
        _ => 0,
    }
}

/// The text for `h` in a per-kind table.
pub open spec fn text_of(h: Hero, texts: CharacterText) -> &'static str {
    match h {
        Hero::Hero1 => texts.hero_1,
        Hero::Villain1 => texts.villain_1,
        Hero::Hero2 => texts.hero_2,
        Hero::Villain2 => texts.villain_2,
        Hero::Hero3 => texts.hero_3,
        Hero::Villain3 => texts.villain_3,
    }
}

impl Hero {
    /// All kinds, in catalog order.
    pub fn list() -> (r: &'static [Hero])
        ensures
            r@.len() == HERO_COUNT,
            forall|i: int| 0 <= i < HERO_COUNT ==> #[trigger] r@[i] == hero_at(i),
    {
        &[Hero::Hero1, Hero::Villain1, Hero::Hero2, Hero::Villain2, Hero::Hero3, Hero::Villain3]
    }

    pub fn index(&self) -> (r: usize)
        ensures
            r == index_of(*self),
            r < HERO_COUNT,
    {
        match self {
            Hero::Hero1 => 0,
            Hero::Villain1 => 1,
            Hero::Hero2 => 2,
            Hero::Villain2 => 3,
            Hero::Hero3 => 4,
            Hero::Villain3 => 5,
        }
    }

    fn text_in(&self, texts: &CharacterText) -> (r: &'static str)
        ensures
            r == text_of(*self, *texts),
    {
        match self {
            Hero::Hero1 => texts.hero_1,
            Hero::Villain1 => texts.villain_1,
            Hero::Hero2 => texts.hero_2,
            Hero::Villain2 => texts.villain_2,
            Hero::Hero3 => texts.hero_3,
            Hero::Villain3 => texts.villain_3,
        }
    }

    /// The image that shows this kind.
    pub fn texture_index(&self) -> (r: Texture)
        ensures
            r == match *self {
                Hero::Hero1 => Texture::Hero1,
                Hero::Villain1 => Texture::Villain1,
                Hero::Hero2 => Texture::Hero2,
                Hero::Villain2 => Texture::Villain2,
                Hero::Hero3 => Texture::Hero3,
                Hero::Villain3 => Texture::Villain3,
            },
    {
        match self {
            Hero::Hero1 => Texture::Hero1,
            Hero::Villain1 => Texture::Villain1,
            Hero::Hero2 => Texture::Hero2,
            Hero::Villain2 => Texture::Villain2,
            Hero::Hero3 => Texture::Hero3,
            Hero::Villain3 => Texture::Villain3,
        }
    }

    pub fn name(&self, translation: &Translation) -> (r: &'static str)
        ensures
            r == text_of(*self, translation.name),
    {
        self.text_in(&translation.name)
    }

    pub fn short_description(&self, translation: &Translation) -> (r: &'static str)
        ensures
            r == text_of(*self, translation.description),
    {
        self.text_in(&translation.description)
    }

    /// The longer description; the tables hold one description per kind, so it is the short one.
    pub fn long_description(&self, translation: &Translation) -> (r: &'static str)
        ensures
            r == text_of(*self, translation.description),
    {
        self.text_in(&translation.description)
    }

    pub fn base_price(&self) -> (r: i64)
        ensures
            r == base_price_of(*self),
    {
        match self {
            Hero::Hero1 => 5,
            Hero::Villain1 => 12,
            Hero::Hero2 => 500,
            Hero::Villain2 => 1000,
            Hero::Hero3 => 50000,
            Hero::Villain3 => 80000,
        }
    }

    pub fn production_clean(&self) -> (r: i64)
        ensures
            r == clean_rate_of(*self),
    {
        match self {
            Hero::Hero1 => 1,
            Hero::Villain1 => 0,
            Hero::Hero2 => 10,
            Hero::Villain2 => 0,
            Hero::Hero3 => 100,
            Hero::Villain3 => 0,
        }
    }

    pub fn production_dirty(&self) -> (r: i64)
        ensures
            r == dirty_rate_of(*self),
    {
        match self {
            Hero::Hero1 => 0,
            Hero::Villain1 => 2,
            Hero::Hero2 => 0,
            Hero::Villain2 => 21,
            Hero::Hero3 => 0,
            Hero::Villain3 => 221,
        }
    }
}

} // verus!
