use vstd::prelude::*;

verus! {

/// The images the renderer draws, in the order in which they are loaded.
#[derive(Copy, Clone, PartialEq, Eq, Structural, Debug)]
pub enum Texture {
    CleanBackground,
    CleanBackgroundOff,
    DirtyBackground,
    DirtyBackgroundOff,
    Hero1,
    Villain1,
    Hero2,
    Villain2,
    Hero3,
    Villain3,
    CleanFgBroom,
    CleanFgSpray,
    CleanFgSponge,
    DirtyFgFish,
    DirtyFgBanana,
    DirtyFgCigar,
    BackgroundPattern,
    BackgroundMargin,
}

/// Number of images the renderer loads.
pub const TEXTURE_COUNT: usize = 18;

impl Texture {
    /// Position of the image in the load order.
    pub fn index(&self) -> (r: usize)
        ensures
            r < TEXTURE_COUNT,
            r == match *self {
                Texture::CleanBackground => 0usize,
                Texture::CleanBackgroundOff => 1,
                Texture::DirtyBackground => 2,
                Texture::DirtyBackgroundOff => 3,
                Texture::Hero1 => 4,
                Texture::Villain1 => 5,
                Texture::Hero2 => 6,
                Texture::Villain2 => 7,
                Texture::Hero3 => 8,
                Texture::Villain3 => 9,
                Texture::CleanFgBroom => 10,
                Texture::CleanFgSpray => 11,
                Texture::CleanFgSponge => 12,
                Texture::DirtyFgFish => 13,
                Texture::DirtyFgBanana => 14,
                Texture::DirtyFgCigar => 15,
                Texture::BackgroundPattern => 16,
                Texture::BackgroundMargin => 17,
            },
    {
        match self {
            Texture::CleanBackground => 0,
            Texture::CleanBackgroundOff => 1,
            Texture::DirtyBackground => 2,
            Texture::DirtyBackgroundOff => 3,
            Texture::Hero1 => 4,
            Texture::Villain1 => 5,
            Texture::Hero2 => 6,
            Texture::Villain2 => 7,
            Texture::Hero3 => 8,
            Texture::Villain3 => 9,
            Texture::CleanFgBroom => 10,
            Texture::CleanFgSpray => 11,
            Texture::CleanFgSponge => 12,
            Texture::DirtyFgFish => 13,
            Texture::DirtyFgBanana => 14,
            Texture::DirtyFgCigar => 15,
            Texture::BackgroundPattern => 16,
            Texture::BackgroundMargin => 17,
        }
    }
}

} // verus!
