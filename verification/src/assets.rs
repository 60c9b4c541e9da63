//! The image assets the game draws with. The game loads no image of its own
//! yet, so the set is empty; loading sounds and images from disk stays with
//! the program that drives the game.

use vstd::prelude::*;

verus! {

/// The images the game draws with.
#[derive(Copy, Clone, Debug, PartialEq, Eq, Structural)]
pub struct ImageAssets {}

impl ImageAssets {
    /// The (empty) set of images.
    pub fn new() -> (r: Self)
        ensures
            r == (ImageAssets {}),
    {
        ImageAssets {}
    }
}

} // verus!
