use vstd::prelude::*;

verus! {

/// How many of the images to load are loaded.
pub struct Progress {
    pub loaded: usize,
    pub total_to_load: usize,
}

} // verus!
