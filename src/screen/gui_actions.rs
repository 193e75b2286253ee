use vstd::prelude::*;

verus! {

/// What the player asked for during one frame.
///
/// `heroes_bought` and `heroes_sold` hold one flag per producer kind, at the kind's
/// catalog index; a missing entry reads as `false`.
pub struct GuiActions {
    pub quit: bool,
    pub clean_pressed: bool,
    pub dirty_pressed: bool,
    pub next_arrangement: bool,
    pub restart: bool,
    pub continue_playing: bool,
    pub heroes_bought: Vec<bool>,
    pub heroes_sold: Vec<bool>,
}

/// The flag at catalog index `i`, `false` where the list is too short.
pub open spec fn flag(flags: Seq<bool>, i: int) -> bool {
    0 <= i < flags.len() && flags[i]
}

impl GuiActions {
    /// Whether the host should run another frame.
    pub fn should_continue(&self) -> (r: bool)
        ensures
            r == !self.quit,
    {
        !self.quit
    }
}

impl Default for GuiActions {
    /// No action at all.
    fn default() -> (r: Self)
        ensures
            !r.quit,
            !r.clean_pressed,
            !r.dirty_pressed,
            !r.next_arrangement,
            !r.restart,
            !r.continue_playing,
            r.heroes_bought@.len() == 0,
            r.heroes_sold@.len() == 0,
    {
        GuiActions {
            quit: false,
            clean_pressed: false,
            dirty_pressed: false,
            next_arrangement: false,
            restart: false,
            continue_playing: false,
            heroes_bought: Vec::new(),
            heroes_sold: Vec::new(),
        }
    }
}

} // verus!
