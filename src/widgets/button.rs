use vstd::prelude::*;

verus! {

/// How the pointer relates to a button in the current frame.
#[derive(Copy, Clone, PartialEq, Eq, Structural, Debug)]
pub enum Interaction {
    Pressing,
    Clicked,
    Hovered,
    /// The pointer is away from the button.
    Idle,
}

impl Interaction {
    pub fn is_clicked(&self) -> (r: bool)
        ensures
            r == (*self == Interaction::Clicked),
    {
        *self == Interaction::Clicked
    }

    /// Whether the button is held or was just released.
    pub fn is_down(&self) -> (r: bool)
        ensures
            r == (*self == Interaction::Pressing || *self == Interaction::Clicked),
    {
        *self == Interaction::Pressing || *self == Interaction::Clicked
    }

    pub fn is_hovered(&self) -> (r: bool)
        ensures
            r == (*self == Interaction::Hovered),
    {
        *self == Interaction::Hovered
    }

    pub fn is_hovered_or_clicked(&self) -> (r: bool)
        ensures
            r == (*self == Interaction::Hovered || *self == Interaction::Clicked),
    {
        *self == Interaction::Hovered || *self == Interaction::Clicked
    }
}

} // verus!
