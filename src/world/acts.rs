use vstd::prelude::*;

verus! {

/// Phase of the game. `GameOver` and `GameWon` are frozen: no tick runs in them.
#[derive(Copy, Clone, PartialEq, Eq, Structural, Debug)]
pub enum Act {
    Act1,
    Act2,
    Act3,
    GameOver,
    GameWon,
    ContinuePlayingAfterWinning,
}

} // verus!
