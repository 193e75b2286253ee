use vstd::prelude::*;

use crate::screen::translations::Translation;
use crate::world::acts::Act;
use crate::world::alerts::Millis;

verus! {

pub fn act_1_lore(translation: &Translation) -> (r: &[&str])
    ensures
        r@ == translation.lore.act_1@,
{
    translation.lore.act_1
}

pub fn act_2_lore(translation: &Translation) -> (r: &[&str])
    ensures
        r@ == translation.lore.act_2@,
{
    translation.lore.act_2
}

pub fn act_3_lore(translation: &Translation) -> (r: &[&str])
    ensures
        r@ == translation.lore.act_3@,
{
    translation.lore.act_3
}

/// The closing line of a lost game.
pub fn game_over_lore() -> (r: &'static [&'static str])
    ensures
        r@ == seq!["Todo se acaba, excepto la suciedad."],
{
    &["Todo se acaba, excepto la suciedad."]
}

/// The closing line of a won game.
pub fn game_won_lore() -> (r: &'static [&'static str])
    ensures
        r@ == seq!["Contra todo pronóstico, te has salido con la tuya."],
{
    &["Contra todo pronóstico, te has salido con la tuya."]
}

/// How long one story line stays on screen before another is picked.
pub const LORE_PERSISTENCE: Millis = 15000;

/// The story lines of `stage`; after a win the game goes on with the third act's lines.
pub open spec fn lore_of(stage: Act, translation: Translation) -> Seq<&'static str> {
    match stage {
        Act::Act1 => translation.lore.act_1@,
        Act::Act2 => translation.lore.act_2@,
        Act::Act3 => translation.lore.act_3@,
        Act::GameOver => translation.lore.game_over@,
        Act::GameWon => translation.lore.game_won@,
        Act::ContinuePlayingAfterWinning => translation.lore.act_3@,
    }
}

/// A scrambled position among `len` items for the time block `block`.
pub open spec fn scrambled_index(block: int, len: int) -> int {
    (block % 5 + 6 - block * 2 % 3 + block / 5) % len
}

/// An item of `collection` that changes every `LORE_PERSISTENCE` milliseconds.
pub fn choose_pseudo_random<T>(collection: &[T], now: Millis) -> (r: &T)
    requires
        collection@.len() > 0,
    ensures
        *r == collection@[scrambled_index((now / LORE_PERSISTENCE) as int, collection@.len() as int)],
{
    let block = now / LORE_PERSISTENCE;
    let hash = block % 5 + 6 - block * 2 % 3 + block / 5;
    &collection[(hash % (collection.len() as u64)) as usize]
}

/// The story line to show in `stage` at time `now`.
pub fn choose_text_lore<'a>(stage: Act, now: Millis, translation: &'a Translation) -> (r: &'a str)
    requires
        lore_of(stage, *translation).len() > 0,
    ensures
        r == lore_of(stage, *translation)[scrambled_index(
            (now / LORE_PERSISTENCE) as int,
            lore_of(stage, *translation).len() as int,
        )],
{
    let lore_sentences = match stage {
        Act::Act1 => translation.lore.act_1,
        Act::Act2 => translation.lore.act_2,
        Act::Act3 => translation.lore.act_3,
        Act::GameOver => translation.lore.game_over,
        Act::GameWon => translation.lore.game_won,
        Act::ContinuePlayingAfterWinning => translation.lore.act_3,
    };
    *choose_pseudo_random(lore_sentences, now)
}

} // verus!
