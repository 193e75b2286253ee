use vstd::prelude::*;

use crate::screen::gui_actions::{flag, GuiActions};
use crate::world::acts::Act;
use crate::world::alerts::Millis;
use crate::world::bounds::{
    counts_within, lemma_output_bounds, lemma_purchases_bounds, lemma_sales_bounds,
};
use crate::world::heroes::{base_price_of, hero_at, HERO_COUNT};
use crate::world::model::{
    bookkeeping, buy_one, clean_output, dirt_output, fresh, manual, passive, purchases, sales,
    sell_one, step, WorldModel, COUNT_LIMIT,
};

verus! {

/// The world after a sequence of updates, the `k`-th with `batches[k]` at `times[k]`.
pub open spec fn run(m: WorldModel, batches: Seq<GuiActions>, times: Seq<Millis>) -> WorldModel
    recommends
        batches.len() == times.len(),
    decreases batches.len(),
{
    if batches.len() == 0 {
        m
    } else {
        step(run(m, batches.drop_last(), times.drop_last()), batches.last(), times.last())
    }
}

/// Every intermediate world of such a sequence, before its update, has the headroom
/// that `World::update` asks for.
pub open spec fn headroom_along(m: WorldModel, batches: Seq<GuiActions>, times: Seq<Millis>) -> bool {
    forall|k: int|
        0 <= k < batches.len() ==> (#[trigger] run(
            m,
            batches.subrange(0, k),
            times.subrange(0, k),
        )).has_headroom()
}

/// An update keeps a world well formed: dirtiness stays within `[0, max_dirtiness * 100]`,
/// money, lifetime earnings and every owned count stay non-negative.
pub proof fn lemma_step_preserves_wf(m: WorldModel, a: GuiActions, now: Millis)
    requires
        m.wf(),
        m.has_headroom(),
    ensures
        step(m, a, now).wf(),
{
    assert(fresh(now).wf());
    if !a.restart && m.act != Act::GameWon && m.act != Act::GameOver {
        let m1 = manual(bookkeeping(m, now), a.dirty_pressed, a.clean_pressed, now);
        assert(counts_within(m1.heroes_count, COUNT_LIMIT as int));
        lemma_output_bounds(m1.heroes_count, HERO_COUNT as nat);
        let m2 = passive(m1, now);
        lemma_purchases_bounds(m2, a.heroes_bought@, now, HERO_COUNT as nat);
        let m3 = purchases(m2, a.heroes_bought@, now, HERO_COUNT as nat);
        lemma_sales_bounds(m3, a.heroes_sold@, now, HERO_COUNT as nat);
    }
}

/// Every world reachable from a fresh one by updates is well formed.
pub proof fn lemma_reachable_wf(start: Millis, batches: Seq<GuiActions>, times: Seq<Millis>)
    requires
        batches.len() == times.len(),
        headroom_along(fresh(start), batches, times),
    ensures
        run(fresh(start), batches, times).wf(),
    decreases batches.len(),
{
    if batches.len() == 0 {
        assert(fresh(start).wf());
    } else {
        let n = batches.len() - 1;
        assert(batches.subrange(0, n) =~= batches.drop_last());
        assert(times.subrange(0, n) =~= times.drop_last());
        assert forall|k: int| 0 <= k < n implies (#[trigger] run(
            fresh(start),
            batches.drop_last().subrange(0, k),
            times.drop_last().subrange(0, k),
        )).has_headroom() by {
            assert(batches.drop_last().subrange(0, k) =~= batches.subrange(0, k));
            assert(times.drop_last().subrange(0, k) =~= times.subrange(0, k));
            assert(run(fresh(start), batches.subrange(0, k), times.subrange(0, k)).has_headroom());
        }
        lemma_reachable_wf(start, batches.drop_last(), times.drop_last());
        assert(run(fresh(start), batches.subrange(0, n), times.subrange(0, n)).has_headroom());
        lemma_step_preserves_wf(
            run(fresh(start), batches.drop_last(), times.drop_last()),
            batches.last(),
            times.last(),
        );
    }
}

/// Buying one unit of a kind and then selling one unit of the same kind, with nothing in
/// between, gives back the owned count from before the purchase. Since the sale is priced
/// at the count before it, the refund exceeds what the purchase cost by one base price.
pub proof fn lemma_buy_then_sell(m: WorldModel, i: int, now: Millis)
    requires
        m.wf(),
        0 <= i < HERO_COUNT,
        m.money / 100 >= m.price(i),
    ensures
        sell_one(buy_one(m, i, now), i, now).heroes_count == m.heroes_count,
        sell_one(buy_one(m, i, now), i, now).money == m.money + base_price_of(hero_at(i)) * 100,
{
    let bought = buy_one(m, i, now);
    assert(bought.heroes_count[i] == m.heroes_count[i] + 1);
    assert(bought.heroes_count.update(i, m.heroes_count[i]) =~= m.heroes_count);
    assert(bought.price(i) == m.price(i) + base_price_of(hero_at(i))) by (nonlinear_arith)
        requires
            bought.price(i) == (m.heroes_count[i] + 2) * base_price_of(hero_at(i)),
            m.price(i) == (m.heroes_count[i] + 1) * base_price_of(hero_at(i)),
    ;
}

/// With no flag raised, purchases and sales change nothing.
proof fn lemma_no_flags(m: WorldModel, flags: Seq<bool>, now: Millis, n: nat)
    requires
        forall|i: int| 0 <= i < n ==> !#[trigger] flag(flags, i),
    ensures
        purchases(m, flags, now, n) == m,
        sales(m, flags, now, n) == m,
    decreases n,
{
    if n > 0 {
        lemma_no_flags(m, flags, now, (n - 1) as nat);
        assert(!flag(flags, n - 1));
    }
}

/// An empty roster produces nothing.
proof fn lemma_empty_roster_output(counts: Seq<int>, n: nat)
    requires
        n <= counts.len(),
        forall|i: int| 0 <= i < n ==> #[trigger] counts[i] == 0,
    ensures
        dirt_output(counts, n) == 0,
        clean_output(counts, n) == 0,
    decreases n,
{
    if n > 0 {
        lemma_empty_roster_output(counts, (n - 1) as nat);
        assert(counts[n - 1] == 0);
    }
}

/// An update with no action at all, on a clean world with an empty roster, leaves money
/// and dirtiness as they were; where a tick runs, the frame counter and the clock still
/// advance.
pub proof fn lemma_idle_update(m: WorldModel, a: GuiActions, now: Millis)
    requires
        m.wf(),
        !a.dirty_pressed,
        !a.clean_pressed,
        !a.restart,
        !a.continue_playing,
        forall|i: int| 0 <= i < HERO_COUNT ==> !#[trigger] flag(a.heroes_bought@, i),
        forall|i: int| 0 <= i < HERO_COUNT ==> !#[trigger] flag(a.heroes_sold@, i),
        m.dirtiness == 0,
        forall|i: int| 0 <= i < HERO_COUNT ==> #[trigger] m.heroes_count[i] == 0,
    ensures
        step(m, a, now).money == m.money,
        step(m, a, now).dirtiness == m.dirtiness,
        m.act != Act::GameWon && m.act != Act::GameOver ==> {
            &&& step(m, a, now).frame == m.frame + 1
            &&& step(m, a, now).previous_frame_timestamp == now
        },
{
    let m1 = manual(bookkeeping(m, now), a.dirty_pressed, a.clean_pressed, now);
    lemma_empty_roster_output(m1.heroes_count, HERO_COUNT as nat);
    let m2 = passive(m1, now);
    lemma_no_flags(m2, a.heroes_bought@, now, HERO_COUNT as nat);
    lemma_no_flags(m2, a.heroes_sold@, now, HERO_COUNT as nat);
}

/// A lost game ignores every update but a restart.
pub proof fn lemma_game_over_frozen(m: WorldModel, a: GuiActions, now: Millis)
    requires
        m.act == Act::GameOver,
        !a.restart,
    ensures
        step(m, a, now) == m,
{
}

/// However many updates without a restart follow a lost game, the world stays as it was.
pub proof fn lemma_game_over_stays(m: WorldModel, batches: Seq<GuiActions>, times: Seq<Millis>)
    requires
        m.act == Act::GameOver,
        forall|k: int| 0 <= k < batches.len() ==> !(#[trigger] batches[k]).restart,
    ensures
        run(m, batches, times) == m,
    decreases batches.len(),
{
    if batches.len() > 0 {
        lemma_game_over_stays(m, batches.drop_last(), times.drop_last());
        assert(!batches[batches.len() - 1].restart);
    }
}

/// A restart, in any stage, replaces the world with a fresh one in the first act.
pub proof fn lemma_restart_fresh(m: WorldModel, a: GuiActions, now: Millis)
    requires
        a.restart,
    ensures
        step(m, a, now) == fresh(now),
        step(m, a, now).act == Act::Act1,
        step(m, a, now).wf(),
{
}

} // verus!
