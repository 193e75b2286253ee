use vstd::prelude::*;

use crate::world::alerts::Millis;
use crate::world::heroes::{base_price_of, clean_rate_of, dirty_rate_of, hero_at, HERO_COUNT};
use crate::world::model::{clean_output, dirt_output, purchases, sales, WorldModel, COUNT_LIMIT};

verus! {

/// Upper bound of what one sale refunds, in hundredths.
pub const SALE_LIMIT: i64 = 10_000_000_000_000_000;

/// Upper bound of what the whole roster cleans or dirties in one tick, in hundredths.
pub const OUTPUT_LIMIT: i64 = 2_000_000_000_000;

pub open spec fn counts_within(counts: Seq<int>, cap: int) -> bool {
    &&& counts.len() == HERO_COUNT
    &&& forall|j: int| 0 <= j < HERO_COUNT ==> 0 <= #[trigger] counts[j] <= cap
}

/// The roster's output stays within `OUTPUT_LIMIT` while every count is at most `COUNT_LIMIT`.
pub proof fn lemma_output_bounds(counts: Seq<int>, n: nat)
    requires
        counts_within(counts, COUNT_LIMIT as int),
        n <= HERO_COUNT,
    ensures
        0 <= dirt_output(counts, n) <= n * 221 * COUNT_LIMIT,
        0 <= clean_output(counts, n) <= n * 100 * COUNT_LIMIT,
        dirt_output(counts, n) <= OUTPUT_LIMIT,
        clean_output(counts, n) <= OUTPUT_LIMIT,
    decreases n,
{
    if n > 0 {
        lemma_output_bounds(counts, (n - 1) as nat);
        let c = counts[n - 1];
        let d = dirty_rate_of(hero_at(n - 1));
        let k = clean_rate_of(hero_at(n - 1));
        assert(0 <= c * d <= COUNT_LIMIT * 221) by (nonlinear_arith)
            requires
                0 <= c <= COUNT_LIMIT,
                0 <= d <= 221,
        ;
        assert(0 <= c * k <= COUNT_LIMIT * 100) by (nonlinear_arith)
            requires
                0 <= c <= COUNT_LIMIT,
                0 <= k <= 100,
        ;
    }
}

/// The price of the next unit, in hundredths, of a kind owned at most `COUNT_LIMIT + 1` times.
pub proof fn lemma_price_bound(count: int, i: int)
    requires
        0 <= count <= COUNT_LIMIT + 1,
        0 <= i < HERO_COUNT,
    ensures
        0 <= (count + 1) * base_price_of(hero_at(i)) * 100 <= SALE_LIMIT,
        0 <= count * base_price_of(hero_at(i)) * 100 <= SALE_LIMIT,
{
    let b = base_price_of(hero_at(i));
    assert(0 <= (count + 1) * b * 100 <= (COUNT_LIMIT + 2) * 80000 * 100) by (nonlinear_arith)
        requires
            0 <= count <= COUNT_LIMIT + 1,
            0 <= b <= 80000,
    ;
    assert(0 <= count * b * 100 <= (COUNT_LIMIT + 2) * 80000 * 100) by (nonlinear_arith)
        requires
            0 <= count <= COUNT_LIMIT + 1,
            0 <= b <= 80000,
    ;
}

/// Purchases only spend money and add at most one unit to each kind; nothing else moves.
pub proof fn lemma_purchases_bounds(m: WorldModel, flags: Seq<bool>, now: Millis, n: nat)
    requires
        n <= HERO_COUNT,
        counts_within(m.heroes_count, COUNT_LIMIT as int),
        m.money >= 0,
    ensures
        ({
            let r = purchases(m, flags, now, n);
            &&& counts_within(r.heroes_count, COUNT_LIMIT + 1)
            &&& forall|j: int| n <= j < HERO_COUNT ==> #[trigger] r.heroes_count[j] == m.heroes_count[j]
            &&& 0 <= r.money <= m.money
            &&& r.dirtiness == m.dirtiness
            &&& r.max_dirtiness == m.max_dirtiness
            &&& r.total_money == m.total_money
            &&& r.target_savings == m.target_savings
            &&& r.frame == m.frame
            &&& r.act == m.act
        }),
    decreases n,
{
    if n > 0 {
        lemma_purchases_bounds(m, flags, now, (n - 1) as nat);
        let before = purchases(m, flags, now, (n - 1) as nat);
        let i = n - 1;
        lemma_price_bound(before.heroes_count[i], i);
    }
}

/// Sales only refund money and take at most one unit from each kind; nothing else moves.
pub proof fn lemma_sales_bounds(m: WorldModel, flags: Seq<bool>, now: Millis, n: nat)
    requires
        n <= HERO_COUNT,
        counts_within(m.heroes_count, COUNT_LIMIT + 1),
        m.money >= 0,
    ensures
        ({
            let r = sales(m, flags, now, n);
            &&& counts_within(r.heroes_count, COUNT_LIMIT + 1)
            &&& m.money <= r.money <= m.money + n * SALE_LIMIT
            &&& r.dirtiness == m.dirtiness
            &&& r.max_dirtiness == m.max_dirtiness
            &&& r.total_money == m.total_money
            &&& r.target_savings == m.target_savings
            &&& r.frame == m.frame
            &&& r.act == m.act
        }),
    decreases n,
{
    if n > 0 {
        lemma_sales_bounds(m, flags, now, (n - 1) as nat);
        let before = sales(m, flags, now, (n - 1) as nat);
        let i = n - 1;
        lemma_price_bound(before.heroes_count[i], i);
    }
}

} // verus!
