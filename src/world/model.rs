use vstd::prelude::*;

use crate::screen::gui_actions::{flag, GuiActions};
use crate::world::acts::Act;
use crate::world::alerts::{pruned, Alert, Millis};
use crate::world::heroes::{base_price_of, clean_rate_of, dirty_rate_of, hero_at, HERO_COUNT};

verus! {

/// Savings, in whole units, that win the game.
pub const TARGET_SAVINGS: i64 = 10;

/// Dirtiness, in whole units, of a fresh world.
pub const INITIAL_DIRTINESS: i64 = 5;

/// Dirtiness, in whole units, at which the game is lost.
pub const MAX_DIRTINESS: i64 = 100;

/// Largest money and lifetime earnings, in hundredths, from which a tick is computed exactly.
pub const MONEY_LIMIT: i64 = 4_000_000_000_000_000_000;

/// Largest owned count of one kind from which a tick is computed exactly.
pub const COUNT_LIMIT: i64 = 1_000_000_000;

/// Money and lifetime earnings, in hundredths, never exceed this in a reachable world.
pub const MONEY_CAP: i64 = 4_100_000_000_000_000_000;

/// The mathematical state of a world. Money and dirtiness are in hundredths.
pub struct WorldModel {
    pub frame: int,
    pub previous_frame_timestamp: int,
    pub time_since_last_frame: int,
    pub dirtiness: int,
    pub max_dirtiness: int,
    pub money: int,
    pub total_money: int,
    pub target_savings: int,
    /// Owned count of each kind, at the kind's catalog index.
    pub heroes_count: Seq<int>,
    /// Active alerts with the time each was raised, oldest first.
    pub alerts: Seq<(Millis, Alert)>,
    pub act: Act,
}

/// The world at program start (or right after a restart) at time `now`.
pub open spec fn fresh(now: Millis) -> WorldModel {
    WorldModel {
        frame: 0,
        previous_frame_timestamp: now as int,
        time_since_last_frame: 0,
        dirtiness: INITIAL_DIRTINESS * 100,
        max_dirtiness: MAX_DIRTINESS as int,
        money: 0,
        total_money: 0,
        target_savings: TARGET_SAVINGS as int,
        heroes_count: Seq::new(HERO_COUNT as nat, |i: int| 0int),
        alerts: Seq::empty(),
        act: Act::Act1,
    }
}

impl WorldModel {
    /// The invariant of every reachable world.
    pub open spec fn wf(self) -> bool {
        &&& self.max_dirtiness == MAX_DIRTINESS
        &&& 0 <= self.dirtiness <= self.max_dirtiness * 100
        &&& 0 <= self.money <= MONEY_CAP
        &&& 0 <= self.total_money <= MONEY_CAP
        &&& 0 <= self.frame <= i64::MAX
        &&& self.heroes_count.len() == HERO_COUNT
        &&& forall|i: int|
            0 <= i < HERO_COUNT ==> 0 <= #[trigger] self.heroes_count[i] <= COUNT_LIMIT + 1
    }

    /// The counters are far enough from the machine limits for one more tick.
    pub open spec fn has_headroom(self) -> bool {
        &&& self.frame < i64::MAX
        &&& self.money <= MONEY_LIMIT
        &&& self.total_money <= MONEY_LIMIT
        &&& forall|i: int| 0 <= i < HERO_COUNT ==> #[trigger] self.heroes_count[i] <= COUNT_LIMIT
    }

    /// Price, in whole units, of the next unit of the kind at catalog index `i`.
    pub open spec fn price(self, i: int) -> int {
        (self.heroes_count[i] + 1) * base_price_of(hero_at(i))
    }

    pub open spec fn with_alert(self, now: Millis, kind: Alert) -> WorldModel {
        WorldModel { alerts: self.alerts.push((now, kind)), ..self }
    }
}

/// Frame counter and clock bookkeeping, and the pruning of old alerts.
pub open spec fn bookkeeping(m: WorldModel, now: Millis) -> WorldModel {
    WorldModel {
        frame: m.frame + 1,
        previous_frame_timestamp: now as int,
        time_since_last_frame: if now >= m.previous_frame_timestamp {
            now - m.previous_frame_timestamp
        } else {
            0
        },
        alerts: pruned(m.alerts, now),
        ..m
    }
}

/// The player's own dirty and clean presses.
pub open spec fn manual(m: WorldModel, dirty: bool, clean: bool, now: Millis) -> WorldModel {
    let d = if dirty {
        m.dirtiness + 100
    } else {
        m.dirtiness
    };
    if !clean {
        WorldModel { dirtiness: d, ..m }
    } else if d >= 100 {
        WorldModel {
            dirtiness: d - 100,
            money: m.money + 100,
            total_money: m.total_money + 10,
            ..m
        }
    } else {
        WorldModel { dirtiness: d, ..m }.with_alert(now, Alert::CannotClean)
    }
}

/// Dirtiness added per tick by the first `n` kinds of the roster.
pub open spec fn dirt_output(counts: Seq<int>, n: nat) -> int
    decreases n,
{
    if n == 0 {
        0
    } else {
        dirt_output(counts, (n - 1) as nat) + counts[n - 1] * dirty_rate_of(hero_at(n - 1))
    }
}

/// Dirtiness removed per tick by the first `n` kinds of the roster, before capping.
pub open spec fn clean_output(counts: Seq<int>, n: nat) -> int
    decreases n,
{
    if n == 0 {
        0
    } else {
        clean_output(counts, (n - 1) as nat) + counts[n - 1] * clean_rate_of(hero_at(n - 1))
    }
}

/// Passive production of the roster, then the cap on dirtiness.
pub open spec fn passive(m: WorldModel, now: Millis) -> WorldModel {
    let d = m.dirtiness + dirt_output(m.heroes_count, HERO_COUNT as nat);
    let cleaned = clean_output(m.heroes_count, HERO_COUNT as nat);
    let effective = if cleaned <= d {
        cleaned
    } else {
        d
    };
    let rest = d - effective;
    let m1 = WorldModel {
        dirtiness: if rest <= m.max_dirtiness * 100 {
            rest
        } else {
            m.max_dirtiness * 100
        },
        money: m.money + effective,
        total_money: m.total_money + effective / 10,
        ..m
    };
    if cleaned > d {
        m1.with_alert(now, Alert::InefficientCleaners)
    } else {
        m1
    }
}

/// Buying one unit of the kind at catalog index `i`.
pub open spec fn buy_one(m: WorldModel, i: int, now: Millis) -> WorldModel {
    let price = m.price(i);
    if m.money / 100 >= price {
        WorldModel {
            money: m.money - price * 100,
            heroes_count: m.heroes_count.update(i, m.heroes_count[i] + 1),
            ..m
        }
    } else {
        m.with_alert(now, Alert::InsufficientMoney)
    }
}

/// Selling one unit of the kind at catalog index `i`. The refund is the kind's price
/// taken before the count goes down: `(count + 1) * base price`.
pub open spec fn sell_one(m: WorldModel, i: int, now: Millis) -> WorldModel {
    let count = m.heroes_count[i];
    if count > 0 {
        WorldModel {
            money: m.money + m.price(i) * 100,
            heroes_count: m.heroes_count.update(i, count - 1),
            ..m
        }
    } else {
        m.with_alert(now, Alert::CannotSell)
    }
}

/// The purchases flagged among the first `n` kinds, in catalog order.
pub open spec fn purchases(m: WorldModel, flags: Seq<bool>, now: Millis, n: nat) -> WorldModel
    decreases n,
{
    if n == 0 {
        m
    } else {
        let before = purchases(m, flags, now, (n - 1) as nat);
        if flag(flags, n - 1) {
            buy_one(before, n - 1, now)
        } else {
            before
        }
    }
}

/// The sales flagged among the first `n` kinds, in catalog order.
pub open spec fn sales(m: WorldModel, flags: Seq<bool>, now: Millis, n: nat) -> WorldModel
    decreases n,
{
    if n == 0 {
        m
    } else {
        let before = sales(m, flags, now, (n - 1) as nat);
        if flag(flags, n - 1) {
            sell_one(before, n - 1, now)
        } else {
            before
        }
    }
}

/// The win check, then the loss check; a win in the same tick takes priority.
pub open spec fn end_checks(m: WorldModel) -> WorldModel {
    let won = m.money / 100 >= m.target_savings && m.act != Act::ContinuePlayingAfterWinning;
    let after_win = if won {
        Act::GameWon
    } else {
        m.act
    };
    let lost = m.dirtiness / 100 >= m.max_dirtiness && after_win != Act::GameWon;
    WorldModel {
        act: if lost {
            Act::GameOver
        } else {
            after_win
        },
        ..m
    }
}

/// One permitted tick: bookkeeping, manual actions, passive production, purchases,
/// sales, end conditions.
pub open spec fn tick(m: WorldModel, a: GuiActions, now: Millis) -> WorldModel {
    let m1 = manual(bookkeeping(m, now), a.dirty_pressed, a.clean_pressed, now);
    let m2 = passive(m1, now);
    let m3 = purchases(m2, a.heroes_bought@, now, HERO_COUNT as nat);
    let m4 = sales(m3, a.heroes_sold@, now, HERO_COUNT as nat);
    end_checks(m4)
}

/// What one update does: a restart replaces the world; a won game only listens for
/// "continue"; a lost game ignores everything; otherwise a tick runs.
pub open spec fn step(m: WorldModel, a: GuiActions, now: Millis) -> WorldModel {
    if a.restart {
        fresh(now)
    } else if m.act == Act::GameWon {
        if a.continue_playing {
            WorldModel { act: Act::ContinuePlayingAfterWinning, ..m }
        } else {
            m
        }
    } else if m.act == Act::GameOver {
        m
    } else {
        tick(m, a, now)
    }
}

} // verus!
