use vstd::prelude::*;

pub mod acts;
pub mod alerts;
pub mod bounds;
pub mod heroes;
pub mod laws;
pub mod model;

use crate::screen::gui_actions::GuiActions;
use crate::world::acts::Act;
use crate::world::alerts::{prune_alerts, Alert, Millis};
use crate::world::bounds::{
    counts_within, lemma_output_bounds, lemma_price_bound, lemma_purchases_bounds,
    lemma_sales_bounds, OUTPUT_LIMIT, SALE_LIMIT,
};
use crate::world::heroes::{hero_at, index_of, Hero, HERO_COUNT};
use crate::world::laws::lemma_step_preserves_wf;
use crate::world::model::{
    bookkeeping, buy_one, clean_output, dirt_output, end_checks, fresh, manual, passive,
    purchases, sales, sell_one, step, tick, WorldModel, COUNT_LIMIT, INITIAL_DIRTINESS,
    MAX_DIRTINESS, MONEY_LIMIT, TARGET_SAVINGS,
};

verus! {

pub type Cents = i64;

pub type Units = i64;

/// The whole game state: the economy, the roster, the alert log and the stage.
pub struct World {
    frame: i64,
    previous_frame_timestamp: Millis,
    time_since_last_frame: Millis,
    dirtiness: Cents,
    max_dirtiness: Units,
    money: Cents,
    total_money: Cents,
    target_savings: Units,
    heroes_count: Vec<i64>,
    alerts: Vec<(Millis, Alert)>,
    act: Act,
}

impl View for World {
    type V = WorldModel;

    closed spec fn view(&self) -> WorldModel {
        WorldModel {
            frame: self.frame as int,
            previous_frame_timestamp: self.previous_frame_timestamp as int,
            time_since_last_frame: self.time_since_last_frame as int,
            dirtiness: self.dirtiness as int,
            max_dirtiness: self.max_dirtiness as int,
            money: self.money as int,
            total_money: self.total_money as int,
            target_savings: self.target_savings as int,
            heroes_count: self.heroes_count@.map_values(|c: i64| c as int),
            alerts: self.alerts@,
            act: self.act,
        }
    }
}

impl World {
    /// A fresh world whose clock starts at `now`.
    pub fn new(now: Millis) -> (r: World)
        ensures
            r@ == fresh(now),
    {
        let r = World {
            frame: 0,
            previous_frame_timestamp: now,
            time_since_last_frame: 0,
            dirtiness: to_cents(INITIAL_DIRTINESS),
            max_dirtiness: MAX_DIRTINESS,
            money: 0,
            total_money: 0,
            target_savings: TARGET_SAVINGS,
            heroes_count: vec![0, 0, 0, 0, 0, 0],
            alerts: Vec::new(),
            act: Act::Act1,
        };
        assert(r@.heroes_count =~= fresh(now).heroes_count);
        r
    }

    /// Runs one frame of the game on the player's actions, at time `now`, and tells
    /// whether the host should go on.
    pub fn update(&mut self, gui_actions: GuiActions, now: Millis) -> (r: bool)
        requires
            old(self)@.wf(),
            old(self)@.has_headroom(),
        ensures
            final(self)@ == step(old(self)@, gui_actions, now),
            final(self)@.wf(),
            r == !gui_actions.quit,
    {
        proof {
            lemma_step_preserves_wf(self@, gui_actions, now);
        }
        if gui_actions.restart {
            self.restart(now);
            return gui_actions.should_continue();
        }
        if self.act == Act::GameWon {
            if gui_actions.continue_playing {
                self.act = Act::ContinuePlayingAfterWinning;
            }
        } else if self.act != Act::GameOver {
            self.tick(&gui_actions, now);
        }
        gui_actions.should_continue()
    }

    fn tick(&mut self, gui_actions: &GuiActions, now: Millis)
        requires
            old(self)@.wf(),
            old(self)@.has_headroom(),
        ensures
            final(self)@ == tick(old(self)@, *gui_actions, now),
    {
        let ghost m0 = self@;
        self.frame = self.frame + 1;
        self.time_since_last_frame = if now >= self.previous_frame_timestamp {
            now - self.previous_frame_timestamp
        } else {
            0
        };
        self.previous_frame_timestamp = now;
        self.alerts = prune_alerts(&self.alerts, now);
        assert(self@ == bookkeeping(m0, now));

        self.manual_actions(gui_actions.dirty_pressed, gui_actions.clean_pressed, now);
        proof {
            lemma_output_bounds(self@.heroes_count, HERO_COUNT as nat);
        }
        self.passive_production(now);

        let ghost m2 = self@;
        let mut i: usize = 0;
        while i < HERO_COUNT
            invariant
                i <= HERO_COUNT,
                self@ == purchases(m2, gui_actions.heroes_bought@, now, i as nat),
                counts_within(m2.heroes_count, COUNT_LIMIT as int),
                0 <= m2.money <= MONEY_LIMIT + 100 + OUTPUT_LIMIT,
            decreases HERO_COUNT - i,
        {
            proof {
                lemma_purchases_bounds(m2, gui_actions.heroes_bought@, now, i as nat);
            }
            if i < gui_actions.heroes_bought.len() && gui_actions.heroes_bought[i] {
                self.buy(i, now);
            }
            i = i + 1;
        }

        let ghost m3 = self@;
        proof {
            lemma_purchases_bounds(m2, gui_actions.heroes_bought@, now, HERO_COUNT as nat);
        }
        let mut i: usize = 0;
        while i < HERO_COUNT
            invariant
                i <= HERO_COUNT,
                self@ == sales(m3, gui_actions.heroes_sold@, now, i as nat),
                counts_within(m3.heroes_count, COUNT_LIMIT + 1),
                0 <= m3.money <= MONEY_LIMIT + 100 + OUTPUT_LIMIT,
            decreases HERO_COUNT - i,
        {
            proof {
                lemma_sales_bounds(m3, gui_actions.heroes_sold@, now, i as nat);
            }
            if i < gui_actions.heroes_sold.len() && gui_actions.heroes_sold[i] {
                self.sell(i, now);
            }
            i = i + 1;
        }
        proof {
            lemma_sales_bounds(m3, gui_actions.heroes_sold@, now, HERO_COUNT as nat);
        }
        self.check_end();
    }

    fn manual_actions(&mut self, dirty: bool, clean: bool, now: Millis)
        requires
            0 <= old(self)@.dirtiness <= MAX_DIRTINESS * 100,
            0 <= old(self)@.money <= MONEY_LIMIT,
            0 <= old(self)@.total_money <= MONEY_LIMIT,
        ensures
            final(self)@ == manual(old(self)@, dirty, clean, now),
    {
        if dirty {
            self.dirtiness = self.dirtiness + to_cents(1);
        }
        if clean {
            if self.dirtiness >= to_cents(1) {
                self.dirtiness = self.dirtiness - to_cents(1);
                self.money = self.money + to_cents(1);
                self.total_money = self.total_money + 10;
            } else {
                self.alerts.push((now, Alert::CannotClean));
            }
        }
    }

    /// Dirtiness that the roster adds in one tick.
    fn dirt_produced(&self) -> (r: i64)
        requires
            counts_within(self@.heroes_count, COUNT_LIMIT as int),
        ensures
            r == dirt_output(self@.heroes_count, HERO_COUNT as nat),
    {
        let heroes = Hero::list();
        let mut sum: i64 = 0;
        let mut i: usize = 0;
        while i < HERO_COUNT
            invariant
                i <= HERO_COUNT,
                heroes@.len() == HERO_COUNT,
                forall|j: int| 0 <= j < HERO_COUNT ==> #[trigger] heroes@[j] == hero_at(j),
                counts_within(self@.heroes_count, COUNT_LIMIT as int),
                sum == dirt_output(self@.heroes_count, i as nat),
            decreases HERO_COUNT - i,
        {
            let count = self.heroes_count[i];
            let rate = heroes[i].production_dirty();
            proof {
                lemma_output_bounds(self@.heroes_count, (i + 1) as nat);
                assert(0 <= count * rate <= COUNT_LIMIT * 221) by (nonlinear_arith)
                    requires
                        0 <= count <= COUNT_LIMIT,
                        0 <= rate <= 221,
                ;
            }
            sum = sum + count * rate;
            i = i + 1;
        }
        sum
    }

    /// Dirtiness that the roster could remove in one tick.
    fn cleaning_capacity(&self) -> (r: i64)
        requires
            counts_within(self@.heroes_count, COUNT_LIMIT as int),
        ensures
            r == clean_output(self@.heroes_count, HERO_COUNT as nat),
    {
        let heroes = Hero::list();
        let mut sum: i64 = 0;
        let mut i: usize = 0;
        while i < HERO_COUNT
            invariant
                i <= HERO_COUNT,
                heroes@.len() == HERO_COUNT,
                forall|j: int| 0 <= j < HERO_COUNT ==> #[trigger] heroes@[j] == hero_at(j),
                counts_within(self@.heroes_count, COUNT_LIMIT as int),
                sum == clean_output(self@.heroes_count, i as nat),
            decreases HERO_COUNT - i,
        {
            let count = self.heroes_count[i];
            let rate = heroes[i].production_clean();
            proof {
                lemma_output_bounds(self@.heroes_count, (i + 1) as nat);
                assert(0 <= count * rate <= COUNT_LIMIT * 100) by (nonlinear_arith)
                    requires
                        0 <= count <= COUNT_LIMIT,
                        0 <= rate <= 100,
                ;
            }
            sum = sum + count * rate;
            i = i + 1;
        }
        sum
    }

    fn passive_production(&mut self, now: Millis)
        requires
            old(self)@.max_dirtiness == MAX_DIRTINESS,
            0 <= old(self)@.dirtiness <= MAX_DIRTINESS * 100 + 100,
            0 <= old(self)@.money <= MONEY_LIMIT + 100,
            0 <= old(self)@.total_money <= MONEY_LIMIT + 10,
            counts_within(old(self)@.heroes_count, COUNT_LIMIT as int),
        ensures
            final(self)@ == passive(old(self)@, now),
    {
        proof {
            lemma_output_bounds(self@.heroes_count, HERO_COUNT as nat);
        }
        let dirt = self.dirt_produced();
        let cleaned = self.cleaning_capacity();
        self.dirtiness = self.dirtiness + dirt;
        let effective = if cleaned <= self.dirtiness {
            cleaned
        } else {
            self.dirtiness
        };
        if cleaned > self.dirtiness {
            self.alerts.push((now, Alert::InefficientCleaners));
        }
        self.money = self.money + effective;
        self.total_money = self.total_money + effective / 10;
        self.dirtiness = self.dirtiness - effective;
        let cap = to_cents(self.max_dirtiness);
        if self.dirtiness > cap {
            self.dirtiness = cap;
        }
    }

    fn buy(&mut self, i: usize, now: Millis)
        requires
            i < HERO_COUNT,
            counts_within(old(self)@.heroes_count, COUNT_LIMIT + 1),
            old(self)@.money >= 0,
        ensures
            final(self)@ == buy_one(old(self)@, i as int, now),
    {
        let hero = Hero::list()[i];
        let count = self.heroes_count[i];
        proof {
            lemma_price_bound(count as int, i as int);
        }
        let price = (count + 1) * hero.base_price();
        if self.money / 100 >= price {
            self.money = self.money - price * 100;
            self.heroes_count.set(i, count + 1);
            assert(self@.heroes_count =~= old(self)@.heroes_count.update(i as int, count + 1));
        } else {
            self.alerts.push((now, Alert::InsufficientMoney));
        }
    }

    fn sell(&mut self, i: usize, now: Millis)
        requires
            i < HERO_COUNT,
            counts_within(old(self)@.heroes_count, COUNT_LIMIT + 1),
            0 <= old(self)@.money <= i64::MAX - SALE_LIMIT,
        ensures
            final(self)@ == sell_one(old(self)@, i as int, now),
    {
        let hero = Hero::list()[i];
        let count = self.heroes_count[i];
        proof {
            lemma_price_bound(count as int, i as int);
        }
        if count > 0 {
            self.money = self.money + (count + 1) * hero.base_price() * 100;
            self.heroes_count.set(i, count - 1);
            assert(self@.heroes_count =~= old(self)@.heroes_count.update(i as int, count - 1));
        } else {
            self.alerts.push((now, Alert::CannotSell));
        }
    }

    fn check_end(&mut self)
        requires
            old(self)@.money >= 0,
            old(self)@.dirtiness >= 0,
        ensures
            final(self)@ == end_checks(old(self)@),
    {
        if self.money / 100 >= self.target_savings && self.act
            != Act::ContinuePlayingAfterWinning {
            self.act = Act::GameWon;
        }
        if self.dirtiness / 100 >= self.max_dirtiness && self.act != Act::GameWon {
            self.act = Act::GameOver;
        }
    }

    /// Replaces the whole world with a fresh one whose clock starts at `now`.
    pub fn restart(&mut self, now: Millis)
        ensures
            final(self)@ == fresh(now),
    {
        *self = World::new(now);
    }

    /// Whether the counters leave room for one more update.
    pub fn has_headroom(&self) -> (r: bool)
        requires
            self@.wf(),
        ensures
            r == self@.has_headroom(),
    {
        let mut i: usize = 0;
        while i < HERO_COUNT
            invariant
                i <= HERO_COUNT,
                self@.wf(),
                forall|j: int| 0 <= j < i ==> #[trigger] self@.heroes_count[j] <= COUNT_LIMIT,
            decreases HERO_COUNT - i,
        {
            if self.heroes_count[i] > COUNT_LIMIT {
                assert(self@.heroes_count[i as int] > COUNT_LIMIT);
                return false;
            }
            i = i + 1;
        }
        self.frame < i64::MAX && self.money <= MONEY_LIMIT && self.total_money <= MONEY_LIMIT
    }

    /// Price, in whole units, of the next unit of `hero`.
    pub fn price(&self, hero: &Hero) -> (r: Units)
        requires
            self@.wf(),
        ensures
            r == self@.price(index_of(*hero)),
    {
        let i = hero.index();
        let count = self.heroes_count[i];
        proof {
            assert(count == self@.heroes_count[i as int]);
            lemma_price_bound(count as int, i as int);
        }
        (count + 1) * hero.base_price()
    }

    /// Owned count of `hero`.
    pub fn hero_count(&self, hero: &Hero) -> (r: i64)
        requires
            self@.wf(),
        ensures
            r == self@.heroes_count[index_of(*hero)],
    {
        self.heroes_count[hero.index()]
    }

    /// The active alerts with the time each was raised, oldest first.
    pub fn alerts(&self) -> (r: &Vec<(Millis, Alert)>)
        ensures
            r@ == self@.alerts,
    {
        &self.alerts
    }

    pub fn frame(&self) -> (r: i64)
        ensures
            r == self@.frame,
    {
        self.frame
    }

    /// Milliseconds between the last two ticks.
    pub fn time_since_last_frame(&self) -> (r: Millis)
        ensures
            r == self@.time_since_last_frame,
    {
        self.time_since_last_frame
    }

    /// Money in hundredths.
    pub fn money(&self) -> (r: Cents)
        ensures
            r == self@.money,
    {
        self.money
    }

    /// Dirtiness in hundredths.
    pub fn dirtiness(&self) -> (r: Cents)
        ensures
            r == self@.dirtiness,
    {
        self.dirtiness
    }

    pub fn money_euros(&self) -> (r: Units)
        requires
            self@.wf(),
        ensures
            r == self@.money / 100,
    {
        self.money / 100
    }

    pub fn total_money_euros(&self) -> (r: Units)
        requires
            self@.wf(),
        ensures
            r == self@.total_money / 100,
    {
        self.total_money / 100
    }

    pub fn dirtiness_units(&self) -> (r: Units)
        requires
            self@.wf(),
        ensures
            r == self@.dirtiness / 100,
    {
        self.dirtiness / 100
    }

    pub fn max_dirtiness_units(&self) -> (r: Units)
        ensures
            r == self@.max_dirtiness,
    {
        self.max_dirtiness
    }

    pub fn stage(&self) -> (r: Act)
        ensures
            r == self@.act,
    {
        self.act
    }

    /// Lower end of the range of a gauge, in percent; the gauge is not in use.
    pub fn min_valid_percentage(&self) -> (r: i64)
        ensures
            r == 0,
    {
        0
    }

    /// Upper end of the range of a gauge, in percent; the gauge is not in use.
    pub fn max_valid_percentage(&self) -> (r: i64)
        ensures
            r == 0,
    {
        0
    }

    /// Sets the savings, in whole units, that win the game.
    pub fn set_target_savings(&mut self, new_target_savings: Units)
        ensures
            final(self)@ == (WorldModel { target_savings: new_target_savings as int, ..old(self)@ }),
    {
        self.target_savings = new_target_savings;
    }
}

/// Total paid for the first `n` units of a kind whose base price is one unit:
/// `1 + 2 + ... + n`.
pub fn accumulate_price(n: i64) -> (r: i64)
    requires
        0 <= n <= 3_000_000_000,
    ensures
        2 * r == (1 + n) * n,
{
    if n % 2 == 0 {
        let half = n / 2;
        assert(2 * (half * (1 + n)) == (1 + n) * n) by (nonlinear_arith)
            requires
                n == 2 * half,
        ;
        assert(0 <= half * (1 + n) <= 1_500_000_000 * 3_000_000_001) by (nonlinear_arith)
            requires
                0 <= half <= 1_500_000_000,
                0 <= n <= 3_000_000_000,
        ;
        half * (1 + n)
    } else {
        let half = (1 + n) / 2;
        assert(2 * (half * n) == (1 + n) * n) by (nonlinear_arith)
            requires
                1 + n == 2 * half,
        ;
        assert(0 <= half * n <= 1_500_000_001 * 3_000_000_000) by (nonlinear_arith)
            requires
                0 <= half <= 1_500_000_001,
                0 <= n <= 3_000_000_000,
        ;
        half * n
    }
}

/// Converts whole units into hundredths.
pub fn to_cents(unit: Units) -> (r: Cents)
    requires
        -92233720368547758 <= unit <= 92233720368547758,
    ensures
        r == unit * 100,
{
    unit * 100
}

} // verus!
