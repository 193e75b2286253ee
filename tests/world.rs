use double_clicker::screen::GuiActions;
use double_clicker::world::acts::Act::{Act1, ContinuePlayingAfterWinning, GameOver, GameWon};
use double_clicker::world::alerts::Alert;
use double_clicker::world::heroes::Hero;
use double_clicker::world::{accumulate_price, to_cents, World};

const FRAME_MILLIS: u64 = 16;

fn at(frame: i64) -> u64 {
    frame as u64 * FRAME_MILLIS
}

fn press(dirty: bool, clean: bool) -> GuiActions {
    GuiActions {
        dirty_pressed: dirty,
        clean_pressed: clean,
        ..GuiActions::default()
    }
}

fn flags(heroes: &[Hero]) -> Vec<bool> {
    let mut v = vec![false; 6];
    for h in heroes {
        v[h.index()] = true;
    }
    v
}

fn trade(bought: &[Hero], sold: &[Hero]) -> GuiActions {
    GuiActions {
        heroes_bought: flags(bought),
        heroes_sold: flags(sold),
        ..GuiActions::default()
    }
}

fn kinds(world: &World) -> Vec<Alert> {
    world.alerts().iter().map(|(_, kind)| *kind).collect()
}

#[test]
fn test_invested() {
    let actual = accumulate_price(5);
    let expected = 1 + 2 + 3 + 4 + 5;
    assert_eq!(actual as f32, expected as f32);
}

#[test]
fn test_restart_game_over() {
    let mut world = World::new(0);
    assert_eq!(world.stage(), Act1);
    for i in 0..world.max_dirtiness_units() {
        world.update(
            GuiActions {
                dirty_pressed: true,
                ..GuiActions::default()
            },
            at(i + 1),
        );
    }
    assert_eq!(world.stage(), GameOver);

    world.update(
        GuiActions {
            restart: true,
            ..GuiActions::default()
        },
        at(1000),
    );
    assert_eq!(world.stage(), Act1);
}

#[test]
fn test_continue_after_winning() {
    let mut world = World::new(0);
    let target_savings = 10;
    world.set_target_savings(target_savings);
    assert_eq!(world.stage(), Act1);
    for i in 0..target_savings {
        world.update(
            GuiActions {
                dirty_pressed: true,
                clean_pressed: true,
                ..GuiActions::default()
            },
            at(i + 1),
        );
    }

    assert_eq!(world.stage(), GameWon);

    world.update(
        GuiActions {
            continue_playing: true,
            ..GuiActions::default()
        },
        at(100),
    );

    assert_eq!(world.stage(), ContinuePlayingAfterWinning);
}

#[test]
fn test_win_and_lose_and_restart() {
    let mut world = World::new(0);
    assert_eq!(world.stage(), Act1);

    let target_savings = 10;
    world.set_target_savings(target_savings);
    for i in 0..target_savings {
        world.update(
            GuiActions {
                dirty_pressed: true,
                clean_pressed: true,
                ..GuiActions::default()
            },
            at(i + 1),
        );
    }
    assert_eq!(world.stage(), GameWon);

    world.update(
        GuiActions {
            continue_playing: true,
            ..GuiActions::default()
        },
        at(20),
    );
    assert_eq!(world.stage(), ContinuePlayingAfterWinning);

    for i in 0..world.max_dirtiness_units() {
        world.update(
            GuiActions {
                dirty_pressed: true,
                ..GuiActions::default()
            },
            at(i + 21),
        );
    }
    assert_eq!(world.stage(), GameOver);

    world.update(
        GuiActions {
            restart: true,
            ..GuiActions::default()
        },
        at(500),
    );
    assert_eq!(world.stage(), Act1);
}

#[test]
fn fresh_world_defaults() {
    let world = World::new(42);
    assert_eq!(world.stage(), Act1);
    assert_eq!(world.dirtiness(), 500);
    assert_eq!(world.dirtiness_units(), 5);
    assert_eq!(world.max_dirtiness_units(), 100);
    assert_eq!(world.money(), 0);
    assert_eq!(world.total_money_euros(), 0);
    assert_eq!(world.frame(), 0);
    assert_eq!(world.time_since_last_frame(), 0);
    assert!(world.alerts().is_empty());
    for hero in Hero::list() {
        assert_eq!(world.hero_count(hero), 0);
        assert_eq!(world.price(hero), hero.base_price());
    }
    assert_eq!(world.min_valid_percentage(), 0);
    assert_eq!(world.max_valid_percentage(), 0);
}

#[test]
fn cleaning_five_times_then_cannot_clean() {
    let mut world = World::new(0);
    for i in 0..5 {
        world.update(press(false, true), at(i + 1));
    }
    assert_eq!(world.dirtiness(), 0);
    assert_eq!(world.money(), 500);
    assert_eq!(world.money_euros(), 5);
    assert!(world.alerts().is_empty());

    world.update(press(false, true), at(6));
    assert_eq!(world.dirtiness(), 0);
    assert_eq!(world.money(), 500);
    assert_eq!(kinds(&world), vec![Alert::CannotClean]);
}

#[test]
fn lifetime_earnings_grow_by_a_tenth() {
    let mut world = World::new(0);
    world.set_target_savings(1_000_000);
    for i in 0..20 {
        world.update(press(true, true), at(i + 1));
    }
    assert_eq!(world.money_euros(), 20);
    assert_eq!(world.total_money_euros(), 2);
}

#[test]
fn dirty_and_clean_until_won_then_continue() {
    let mut world = World::new(0);
    world.set_target_savings(10);
    let mut frame = 0;
    while world.money_euros() < 10 {
        frame += 1;
        world.update(press(true, true), at(frame));
    }
    assert_eq!(frame, 10);
    assert_eq!(world.stage(), GameWon);

    let money = world.money();
    world.update(press(true, true), at(frame + 1));
    assert_eq!(world.money(), money);
    assert_eq!(world.stage(), GameWon);

    world.update(
        GuiActions {
            continue_playing: true,
            ..GuiActions::default()
        },
        at(frame + 2),
    );
    assert_eq!(world.stage(), ContinuePlayingAfterWinning);

    world.update(press(true, true), at(frame + 3));
    assert_eq!(world.money_euros(), 11);
    assert_eq!(world.stage(), ContinuePlayingAfterWinning);
}

#[test]
fn dirty_until_lost_then_frozen_until_restart() {
    let mut world = World::new(0);
    let mut frame = 0;
    while world.dirtiness_units() < world.max_dirtiness_units() {
        frame += 1;
        world.update(press(true, false), at(frame));
    }
    assert_eq!(frame, 95);
    assert_eq!(world.stage(), GameOver);
    assert_eq!(world.dirtiness(), 10_000);

    let frozen_frame = world.frame();
    for i in 1..10 {
        let mut actions = trade(Hero::list(), Hero::list());
        actions.dirty_pressed = true;
        actions.clean_pressed = true;
        actions.continue_playing = true;
        world.update(actions, at(frame + i));
        assert_eq!(world.stage(), GameOver);
        assert_eq!(world.dirtiness(), 10_000);
        assert_eq!(world.money(), 0);
        assert_eq!(world.frame(), frozen_frame);
        for hero in Hero::list() {
            assert_eq!(world.hero_count(hero), 0);
        }
    }

    world.update(
        GuiActions {
            restart: true,
            dirty_pressed: true,
            ..GuiActions::default()
        },
        at(1000),
    );
    assert_eq!(world.stage(), Act1);
    assert_eq!(world.dirtiness(), 500);
    assert_eq!(world.money(), 0);
    assert_eq!(world.frame(), 0);
    assert!(world.alerts().is_empty());
}

#[test]
fn win_takes_priority_over_loss() {
    let mut world = World::new(0);
    world.set_target_savings(1_000_000);
    for i in 0..94 {
        world.update(press(true, false), at(i + 1));
    }
    assert_eq!(world.dirtiness_units(), 99);
    assert_eq!(world.stage(), Act1);
    world.set_target_savings(0);
    world.update(press(true, false), at(95));
    assert_eq!(world.dirtiness_units(), 100);
    assert_eq!(world.stage(), GameWon);
}

#[test]
fn loss_after_continuing() {
    let mut world = World::new(0);
    world.set_target_savings(0);
    world.update(GuiActions::default(), at(1));
    assert_eq!(world.stage(), GameWon);
    world.update(
        GuiActions {
            continue_playing: true,
            ..GuiActions::default()
        },
        at(2),
    );
    for i in 0..95 {
        world.update(press(true, false), at(i + 3));
    }
    assert_eq!(world.stage(), GameOver);
}

#[test]
fn idle_update_on_clean_world_keeps_money_and_dirtiness() {
    let mut world = World::new(0);
    world.set_target_savings(1_000_000);
    for i in 0..5 {
        world.update(press(false, true), at(i + 1));
    }
    let money = world.money();
    let frame = world.frame();
    let keep_going = world.update(GuiActions::default(), at(200));
    assert!(keep_going);
    assert_eq!(world.money(), money);
    assert_eq!(world.dirtiness(), 0);
    assert_eq!(world.frame(), frame + 1);
    assert_eq!(world.time_since_last_frame(), at(200) - at(5));
}

#[test]
fn quit_is_reported_back() {
    let mut world = World::new(0);
    let keep_going = world.update(
        GuiActions {
            quit: true,
            ..GuiActions::default()
        },
        at(1),
    );
    assert!(!keep_going);
    assert_eq!(world.frame(), 1);
}

/// Earns `units` whole units by pressing dirty and clean together, then cleans up.
fn rich_clean_world(units: i64) -> (World, i64) {
    let mut world = World::new(0);
    world.set_target_savings(1_000_000);
    let mut frame = 0;
    for _ in 0..units {
        frame += 1;
        world.update(press(true, true), at(frame));
    }
    for _ in 0..5 {
        frame += 1;
        world.update(press(false, true), at(frame));
    }
    assert_eq!(world.dirtiness(), 0);
    assert_eq!(world.money_euros(), units + 5);
    (world, frame)
}

#[test]
fn buying_then_selling_in_one_batch_restores_the_roster() {
    let (mut world, frame) = rich_clean_world(20);
    let money = world.money();
    world.update(trade(&[Hero::Villain1], &[Hero::Villain1]), at(frame + 1));
    assert_eq!(world.hero_count(&Hero::Villain1), 0);
    // paid 12 at a count of 0, refunded 24 at a count of 1
    assert_eq!(world.money(), money + to_cents(12));
    assert!(world.alerts().is_empty());
}

#[test]
fn price_grows_by_base_price_after_each_purchase() {
    let (mut world, mut frame) = rich_clean_world(40);
    assert_eq!(world.price(&Hero::Villain1), 12);
    frame += 1;
    world.update(trade(&[Hero::Villain1], &[]), at(frame));
    assert_eq!(world.hero_count(&Hero::Villain1), 1);
    assert_eq!(world.money(), to_cents(45 - 12));
    assert_eq!(world.price(&Hero::Villain1), 24);
    assert_eq!(world.price(&Hero::Hero1), 5);

    frame += 1;
    world.update(trade(&[], &[Hero::Villain1]), at(frame));
    assert_eq!(world.hero_count(&Hero::Villain1), 0);
    // passive dirtying of the unit before it was sold: 2 hundredths, no cleaners
    assert_eq!(world.dirtiness(), 2);
    // the refund is the price at the count before the sale
    assert_eq!(world.money(), to_cents(45 - 12 + 24));
}

#[test]
fn insufficient_money_and_cannot_sell_alerts() {
    let mut world = World::new(0);
    world.update(trade(&[Hero::Hero1], &[Hero::Villain2]), at(1));
    assert_eq!(kinds(&world), vec![Alert::InsufficientMoney, Alert::CannotSell]);
    assert_eq!(world.hero_count(&Hero::Hero1), 0);
    assert_eq!(world.money(), 0);
}

#[test]
fn alerts_expire_after_persistence_window() {
    let mut world = World::new(0);
    world.update(trade(&[], &[Hero::Hero1]), 1000);
    assert_eq!(kinds(&world), vec![Alert::CannotSell]);
    world.update(GuiActions::default(), 6000);
    assert_eq!(kinds(&world), vec![Alert::CannotSell]);
    world.update(GuiActions::default(), 6001);
    assert!(world.alerts().is_empty());
}

#[test]
fn roster_production_in_one_tick() {
    let (mut world, mut frame) = rich_clean_world(600);
    let mut step = |world: &mut World, actions: GuiActions| {
        frame += 1;
        world.update(actions, at(frame));
    };
    step(&mut world, trade(&[Hero::Hero1, Hero::Hero2], &[]));
    step(&mut world, trade(&[Hero::Hero1], &[]));
    step(&mut world, trade(&[Hero::Villain1], &[]));
    step(&mut world, trade(&[Hero::Villain1], &[]));
    step(&mut world, trade(&[Hero::Villain1], &[Hero::Hero2]));
    assert_eq!(world.hero_count(&Hero::Hero1), 2);
    assert_eq!(world.hero_count(&Hero::Villain1), 3);
    assert_eq!(world.hero_count(&Hero::Hero2), 0);
    assert_eq!(world.dirtiness(), 0);

    let money = world.money();
    step(&mut world, GuiActions::default());
    assert_eq!(world.dirtiness(), 4);
    assert_eq!(world.money(), money + 2);
    assert!(!kinds(&world).contains(&Alert::InefficientCleaners));
}

#[test]
fn inefficient_cleaners_alert_lasts_one_tick() {
    let (mut world, frame) = rich_clean_world(10);
    world.update(trade(&[Hero::Hero1], &[]), at(frame + 1));
    assert!(world.alerts().is_empty());
    world.update(GuiActions::default(), at(frame + 2));
    assert_eq!(kinds(&world), vec![Alert::InefficientCleaners]);
    assert_eq!(world.money(), to_cents(10));
    world.update(GuiActions::default(), at(frame + 3));
    assert_eq!(kinds(&world), vec![Alert::InefficientCleaners]);
    world.update(press(true, false), at(frame + 4));
    assert!(world.alerts().is_empty());
    assert_eq!(world.dirtiness(), 99);
    assert_eq!(world.money(), to_cents(10) + 1);
}

#[test]
fn dirtiness_is_capped() {
    let mut world = World::new(0);
    world.set_target_savings(1_000_000);
    for i in 0..200 {
        world.update(press(true, false), at(i + 1));
    }
    assert_eq!(world.dirtiness(), 10_000);
    assert!(world.dirtiness_units() <= world.max_dirtiness_units());
}

#[test]
fn restart_method_gives_fresh_world() {
    let (mut world, _) = rich_clean_world(10);
    world.restart(77);
    assert_eq!(world.money(), 0);
    assert_eq!(world.dirtiness(), 500);
    assert_eq!(world.stage(), Act1);
    assert!(world.has_headroom());
}

#[test]
fn to_cents_scales_by_hundred() {
    assert_eq!(to_cents(7), 700);
    assert_eq!(to_cents(-3), -300);
    assert_eq!(accumulate_price(0), 0);
    assert_eq!(accumulate_price(100), 5050);
}
