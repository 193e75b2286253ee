use double_clicker::screen::lore::{
    act_1_lore, act_2_lore, act_3_lore, choose_pseudo_random, choose_text_lore, game_over_lore,
    game_won_lore,
};
use double_clicker::world::acts::Act;
use double_clicker::screen::textures::Texture;
use double_clicker::screen::translations::{get_translation, Language};
use double_clicker::screen::GuiActions;
use double_clicker::widgets::button::Interaction;
use double_clicker::world::alerts::Alert;
use double_clicker::world::heroes::Hero;

#[test]
fn catalog_order_and_indices() {
    let list = Hero::list();
    assert_eq!(
        list,
        &[Hero::Hero1, Hero::Villain1, Hero::Hero2, Hero::Villain2, Hero::Hero3, Hero::Villain3]
    );
    for (i, hero) in list.iter().enumerate() {
        assert_eq!(hero.index(), i);
    }
}

#[test]
fn catalog_rates_and_prices() {
    let prices: Vec<i64> = Hero::list().iter().map(|h| h.base_price()).collect();
    assert_eq!(prices, vec![5, 12, 500, 1000, 50000, 80000]);
    let clean: Vec<i64> = Hero::list().iter().map(|h| h.production_clean()).collect();
    assert_eq!(clean, vec![1, 0, 10, 0, 100, 0]);
    let dirty: Vec<i64> = Hero::list().iter().map(|h| h.production_dirty()).collect();
    assert_eq!(dirty, vec![0, 2, 0, 21, 0, 221]);
    for hero in Hero::list() {
        assert!((hero.production_clean() == 0) != (hero.production_dirty() == 0));
    }
}

#[test]
fn hero_textures() {
    assert_eq!(Hero::Hero1.texture_index(), Texture::Hero1);
    assert_eq!(Hero::Villain3.texture_index(), Texture::Villain3);
    assert_eq!(Hero::Villain2.texture_index().index(), 7);
    assert_eq!(Texture::BackgroundMargin.index(), 17);
}

#[test]
fn hero_texts_follow_language() {
    let es = get_translation(Language::Spanish);
    let en = get_translation(Language::English);
    assert_eq!(Hero::Hero1.name(&es), "Técnico Operario de Cepillo");
    assert_eq!(Hero::Hero1.name(&en), "Clean Carl");
    assert_eq!(Hero::Villain3.name(&en), "Dirt Lord");
    assert_eq!(
        Hero::Villain2.short_description(&en),
        "Completes 21 dirtying tasks per second"
    );
    assert_eq!(
        Hero::Hero3.long_description(&es),
        "Hace 100 tareas de limpieza por segundo"
    );
}

#[test]
fn alert_messages_follow_kind() {
    let en = get_translation(Language::English);
    assert_eq!(
        Alert::CannotClean.to_string(&en),
        "You can not clean is there is nothing dirty"
    );
    assert_eq!(
        Alert::InsufficientMoney.to_string(&en),
        "You don't have enough money to buy this"
    );
    let es = get_translation(Language::Spanish);
    assert_eq!(
        Alert::CannotSell.to_string(&es),
        "No puedes vender porque tienes 0 unidades"
    );
    assert_eq!(
        Alert::InefficientCleaners.to_string(&es),
        "Tienes limpiadores sin suficiente suciedad que limpiar"
    );
}

#[test]
fn translation_tables() {
    let es = get_translation(Language::Spanish);
    let en = get_translation(Language::English);
    assert_eq!(es.restart, "Reiniciar");
    assert_eq!(en.restart, "Restart");
    assert_eq!(en.dirts, "Dirtiness");
    assert_eq!(es.lore.game_over, &["Todo se acaba, excepto la suciedad."]);
    assert_eq!(en.lore.game_won, &["Against all odds, you got away with it."]);
}

#[test]
fn lore_lines() {
    let en = get_translation(Language::English);
    assert_eq!(act_1_lore(&en).len(), 4);
    assert_eq!(act_1_lore(&en)[1], "\"Fired? Me?\" - Malik");
    assert_eq!(act_2_lore(&en).len(), 5);
    assert_eq!(act_3_lore(&en).len(), 7);
    assert_eq!(act_3_lore(&en)[6], "Frase acto 3 - 7");
    assert_eq!(game_over_lore(), &["Todo se acaba, excepto la suciedad."]);
    assert_eq!(
        game_won_lore(),
        &["Contra todo pronóstico, te has salido con la tuya."]
    );
}

#[test]
fn interaction_queries() {
    assert!(Interaction::Clicked.is_clicked());
    assert!(!Interaction::Pressing.is_clicked());
    assert!(Interaction::Pressing.is_down());
    assert!(Interaction::Clicked.is_down());
    assert!(!Interaction::Hovered.is_down());
    assert!(Interaction::Hovered.is_hovered());
    assert!(!Interaction::Idle.is_hovered());
    assert!(Interaction::Hovered.is_hovered_or_clicked());
    assert!(Interaction::Clicked.is_hovered_or_clicked());
    assert!(!Interaction::Pressing.is_hovered_or_clicked());
    assert!(!Interaction::Idle.is_hovered_or_clicked());
}

#[test]
fn default_actions_do_nothing() {
    let a = GuiActions::default();
    assert!(a.should_continue());
    assert!(!a.clean_pressed && !a.dirty_pressed && !a.restart && !a.continue_playing);
    assert!(a.heroes_bought.is_empty() && a.heroes_sold.is_empty());
    let q = GuiActions {
        quit: true,
        ..GuiActions::default()
    };
    assert!(!q.should_continue());
}

#[test]
fn lore_line_changes_every_fifteen_seconds() {
    let en = get_translation(Language::English);
    assert_eq!(
        choose_text_lore(Act::Act1, 0, &en),
        "They are making your department redundant. You must do something."
    );
    assert_eq!(
        choose_text_lore(Act::Act1, 14_999, &en),
        "They are making your department redundant. You must do something."
    );
    assert_eq!(choose_text_lore(Act::Act1, 15_000, &en), "\"Fired? Me?\" - Malik");
    assert_eq!(
        choose_text_lore(Act::GameOver, 123_456, &en),
        "Everything is finite, except dirtiness."
    );
    assert_eq!(
        choose_text_lore(Act::ContinuePlayingAfterWinning, 0, &en),
        "Frase acto 3 - 7"
    );
}

#[test]
fn pseudo_random_choice_is_scrambled() {
    let items = [10, 11, 12, 13, 14, 15, 16];
    // block 7: 7 % 5 + 6 - 14 % 3 + 7 / 5 = 2 + 6 - 2 + 1 = 7
    assert_eq!(*choose_pseudo_random(&items, 7 * 15_000), 10);
    // block 3: 3 + 6 - 0 + 0 = 9
    assert_eq!(*choose_pseudo_random(&items, 3 * 15_000 + 1), 12);
}
