use shop_menu::{
    setup_shop, GameState, InteractionState, PlayerStats, Shop, ShopPlugin, Tint, UpgradeType,
};

const DAMAGE: usize = 0;
const SPEED: usize = 1;

fn shop_with_coins(coins: u32) -> Shop {
    let mut shop = Shop::new(PlayerStats::new(coins, 100, 10));
    setup_shop(&mut shop);
    shop
}

fn text(label: &Option<String>) -> &str {
    label.as_deref().expect("the label is set up")
}

fn damage(shop: &Shop) -> f32 {
    shop.stats().damage_tenths() as f32 / 10.0
}

fn speed(shop: &Shop) -> f32 {
    shop.stats().speed_tenths() as f32 / 10.0
}

#[test]
fn affordable_damage_purchase_pays_and_applies() {
    let mut shop = ShopPlugin.build();
    assert_eq!(shop.stats().coins(), 100);
    assert!(shop.set_interaction(DAMAGE, InteractionState::Pressed));
    shop.run_frame(GameState::Playing, true);
    assert_eq!(shop.stats().coins(), 50);
    assert_eq!(damage(&shop), 15.0);
    assert_eq!(speed(&shop), 1.0);
    assert_eq!(text(shop.status_label()), "Purchase Successful");
    assert_eq!(shop.button(DAMAGE).unwrap().tint(), Tint::Purchased);
    assert_eq!(shop.pending(), 0);
}

#[test]
fn unaffordable_speed_purchase_is_declined() {
    let mut shop = shop_with_coins(20);
    shop.set_interaction(SPEED, InteractionState::Pressed);
    shop.run_frame(GameState::Playing, true);
    assert_eq!(shop.stats().coins(), 20);
    assert_eq!(shop.stats().speed_tenths(), 10);
    assert_eq!(speed(&shop), 1.0);
    assert_eq!(damage(&shop), 10.0);
    assert_eq!(text(shop.status_label()), "Not enough coins!");
    assert_eq!(shop.button(SPEED).unwrap().tint(), Tint::Pressed);
    assert_eq!(shop.pending(), 0);
}

#[test]
fn sustained_press_pays_once() {
    let mut shop = ShopPlugin.build();
    let held = vec![InteractionState::Pressed, InteractionState::Untouched];
    shop.observe(&held);
    shop.run_frame(GameState::Playing, true);
    shop.observe(&held);
    shop.run_frame(GameState::Playing, false);
    shop.observe(&held);
    shop.run_frame(GameState::Playing, false);
    assert_eq!(shop.stats().coins(), 50);
    assert_eq!(damage(&shop), 15.0);
    assert_eq!(shop.stats().damage_tenths(), 150);
    assert_eq!(shop.stats().speed_tenths(), 10);
}

#[test]
fn sustained_press_pays_once_even_if_clicked_again() {
    let mut shop = ShopPlugin.build();
    let held = vec![InteractionState::Pressed, InteractionState::Untouched];
    for _ in 0..5 {
        shop.observe(&held);
        shop.run_frame(GameState::Playing, true);
    }
    assert_eq!(shop.stats().coins(), 50);
    assert_eq!(shop.stats().damage_tenths(), 150);
}

#[test]
fn both_purchases_in_one_frame_apply_once_each() {
    let mut shop = ShopPlugin.build();
    shop.observe(&vec![InteractionState::Pressed, InteractionState::Pressed]);
    shop.run_frame(GameState::Playing, true);
    assert_eq!(shop.stats().coins(), 20);
    assert_eq!(damage(&shop), 15.0);
    assert_eq!(speed(&shop), 1.2);
    assert_eq!(shop.stats().damage_tenths(), 150);
    assert_eq!(shop.stats().speed_tenths(), 12);
    assert_eq!(text(shop.damage_label()), "Damage: 15");
    assert_eq!(text(shop.speed_label()), "Speed: 1.2");
    assert_eq!(text(shop.coins_label()), "Coins: 20");
}

#[test]
fn press_without_click_edge_only_restyles() {
    let mut shop = ShopPlugin.build();
    shop.set_interaction(DAMAGE, InteractionState::Pressed);
    shop.run_frame(GameState::Playing, false);
    assert_eq!(shop.stats().coins(), 100);
    assert_eq!(shop.stats().damage_tenths(), 100);
    assert_eq!(shop.button(DAMAGE).unwrap().tint(), Tint::Pressed);
    assert_eq!(text(shop.status_label()), "Hover State: None");
}

#[test]
fn click_edge_after_the_press_was_seen_buys_nothing() {
    let mut shop = ShopPlugin.build();
    shop.set_interaction(DAMAGE, InteractionState::Pressed);
    shop.run_frame(GameState::Playing, false);
    shop.run_frame(GameState::Playing, true);
    assert_eq!(shop.stats().coins(), 100);
    assert_eq!(shop.stats().damage_tenths(), 100);
}

#[test]
fn click_edge_without_a_press_buys_nothing() {
    let mut shop = ShopPlugin.build();
    shop.set_interaction(DAMAGE, InteractionState::Hovered);
    shop.run_frame(GameState::Playing, true);
    assert_eq!(shop.stats().coins(), 100);
    assert_eq!(shop.button(DAMAGE).unwrap().tint(), Tint::Hover);
    assert_eq!(shop.button(SPEED).unwrap().tint(), Tint::Idle);
}

#[test]
fn releasing_and_pressing_again_buys_again() {
    let mut shop = ShopPlugin.build();
    shop.set_interaction(SPEED, InteractionState::Pressed);
    shop.run_frame(GameState::Playing, true);
    shop.set_interaction(SPEED, InteractionState::Untouched);
    shop.run_frame(GameState::Playing, false);
    assert_eq!(shop.button(SPEED).unwrap().tint(), Tint::Idle);
    shop.set_interaction(SPEED, InteractionState::Pressed);
    shop.run_frame(GameState::Playing, true);
    assert_eq!(shop.stats().coins(), 40);
    assert_eq!(shop.stats().speed_tenths(), 14);
    assert_eq!(text(shop.speed_label()), "Speed: 1.4");
}

#[test]
fn coins_run_out_and_never_go_below_zero() {
    let mut shop = ShopPlugin.build();
    let mut last: u32 = shop.stats().coins();
    for round in 0..6 {
        shop.set_interaction(DAMAGE, InteractionState::Pressed);
        shop.run_frame(GameState::Playing, true);
        shop.set_interaction(DAMAGE, InteractionState::Untouched);
        shop.run_frame(GameState::Playing, false);
        assert!(shop.stats().coins() <= last, "round {}", round);
        last = shop.stats().coins();
    }
    assert_eq!(shop.stats().coins(), 0);
    assert_eq!(shop.stats().damage_tenths(), 200);
    assert_eq!(text(shop.status_label()), "Not enough coins!");
}

#[test]
fn purchase_at_exactly_the_cost_leaves_no_coins() {
    let mut shop = shop_with_coins(30);
    shop.set_interaction(SPEED, InteractionState::Pressed);
    shop.run_frame(GameState::Playing, true);
    assert_eq!(shop.stats().coins(), 0);
    assert_eq!(shop.stats().speed_tenths(), 12);
    assert_eq!(text(shop.status_label()), "Purchase Successful");
}

#[test]
fn one_coin_short_is_declined() {
    let mut shop = shop_with_coins(49);
    shop.set_interaction(DAMAGE, InteractionState::Pressed);
    shop.run_frame(GameState::Playing, true);
    assert_eq!(shop.stats().coins(), 49);
    assert_eq!(shop.stats().damage_tenths(), 100);
    assert_eq!(text(shop.status_label()), "Not enough coins!");
}

#[test]
fn second_button_sees_the_coins_left_by_the_first() {
    let mut shop = shop_with_coins(60);
    shop.observe(&vec![InteractionState::Pressed, InteractionState::Pressed]);
    shop.run_frame(GameState::Playing, true);
    assert_eq!(shop.stats().coins(), 10);
    assert_eq!(shop.stats().damage_tenths(), 150);
    assert_eq!(shop.stats().speed_tenths(), 10);
    assert_eq!(shop.button(DAMAGE).unwrap().tint(), Tint::Purchased);
    assert_eq!(shop.button(SPEED).unwrap().tint(), Tint::Pressed);
    assert_eq!(text(shop.status_label()), "Not enough coins!");
}

#[test]
fn opening_shop_matches_the_catalog() {
    let shop = ShopPlugin.build();
    assert_eq!(shop.button_count(), 2);
    let damage_button = shop.button(DAMAGE).unwrap();
    assert_eq!(damage_button.upgrade_type(), UpgradeType::Damage);
    assert_eq!(damage_button.cost(), 50);
    assert_eq!(damage_button.interaction(), InteractionState::Untouched);
    assert_eq!(damage_button.tint(), Tint::Idle);
    let speed_button = shop.button(SPEED).unwrap();
    assert_eq!(speed_button.upgrade_type(), UpgradeType::Speed);
    assert_eq!(speed_button.cost(), 30);
    assert!(shop.button(2).is_none());
    assert_eq!(text(shop.coins_label()), "Coins: 100");
    assert_eq!(text(shop.damage_label()), "Damage: 10");
    assert_eq!(text(shop.speed_label()), "Speed: 1");
    assert_eq!(text(shop.status_label()), "Hover State: None");
    assert_eq!(shop.pending(), 0);
}
