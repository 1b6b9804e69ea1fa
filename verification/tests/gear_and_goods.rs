use terminal_arena::equipment::{Equipment, Hand};
use terminal_arena::game::{EquipError, Game, PurchaseError};
use terminal_arena::inventory::Inventory;
use terminal_arena::items::{Armor, ArmorType, HandItem, HandItemType, Item, Shield, Weapon};
use terminal_arena::player::Player;
use terminal_arena::store::Store;

fn greatsword() -> Weapon {
    Weapon::new("Greatsword".to_string(), HandItemType::Double, 16, 25, 40, 1350)
}

fn dagger() -> Weapon {
    Weapon::new("Rusty Dagger".to_string(), HandItemType::Single, 2, 5, 5, 5)
}

fn buckler() -> Shield {
    Shield::new("Buckler".to_string(), HandItemType::Single, 10, 5, 80, 10)
}

#[test]
fn starting_equipment_is_one_rusty_sword() {
    let e = Equipment::new();
    match &e.right_hand {
        Hand::Single(HandItem::Weapon(w)) => {
            assert_eq!(w.name, "Basic Rusty Sword");
            assert_eq!(w.item_type, HandItemType::Single);
            assert_eq!(w.min_damage, 1);
            assert_eq!(w.max_damage, 3);
        }
        other => panic!("unexpected right hand: {other:?}"),
    }
    assert_eq!(e.left_hand, Hand::Empty);
    assert!(e.armor.helmet.is_none());
    assert!(e.armor.breastplate.is_none());
    assert!(e.armor.boots.is_none());
}

#[test]
fn single_handed_weapon_leaves_the_left_hand_alone() {
    let mut e = Equipment::new();
    e.equip_shield(buckler());
    e.equip_weapon(dagger());
    assert_eq!(e.right_hand, Hand::Single(HandItem::Weapon(dagger())));
    assert_eq!(e.left_hand, Hand::Single(HandItem::Shield(buckler())));
}

#[test]
fn double_handed_weapon_locks_the_left_hand() {
    let mut e = Equipment::new();
    e.equip_shield(buckler());
    e.equip_weapon(greatsword());
    assert_eq!(e.right_hand, Hand::Single(HandItem::Weapon(greatsword())));
    assert_eq!(e.left_hand, Hand::Busy, "the shield is discarded, not returned");
}

#[test]
fn shield_after_double_handed_weapon_frees_the_right_hand() {
    let mut e = Equipment::new();
    e.equip_weapon(greatsword());
    assert_eq!(e.left_hand, Hand::Busy);
    e.equip_shield(buckler());
    assert_eq!(e.right_hand, Hand::Empty, "the two-handed weapon is gone");
    assert_eq!(e.left_hand, Hand::Single(HandItem::Shield(buckler())));
}

#[test]
fn armor_routes_by_body_slot_and_overwrites() {
    let mut e = Equipment::new();
    let cap = Armor::new("Leather Cap".to_string(), ArmorType::Helmet, 2, 1, 20, 2);
    let plate = Armor::new("Iron Plate".to_string(), ArmorType::BreastPlate, 8, 12, 300, 40);
    let greaves = Armor::new("Greaves".to_string(), ArmorType::Legs, 4, 6, 120, 15);
    e.equip_armor(cap.clone());
    e.equip_armor(plate.clone());
    e.equip_armor(greaves.clone());
    assert_eq!(e.armor.helmet, Some(cap));
    assert_eq!(e.armor.breastplate, Some(plate));
    assert_eq!(e.armor.boots, Some(greaves.clone()));
    let better = Armor::new("Steel Greaves".to_string(), ArmorType::Legs, 7, 14, 400, 20);
    e.equip_armor(better.clone());
    assert_eq!(e.armor.boots, Some(better), "the old piece is discarded");
}

#[test]
fn starting_inventory_contents() {
    let inv = Inventory::new();
    assert_eq!(inv.hand_items.len(), 3);
    match &inv.hand_items[0] {
        HandItem::Shield(s) => {
            assert_eq!(s.name, "Basic Shield");
            assert_eq!(s.req_strength, 10);
        }
        other => panic!("unexpected item: {other:?}"),
    }
    match &inv.hand_items[1] {
        HandItem::Shield(s) => assert_eq!(s.name, "Advanced Shield"),
        other => panic!("unexpected item: {other:?}"),
    }
    match &inv.hand_items[2] {
        HandItem::Weapon(w) => assert_eq!(w.name, "Advanced Rusty Sword"),
        other => panic!("unexpected item: {other:?}"),
    }
    assert_eq!(inv.armors.len(), 1);
    assert_eq!(inv.armors[0].name, "Basic Helmet");
    assert_eq!(inv.armors[0].armor_type, ArmorType::Helmet);
}

#[test]
fn add_item_routes_by_kind() {
    let mut inv = Inventory::new();
    inv.add_item(Item::Weapon(dagger()));
    assert_eq!(inv.hand_items.len(), 4);
    assert_eq!(inv.hand_items[3], HandItem::Weapon(dagger()));
    inv.add_item(Item::Shield(buckler()));
    assert_eq!(inv.hand_items.len(), 5);
    assert_eq!(inv.hand_items[4], HandItem::Shield(buckler()));
    let greaves = Armor::new("Greaves".to_string(), ArmorType::Legs, 4, 6, 120, 15);
    inv.add_item(Item::Armor(greaves.clone()));
    assert_eq!(inv.armors.len(), 2);
    assert_eq!(inv.armors[1], greaves);
}

#[test]
fn nth_weapon_and_shield_count_in_list_order() {
    let inv = Inventory::new();
    assert_eq!(inv.nth_weapon(0).unwrap().name, "Advanced Rusty Sword");
    assert!(inv.nth_weapon(1).is_none());
    assert_eq!(inv.nth_shield(0).unwrap().name, "Basic Shield");
    assert_eq!(inv.nth_shield(1).unwrap().name, "Advanced Shield");
    assert!(inv.nth_shield(2).is_none());
}

#[test]
fn store_opens_with_ten_weapons() {
    let s = Store::new();
    assert_eq!(s.hand_items.len(), 10);
    match &s.hand_items[0] {
        HandItem::Weapon(w) => {
            assert_eq!(w.name, "Rusty Dagger");
            assert_eq!(w.price, 5);
        }
        other => panic!("unexpected item: {other:?}"),
    }
    match &s.hand_items[9] {
        HandItem::Weapon(w) => {
            assert_eq!(w.name, "Mystic Staff");
            assert_eq!(w.price, 2000);
        }
        other => panic!("unexpected item: {other:?}"),
    }
}

#[test]
fn store_add_and_remove_shift_indices() {
    let mut s = Store::new();
    s.add_hand_item(HandItem::Shield(buckler()));
    assert_eq!(s.hand_items.len(), 11);
    assert_eq!(s.hand_items[10], HandItem::Shield(buckler()));
    s.remove_hand_item(0);
    assert_eq!(s.hand_items.len(), 10);
    match &s.hand_items[0] {
        HandItem::Weapon(w) => assert_eq!(w.name, "Wooden Club"),
        other => panic!("unexpected item: {other:?}"),
    }
}

#[test]
fn purchase_without_enough_money_changes_nothing() {
    let mut g = Game::new();
    g.player.money = 100;
    let r = g.buy_hand_item(1);  // Wooden Club, 200 coins
    assert_eq!(r, Err(PurchaseError::NotEnoughMoney));
    assert_eq!(g.player.money, 100);
    assert_eq!(g.store.hand_items.len(), 10);
    assert_eq!(g.player.inventory.hand_items.len(), 3);
}

#[test]
fn purchase_moves_exactly_one_item_and_debits_the_price() {
    let mut g = Game::new();
    g.player.money = 250;
    let r = g.buy_hand_item(1);  // Wooden Club, 200 coins
    assert_eq!(r, Ok(()));
    assert_eq!(g.player.money, 50);
    assert_eq!(g.store.hand_items.len(), 9);
    assert_eq!(g.player.inventory.hand_items.len(), 4);
    match &g.player.inventory.hand_items[3] {
        HandItem::Weapon(w) => assert_eq!(w.name, "Wooden Club"),
        other => panic!("unexpected item: {other:?}"),
    }
    match &g.store.hand_items[1] {
        HandItem::Weapon(w) => assert_eq!(w.name, "Short Sword"),
        other => panic!("unexpected item: {other:?}"),
    }
}

#[test]
fn purchase_at_exact_price_succeeds() {
    let mut g = Game::new();
    g.player.money = 5;
    assert_eq!(g.buy_hand_item(0), Ok(()));
    assert_eq!(g.player.money, 0);
}

#[test]
fn equipping_from_inventory_respects_strength() {
    let mut g = Game::new();
    // The spare sword needs strength 1; the fresh player has 5.
    assert_eq!(g.equip_weapon_from_inventory(0), Ok(()));
    match &g.player.equipment.right_hand {
        Hand::Single(HandItem::Weapon(w)) => assert_eq!(w.name, "Advanced Rusty Sword"),
        other => panic!("unexpected right hand: {other:?}"),
    }
    assert_eq!(g.player.inventory.hand_items.len(), 3, "the weapon is copied, not moved");

    // Both starting shields need more strength than 5.
    assert_eq!(g.equip_shield_from_inventory(0), Err(EquipError::StrengthTooLow));
    assert_eq!(g.equip_shield_from_inventory(1), Err(EquipError::StrengthTooLow));
    g.player.strength = 10;
    assert_eq!(g.equip_shield_from_inventory(0), Ok(()));
    match &g.player.equipment.left_hand {
        Hand::Single(HandItem::Shield(s)) => assert_eq!(s.name, "Basic Shield"),
        other => panic!("unexpected left hand: {other:?}"),
    }

    assert_eq!(g.equip_weapon_from_inventory(1), Err(EquipError::NoSuchItem));
    assert_eq!(g.equip_shield_from_inventory(2), Err(EquipError::NoSuchItem));
}

#[test]
fn equipping_armor_from_inventory_respects_strength() {
    let mut g = Game::new();
    // The starting helmet needs strength 10; the fresh player has 5.
    assert_eq!(g.equip_armor_from_inventory(0), Err(EquipError::StrengthTooLow));
    assert!(g.player.equipment.armor.helmet.is_none());
    g.player.strength = 10;
    assert_eq!(g.equip_armor_from_inventory(0), Ok(()));
    assert_eq!(g.player.equipment.armor.helmet.as_ref().unwrap().name, "Basic Helmet");
    assert_eq!(g.equip_armor_from_inventory(1), Err(EquipError::NoSuchItem));
}

#[test]
fn hand_item_price_and_required_strength() {
    let w = HandItem::Weapon(dagger());
    assert_eq!(w.price(), 5);
    assert_eq!(w.req_strength(), 5);
    let s = HandItem::Shield(buckler());
    assert_eq!(s.price(), 80);
    assert_eq!(s.req_strength(), 5);
}

#[test]
fn labels_for_display() {
    assert_eq!(HandItemType::Single.label(), "Single-Handed");
    assert_eq!(HandItemType::Double.label(), "Double-Handed");
    assert_eq!(ArmorType::Helmet.label(), "Helmet");
    assert_eq!(ArmorType::BreastPlate.label(), "BreastPlate");
    assert_eq!(ArmorType::Legs.label(), "Legs");
}

#[test]
fn health_bar_rounds_and_clamps() {
    let mut p = Player::new("Bar".to_string());
    assert_eq!(p.health_bar(), "Health: [██████████] 100/100");
    p.take_damage(50);
    assert_eq!(p.health_bar(), "Health: [█████░░░░░] 50/100");
    p.heal(5);
    assert_eq!(p.health_bar(), "Health: [██████░░░░] 55/100");
    p.take_damage(105);
    assert_eq!(p.health_bar(), "Health: [░░░░░░░░░░] -50/100");
    p.heal(51);
    assert_eq!(p.health_bar(), "Health: [░░░░░░░░░░] 1/100");
}

#[test]
fn healing_clamps_at_max_health() {
    let mut p = Player::new("Heals".to_string());
    p.take_damage(2);
    assert_eq!(p.health, 98);
    p.heal(5);
    assert_eq!(p.health, 100, "heal(5) at 98/100 gives 100, not 103");
    p.heal(5);
    assert_eq!(p.health, 100);
}

#[test]
fn decimal_rendering_is_exact() {
    let mut s = String::new();
    terminal_arena::decimal::push_decimal_u64(&mut s, 0);
    s.push(' ');
    terminal_arena::decimal::push_decimal_u64(&mut s, 1234567890);
    assert_eq!(s, "0 1234567890");
    let mut t = String::new();
    terminal_arena::decimal::push_decimal_i64(&mut t, -7);
    t.push(' ');
    terminal_arena::decimal::push_decimal_i64(&mut t, i64::MIN);
    assert_eq!(t, "-7 -9223372036854775808");
}
