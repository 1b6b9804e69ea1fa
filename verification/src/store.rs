//! The store: the catalog of purchasable items.
//!
//! A purchase (see the career state machine) moves an item out of this
//! catalog by index; there is no restocking.

use vstd::prelude::*;

use crate::inventory::weapon_entry;
use crate::items::{Armor, HandItem, HandItemType, Weapon};

verus! {

/// Purchasable items, independent of any inventory.
#[derive(Debug, PartialEq, Eq)]
pub struct Store {
    pub hand_items: Vec<HandItem>,
    pub armor: Vec<Armor>,
}

/// The fixed opening catalog: ten weapons, no armor.
pub open spec fn spec_starting_store(s: Store) -> bool {
    &&& s.hand_items@.len() == 10
    &&& weapon_entry(s.hand_items@[0], "Rusty Dagger"@, HandItemType::Single, 2, 5, 5, 5)
    &&& weapon_entry(s.hand_items@[1], "Wooden Club"@, HandItemType::Single, 4, 8, 10, 200)
    &&& weapon_entry(s.hand_items@[2], "Short Sword"@, HandItemType::Single, 6, 10, 15, 350)
    &&& weapon_entry(s.hand_items@[3], "Battle Axe"@, HandItemType::Single, 8, 15, 20, 500)
    &&& weapon_entry(s.hand_items@[4], "War Hammer"@, HandItemType::Double, 10, 18, 25, 700)
    &&& weapon_entry(s.hand_items@[5], "Longsword"@, HandItemType::Single, 12, 20, 30, 900)
    &&& weapon_entry(s.hand_items@[6], "Flail"@, HandItemType::Single, 14, 22, 35, 1100)
    &&& weapon_entry(s.hand_items@[7], "Greatsword"@, HandItemType::Double, 16, 25, 40, 1350)
    &&& weapon_entry(s.hand_items@[8], "Halberd"@, HandItemType::Double, 18, 28, 45, 1600)
    &&& weapon_entry(s.hand_items@[9], "Mystic Staff"@, HandItemType::Single, 20, 30, 50, 2000)
    &&& s.armor@.len() == 0
}

impl Store {
    /// Stock the opening catalog.
    pub fn new() -> (r: Store)
        ensures
            spec_starting_store(r),
    {
        let mut hand_items: Vec<HandItem> = Vec::new();
        hand_items.push(
            HandItem::Weapon(
                Weapon::new("Rusty Dagger".to_owned(), HandItemType::Single, 2, 5, 5, 5),
            ),
        );
        hand_items.push(
            HandItem::Weapon(
                Weapon::new("Wooden Club".to_owned(), HandItemType::Single, 4, 8, 10, 200),
            ),
        );
        hand_items.push(
            HandItem::Weapon(
                Weapon::new("Short Sword".to_owned(), HandItemType::Single, 6, 10, 15, 350),
            ),
        );
        hand_items.push(
            HandItem::Weapon(
                Weapon::new("Battle Axe".to_owned(), HandItemType::Single, 8, 15, 20, 500),
            ),
        );
        hand_items.push(
            HandItem::Weapon(
                Weapon::new("War Hammer".to_owned(), HandItemType::Double, 10, 18, 25, 700),
            ),
        );
        hand_items.push(
            HandItem::Weapon(
                Weapon::new("Longsword".to_owned(), HandItemType::Single, 12, 20, 30, 900),
            ),
        );
        hand_items.push(
            HandItem::Weapon(
                Weapon::new("Flail".to_owned(), HandItemType::Single, 14, 22, 35, 1100),
            ),
        );
        hand_items.push(
            HandItem::Weapon(
                Weapon::new("Greatsword".to_owned(), HandItemType::Double, 16, 25, 40, 1350),
            ),
        );
        hand_items.push(
            HandItem::Weapon(
                Weapon::new("Halberd".to_owned(), HandItemType::Double, 18, 28, 45, 1600),
            ),
        );
        hand_items.push(
            HandItem::Weapon(
                Weapon::new("Mystic Staff".to_owned(), HandItemType::Single, 20, 30, 50, 2000),
            ),
        );
        Store { hand_items, armor: Vec::new() }
    }

    /// Append an item to the catalog.
    pub fn add_hand_item(&mut self, item: HandItem)
        ensures
            final(self).hand_items@ == old(self).hand_items@.push(item),
            final(self).armor@ == old(self).armor@,
    {
        self.hand_items.push(item);
    }

    /// Remove the item at `index`; later items shift down by one.
    pub fn remove_hand_item(&mut self, index: usize)
        requires
            index < old(self).hand_items@.len(),
        ensures
            final(self).hand_items@ == old(self).hand_items@.remove(index as int),
            final(self).armor@ == old(self).armor@,
    {
        self.hand_items.remove(index);
    }
}

} // verus!
