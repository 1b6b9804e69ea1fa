//! The inventory: a pool of owned but unequipped items.
//!
//! Two ordered, append-only lists — hand items (weapons and shields) and
//! armor pieces. Removal elsewhere is index-based; indices shift, there
//! are no stable item identities.

use vstd::prelude::*;

use crate::items::{Armor, ArmorType, HandItem, HandItemType, Item, Shield, Weapon};

verus! {

/// Items a combatant owns but has not equipped.
#[derive(Debug, PartialEq, Eq)]
pub struct Inventory {
    pub hand_items: Vec<HandItem>,
    pub armors: Vec<Armor>,
}

/// One shield entry, spelled out field by field.
pub open spec fn shield_entry(
    item: HandItem,
    name: Seq<char>,
    item_type: HandItemType,
    block_damage: u8,
    req_strength: u8,
    price: i32,
    weight: i32,
) -> bool {
    item matches HandItem::Shield(s) && s.name@ == name && s.item_type == item_type
        && s.block_damage == block_damage && s.req_strength == req_strength && s.price == price
        && s.weight == weight
}

/// One weapon entry, spelled out field by field.
pub open spec fn weapon_entry(
    item: HandItem,
    name: Seq<char>,
    item_type: HandItemType,
    min_damage: u8,
    max_damage: u8,
    req_strength: u8,
    price: i32,
) -> bool {
    item matches HandItem::Weapon(w) && w.name@ == name && w.item_type == item_type
        && w.min_damage == min_damage && w.max_damage == max_damage && w.req_strength
        == req_strength && w.price == price
}

/// One armor entry, spelled out field by field.
pub open spec fn armor_entry(
    item: Armor,
    name: Seq<char>,
    armor_type: ArmorType,
    defense: u8,
    req_strength: u8,
    price: u32,
    weight: u32,
) -> bool {
    item.name@ == name && item.armor_type == armor_type && item.defense == defense
        && item.req_strength == req_strength && item.price == price && item.weight == weight
}

/// The items a fresh career starts with.
pub open spec fn spec_starting_inventory(inv: Inventory) -> bool {
    &&& inv.hand_items@.len() == 3
    &&& shield_entry(inv.hand_items@[0], "Basic Shield"@, HandItemType::Single, 15, 10, 15, 25)
    &&& shield_entry(inv.hand_items@[1], "Advanced Shield"@, HandItemType::Single, 15, 50, 15, 25)
    &&& weapon_entry(
        inv.hand_items@[2],
        "Advanced Rusty Sword"@,
        HandItemType::Single,
        1,
        3,
        1,
        5,
    )
    &&& inv.armors@.len() == 1
    &&& armor_entry(inv.armors@[0], "Basic Helmet"@, ArmorType::Helmet, 5, 10, 100, 5)
}

impl Inventory {
    /// The starting pool: two shields, one spare weapon, one helmet.
    pub fn new() -> (r: Inventory)
        ensures
            spec_starting_inventory(r),
    {
        let shield = Shield::new(
            "Basic Shield".to_owned(),
            HandItemType::Single,
            15,
            10,
            15,
            25,
        );
        let shield2 = Shield::new(
            "Advanced Shield".to_owned(),
            HandItemType::Single,
            15,
            50,
            15,
            25,
        );
        let helmet = Armor::new("Basic Helmet".to_owned(), ArmorType::Helmet, 5, 10, 100, 5);
        let weapon2 = Weapon::new(
            "Advanced Rusty Sword".to_owned(),
            HandItemType::Single,
            1,
            3,
            1,
            5,
        );
        let mut hand_items: Vec<HandItem> = Vec::new();
        let mut armors: Vec<Armor> = Vec::new();
        hand_items.push(HandItem::Shield(shield));
        hand_items.push(HandItem::Shield(shield2));
        hand_items.push(HandItem::Weapon(weapon2));
        armors.push(helmet);
        Inventory { hand_items, armors }
    }

    /// Append an item to the list its kind belongs to; nothing else moves.
    pub fn add_item(&mut self, item: Item)
        ensures
            item matches Item::Weapon(w) ==> final(self).hand_items@ == old(
                self,
            ).hand_items@.push(HandItem::Weapon(w)) && final(self).armors@ == old(self).armors@,
            item matches Item::Shield(s) ==> final(self).hand_items@ == old(
                self,
            ).hand_items@.push(HandItem::Shield(s)) && final(self).armors@ == old(self).armors@,
            item matches Item::Armor(a) ==> final(self).armors@ == old(self).armors@.push(a)
                && final(self).hand_items@ == old(self).hand_items@,
    {
        match item {
            Item::Weapon(weapon) => self.hand_items.push(HandItem::Weapon(weapon)),
            Item::Shield(shield) => self.hand_items.push(HandItem::Shield(shield)),
            Item::Armor(armor) => self.armors.push(armor),
        }
    }

    /// Append a hand item; nothing else moves.
    pub fn add_hand_item(&mut self, item: HandItem)
        ensures
            final(self).hand_items@ == old(self).hand_items@.push(item),
            final(self).armors@ == old(self).armors@,
    {
        self.hand_items.push(item);
    }

    /// The `n`-th weapon among the hand items, in list order, or `None`
    /// when there are fewer weapons than that. The weapon stays in the
    /// inventory; the result is a copy.
    pub fn nth_weapon(&self, n: usize) -> (r: Option<Weapon>)
        ensures
            n < spec_weapons(self.hand_items@).len() ==> r == Some(
                spec_weapons(self.hand_items@)[n as int],
            ),
            n >= spec_weapons(self.hand_items@).len() ==> r is None,
    {
        let ghost s = self.hand_items@;
        let mut i: usize = 0;
        let mut count: usize = 0;
        while i < self.hand_items.len()
            invariant
                i <= s.len(),
                s == self.hand_items@,
                count == spec_weapons(s.take(i as int)).len(),
                count <= n,
            decreases s.len() - i,
        {
            proof {
                lemma_weapons_take_step(s, i as int);
            }
            match &self.hand_items[i] {
                HandItem::Weapon(w) => {
                    if count == n {
                        proof {
                            lemma_weapons_take_prefix(s, i as int + 1);
                            assert(spec_weapons(s.take(i as int + 1)).len() == n + 1);
                            assert(spec_weapons(s).take(n as int + 1)[n as int] == spec_weapons(
                                s,
                            )[n as int]);
                            assert(spec_weapons(s)[n as int] == *w);
                        }
                        return Some(w.clone());
                    }
                    count = count + 1;
                }
                HandItem::Shield(_) => {}
            }
            i = i + 1;
        }
        proof {
            assert(s.take(s.len() as int) =~= s);
        }
        None
    }

    /// The `n`-th shield among the hand items, in list order, or `None`
    /// when there are fewer shields than that. The shield stays in the
    /// inventory; the result is a copy.
    pub fn nth_shield(&self, n: usize) -> (r: Option<Shield>)
        ensures
            n < spec_shields(self.hand_items@).len() ==> r == Some(
                spec_shields(self.hand_items@)[n as int],
            ),
            n >= spec_shields(self.hand_items@).len() ==> r is None,
    {
        let ghost s = self.hand_items@;
        let mut i: usize = 0;
        let mut count: usize = 0;
        while i < self.hand_items.len()
            invariant
                i <= s.len(),
                s == self.hand_items@,
                count == spec_shields(s.take(i as int)).len(),
                count <= n,
            decreases s.len() - i,
        {
            proof {
                lemma_shields_take_step(s, i as int);
            }
            match &self.hand_items[i] {
                HandItem::Shield(sh) => {
                    if count == n {
                        proof {
                            lemma_shields_take_prefix(s, i as int + 1);
                            assert(spec_shields(s.take(i as int + 1)).len() == n + 1);
                            assert(spec_shields(s).take(n as int + 1)[n as int] == spec_shields(
                                s,
                            )[n as int]);
                            assert(spec_shields(s)[n as int] == *sh);
                        }
                        return Some(sh.clone());
                    }
                    count = count + 1;
                }
                HandItem::Weapon(_) => {}
            }
            i = i + 1;
        }
        proof {
            assert(s.take(s.len() as int) =~= s);
        }
        None
    }
}

/// The weapons among a hand-item list, in list order.
pub open spec fn spec_weapons(s: Seq<HandItem>) -> Seq<Weapon>
    decreases s.len(),
{
    if s.len() == 0 {
        Seq::empty()
    } else {
        match s.last() {
            HandItem::Weapon(w) => spec_weapons(s.drop_last()).push(w),
            HandItem::Shield(_) => spec_weapons(s.drop_last()),
        }
    }
}

/// The shields among a hand-item list, in list order.
pub open spec fn spec_shields(s: Seq<HandItem>) -> Seq<Shield>
    decreases s.len(),
{
    if s.len() == 0 {
        Seq::empty()
    } else {
        match s.last() {
            HandItem::Shield(sh) => spec_shields(s.drop_last()).push(sh),
            HandItem::Weapon(_) => spec_shields(s.drop_last()),
        }
    }
}

/// Extending a prefix by one hand item extends its weapon list exactly
/// when that item is a weapon.
pub proof fn lemma_weapons_take_step(s: Seq<HandItem>, i: int)
    requires
        0 <= i < s.len(),
    ensures
        s[i] matches HandItem::Weapon(w) ==> spec_weapons(s.take(i + 1)) == spec_weapons(
            s.take(i),
        ).push(w),
        s[i] matches HandItem::Shield(_) ==> spec_weapons(s.take(i + 1)) == spec_weapons(
            s.take(i),
        ),
{
    assert(s.take(i + 1).drop_last() =~= s.take(i));
    assert(s.take(i + 1).last() == s[i]);
}

/// The weapon list of a prefix is a prefix of the full weapon list.
pub proof fn lemma_weapons_take_prefix(s: Seq<HandItem>, i: int)
    requires
        0 <= i <= s.len(),
    ensures
        spec_weapons(s.take(i)).len() <= spec_weapons(s).len(),
        spec_weapons(s).take(spec_weapons(s.take(i)).len() as int) == spec_weapons(s.take(i)),
    decreases s.len(),
{
    if i == s.len() {
        assert(s.take(i) =~= s);
        assert(spec_weapons(s).take(spec_weapons(s.take(i)).len() as int) =~= spec_weapons(
            s.take(i),
        ));
    } else {
        let d = s.drop_last();
        assert(s.take(i) =~= d.take(i));
        lemma_weapons_take_prefix(d, i);
        let k = spec_weapons(s.take(i)).len() as int;
        assert(spec_weapons(s).take(k) =~= spec_weapons(s.take(i)));
    }
}

/// Extending a prefix by one hand item extends its shield list exactly
/// when that item is a shield.
pub proof fn lemma_shields_take_step(s: Seq<HandItem>, i: int)
    requires
        0 <= i < s.len(),
    ensures
        s[i] matches HandItem::Shield(sh) ==> spec_shields(s.take(i + 1)) == spec_shields(
            s.take(i),
        ).push(sh),
        s[i] matches HandItem::Weapon(_) ==> spec_shields(s.take(i + 1)) == spec_shields(
            s.take(i),
        ),
{
    assert(s.take(i + 1).drop_last() =~= s.take(i));
    assert(s.take(i + 1).last() == s[i]);
}

/// The shield list of a prefix is a prefix of the full shield list.
pub proof fn lemma_shields_take_prefix(s: Seq<HandItem>, i: int)
    requires
        0 <= i <= s.len(),
    ensures
        spec_shields(s.take(i)).len() <= spec_shields(s).len(),
        spec_shields(s).take(spec_shields(s.take(i)).len() as int) == spec_shields(s.take(i)),
    decreases s.len(),
{
    if i == s.len() {
        assert(s.take(i) =~= s);
        assert(spec_shields(s).take(spec_shields(s.take(i)).len() as int) =~= spec_shields(
            s.take(i),
        ));
    } else {
        let d = s.drop_last();
        assert(s.take(i) =~= d.take(i));
        lemma_shields_take_prefix(d, i);
        let k = spec_shields(s.take(i)).len() as int;
        assert(spec_shields(s).take(k) =~= spec_shields(s.take(i)));
    }
}

} // verus!
