//! The equipment slot model: two hand slots and an armor set.
//!
//! Each hand slot is a small state machine: `Empty`, `Single` (holding one
//! weapon or shield), or `Busy` (locked as a side effect of a two-handed
//! weapon in the other hand). Equipping always overwrites; a displaced item
//! is discarded, never returned to the inventory. The contracts state that
//! loss openly so no caller mistakes it for an oversight.

use vstd::prelude::*;

use crate::items::{Armor, ArmorType, HandItem, HandItemType, Shield, Weapon};

verus! {

/// The state of one hand slot.
#[derive(Debug, PartialEq, Eq)]
pub enum Hand {
    /// Nothing is held.
    Empty,
    /// Locked because a two-handed weapon occupies the other hand.
    Busy,
    /// Exactly one weapon or shield is held.
    Single(HandItem),
}

impl Clone for Hand {
    fn clone(&self) -> (r: Hand)
        ensures
            r == *self,
    {
        match self {
            Hand::Empty => Hand::Empty,
            Hand::Busy => Hand::Busy,
            Hand::Single(item) => Hand::Single(item.clone()),
        }
    }
}

/// Up to one piece of armor per body slot.
#[derive(Debug, PartialEq, Eq)]
pub struct ArmorSet {
    pub helmet: Option<Armor>,
    pub breastplate: Option<Armor>,
    pub boots: Option<Armor>,
}

impl Clone for ArmorSet {
    fn clone(&self) -> (r: ArmorSet)
        ensures
            r == *self,
    {
        ArmorSet {
            helmet: match &self.helmet {
                Some(a) => Some(a.clone()),
                None => None,
            },
            breastplate: match &self.breastplate {
                Some(a) => Some(a.clone()),
                None => None,
            },
            boots: match &self.boots {
                Some(a) => Some(a.clone()),
                None => None,
            },
        }
    }
}

/// What a combatant wields and wears.
#[derive(Debug, PartialEq, Eq)]
pub struct Equipment {
    pub left_hand: Hand,
    pub right_hand: Hand,
    pub armor: ArmorSet,
}

impl Clone for Equipment {
    fn clone(&self) -> (r: Equipment)
        ensures
            r == *self,
    {
        Equipment {
            left_hand: self.left_hand.clone(),
            right_hand: self.right_hand.clone(),
            armor: self.armor.clone(),
        }
    }
}

/// What equipping `weapon` does to `e`: the weapon takes the right hand;
/// a two-handed weapon also locks the left hand, discarding its occupant.
pub open spec fn spec_equip_weapon(e: Equipment, weapon: Weapon) -> Equipment {
    match weapon.item_type {
        HandItemType::Single => Equipment {
            right_hand: Hand::Single(HandItem::Weapon(weapon)),
            ..e
        },
        HandItemType::Double => Equipment {
            right_hand: Hand::Single(HandItem::Weapon(weapon)),
            left_hand: Hand::Busy,
            ..e
        },
    }
}

/// What equipping `shield` does to `e`: the shield takes the left hand,
/// replacing any occupant; if the left hand was locked by a two-handed
/// weapon, that lock is cleared and the right hand is emptied, discarding
/// the weapon.
pub open spec fn spec_equip_shield(e: Equipment, shield: Shield) -> Equipment {
    match e.left_hand {
        Hand::Busy => Equipment {
            left_hand: Hand::Single(HandItem::Shield(shield)),
            right_hand: Hand::Empty,
            ..e
        },
        _ => Equipment {
            left_hand: Hand::Single(HandItem::Shield(shield)),
            ..e
        },
    }
}

/// What equipping `armor` does to `e`: the piece takes its body slot,
/// replacing any previous occupant.
pub open spec fn spec_equip_armor(e: Equipment, armor: Armor) -> Equipment {
    match armor.armor_type {
        ArmorType::Helmet => Equipment {
            armor: ArmorSet { helmet: Some(armor), ..e.armor },
            ..e
        },
        ArmorType::BreastPlate => Equipment {
            armor: ArmorSet { breastplate: Some(armor), ..e.armor },
            ..e
        },
        ArmorType::Legs => Equipment {
            armor: ArmorSet { boots: Some(armor), ..e.armor },
            ..e
        },
    }
}

/// The loadout a fresh career starts with: a basic single-handed weapon in
/// the right hand, nothing else.
pub open spec fn spec_starting_equipment(e: Equipment) -> bool {
    &&& e.right_hand matches Hand::Single(HandItem::Weapon(w)) && w.name@
        == "Basic Rusty Sword"@ && w.item_type == HandItemType::Single && w.min_damage == 1
        && w.max_damage == 3 && w.req_strength == 1 && w.price == 5
    &&& e.left_hand == Hand::Empty
    &&& e.armor == (ArmorSet {
        helmet: None::<Armor>,
        breastplate: None::<Armor>,
        boots: None::<Armor>,
    })
}

impl Equipment {
    /// The starting loadout: a basic single-handed weapon in the right
    /// hand, nothing else.
    pub fn new() -> (r: Equipment)
        ensures
            spec_starting_equipment(r),
    {
        let weapon = Weapon::new(
            "Basic Rusty Sword".to_owned(),
            HandItemType::Single,
            1,
            3,
            1,
            5,
        );
        Equipment {
            right_hand: Hand::Single(HandItem::Weapon(weapon)),
            left_hand: Hand::Empty,
            armor: ArmorSet { helmet: None, breastplate: None, boots: None },
        }
    }

    /// Equip a weapon. The caller is responsible for the strength gate;
    /// this model applies the slot rules unconditionally.
    pub fn equip_weapon(&mut self, weapon: Weapon)
        ensures
            *final(self) == spec_equip_weapon(*old(self), weapon),
    {
        match weapon.item_type {
            HandItemType::Single => {
                self.right_hand = Hand::Single(HandItem::Weapon(weapon));
            }
            HandItemType::Double => {
                self.right_hand = Hand::Single(HandItem::Weapon(weapon));
                self.left_hand = Hand::Busy;
            }
        }
    }

    /// Equip a shield. Unconditionally claims the left hand; clears a
    /// two-handed lock, emptying the right hand.
    pub fn equip_shield(&mut self, shield: Shield)
        ensures
            *final(self) == spec_equip_shield(*old(self), shield),
    {
        match &self.left_hand {
            Hand::Busy => {
                self.left_hand = Hand::Single(HandItem::Shield(shield));
                self.right_hand = Hand::Empty;
            }
            _ => {
                self.left_hand = Hand::Single(HandItem::Shield(shield));
            }
        }
    }

    /// Equip a piece of armor in the slot its type names.
    pub fn equip_armor(&mut self, armor: Armor)
        ensures
            *final(self) == spec_equip_armor(*old(self), armor),
    {
        match armor.armor_type {
            ArmorType::Helmet => {
                self.armor.helmet = Some(armor);
            }
            ArmorType::BreastPlate => {
                self.armor.breastplate = Some(armor);
            }
            ArmorType::Legs => {
                self.armor.boots = Some(armor);
            }
        }
    }
}

/// Law: equipping a two-handed weapon and then a shield leaves the right
/// hand `Empty` and the left hand holding the shield — the weapon is gone
/// from the equipment entirely.
pub proof fn lemma_shield_clears_two_handed_lock(e: Equipment, weapon: Weapon, shield: Shield)
    requires
        weapon.item_type == HandItemType::Double,
    ensures
        spec_equip_shield(spec_equip_weapon(e, weapon), shield).right_hand == Hand::Empty,
        spec_equip_shield(spec_equip_weapon(e, weapon), shield).left_hand == Hand::Single(
            HandItem::Shield(shield),
        ),
{
}

/// The two-handed lock invariant: whenever a two-handed weapon occupies
/// the right hand, the left hand is locked — nothing else can sit there.
pub open spec fn wf_hands(e: Equipment) -> bool {
    match e.right_hand {
        Hand::Single(HandItem::Weapon(w)) => w.item_type == HandItemType::Double
            ==> e.left_hand == Hand::Busy,
        _ => true,
    }
}

/// Law: the starting loadout satisfies the two-handed lock invariant.
pub proof fn lemma_starting_equipment_wf(e: Equipment)
    requires
        spec_starting_equipment(e),
    ensures
        wf_hands(e),
{
}

/// Law: equipping a weapon preserves the two-handed lock invariant.
pub proof fn lemma_equip_weapon_preserves_wf(e: Equipment, weapon: Weapon)
    ensures
        wf_hands(spec_equip_weapon(e, weapon)),
{
}

/// Law: equipping a shield preserves the two-handed lock invariant.
pub proof fn lemma_equip_shield_preserves_wf(e: Equipment, shield: Shield)
    requires
        wf_hands(e),
    ensures
        wf_hands(spec_equip_shield(e, shield)),
{
}

/// Law: equipping armor preserves the two-handed lock invariant — it does
/// not touch the hands.
pub proof fn lemma_equip_armor_preserves_wf(e: Equipment, armor: Armor)
    requires
        wf_hands(e),
    ensures
        wf_hands(spec_equip_armor(e, armor)),
{
}

} // verus!
