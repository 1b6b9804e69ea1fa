//! Item catalog types: weapons, shields, and armor pieces.
//!
//! These are immutable data records. Ownership moves between store,
//! inventory, and equipment; nothing here is shared.

use vstd::prelude::*;

verus! {

/// Whether a hand item occupies one hand or both.
#[derive(Debug, PartialEq, Eq, Structural, Clone, Copy)]
pub enum HandItemType {
    Single,
    Double,
}

impl HandItemType {
    /// A fixed label for display; the presentation layer prints it.
    pub fn label(&self) -> (r: &'static str)
        ensures
            *self == HandItemType::Single ==> r@ == "Single-Handed"@,
            *self == HandItemType::Double ==> r@ == "Double-Handed"@,
    {
        match self {
            HandItemType::Single => "Single-Handed",
            HandItemType::Double => "Double-Handed",
        }
    }
}

/// The body slot a piece of armor protects.
#[derive(Debug, PartialEq, Eq, Structural, Clone, Copy)]
pub enum ArmorType {
    Helmet,
    BreastPlate,
    Legs,
}

impl ArmorType {
    /// A fixed label for display; the presentation layer prints it.
    pub fn label(&self) -> (r: &'static str)
        ensures
            *self == ArmorType::Helmet ==> r@ == "Helmet"@,
            *self == ArmorType::BreastPlate ==> r@ == "BreastPlate"@,
            *self == ArmorType::Legs ==> r@ == "Legs"@,
    {
        match self {
            ArmorType::Helmet => "Helmet",
            ArmorType::BreastPlate => "BreastPlate",
            ArmorType::Legs => "Legs",
        }
    }
}

/// An offensive hand item.
#[derive(Debug, PartialEq, Eq)]
pub struct Weapon {
    pub name: String,
    pub item_type: HandItemType,
    pub min_damage: u8,
    pub max_damage: u8,
    pub req_strength: u8,
    pub price: i32,
}

impl Weapon {
    pub fn new(
        name: String,
        item_type: HandItemType,
        min_damage: u8,
        max_damage: u8,
        req_strength: u8,
        price: i32,
    ) -> (r: Weapon)
        ensures
            r == (Weapon { name, item_type, min_damage, max_damage, req_strength, price }),
    {
        Weapon { name, item_type, min_damage, max_damage, req_strength, price }
    }
}

impl Clone for Weapon {
    fn clone(&self) -> (r: Weapon)
        ensures
            r == *self,
    {
        Weapon {
            name: self.name.clone(),
            item_type: self.item_type,
            min_damage: self.min_damage,
            max_damage: self.max_damage,
            req_strength: self.req_strength,
            price: self.price,
        }
    }
}

/// A defensive hand item.
#[derive(Debug, PartialEq, Eq)]
pub struct Shield {
    pub name: String,
    pub item_type: HandItemType,
    pub block_damage: u8,
    pub req_strength: u8,
    pub price: i32,
    pub weight: i32,
}

impl Shield {
    pub fn new(
        name: String,
        item_type: HandItemType,
        block_damage: u8,
        req_strength: u8,
        price: i32,
        weight: i32,
    ) -> (r: Shield)
        ensures
            r == (Shield { name, item_type, block_damage, req_strength, price, weight }),
    {
        Shield { name, item_type, block_damage, req_strength, price, weight }
    }
}

impl Clone for Shield {
    fn clone(&self) -> (r: Shield)
        ensures
            r == *self,
    {
        Shield {
            name: self.name.clone(),
            item_type: self.item_type,
            block_damage: self.block_damage,
            req_strength: self.req_strength,
            price: self.price,
            weight: self.weight,
        }
    }
}

/// A piece of armor for one body slot.
#[derive(Debug, PartialEq, Eq)]
pub struct Armor {
    pub name: String,
    pub armor_type: ArmorType,
    pub defense: u8,
    pub req_strength: u8,
    pub price: u32,
    pub weight: u32,
}

impl Armor {
    pub fn new(
        name: String,
        armor_type: ArmorType,
        defense: u8,
        req_strength: u8,
        price: u32,
        weight: u32,
    ) -> (r: Armor)
        ensures
            r == (Armor { name, armor_type, defense, req_strength, price, weight }),
    {
        Armor { name, armor_type, defense, req_strength, price, weight }
    }
}

impl Clone for Armor {
    fn clone(&self) -> (r: Armor)
        ensures
            r == *self,
    {
        Armor {
            name: self.name.clone(),
            armor_type: self.armor_type,
            defense: self.defense,
            req_strength: self.req_strength,
            price: self.price,
            weight: self.weight,
        }
    }
}

/// A weapon or a shield: what a hand slot or the store's hand-item list holds.
#[derive(Debug, PartialEq, Eq)]
pub enum HandItem {
    Weapon(Weapon),
    Shield(Shield),
}

impl HandItem {
    /// The coins the store asks for this item.
    pub open spec fn spec_price(&self) -> i32 {
        match self {
            HandItem::Weapon(w) => w.price,
            HandItem::Shield(s) => s.price,
        }
    }

    /// The coins the store asks for this item.
    pub fn price(&self) -> (r: i32)
        ensures
            r == self.spec_price(),
    {
        match self {
            HandItem::Weapon(w) => w.price,
            HandItem::Shield(s) => s.price,
        }
    }

    /// The strength a combatant needs before equipping this item.
    pub open spec fn spec_req_strength(&self) -> u8 {
        match self {
            HandItem::Weapon(w) => w.req_strength,
            HandItem::Shield(s) => s.req_strength,
        }
    }

    /// The strength a combatant needs before equipping this item.
    pub fn req_strength(&self) -> (r: u8)
        ensures
            r == self.spec_req_strength(),
    {
        match self {
            HandItem::Weapon(w) => w.req_strength,
            HandItem::Shield(s) => s.req_strength,
        }
    }
}

impl Clone for HandItem {
    fn clone(&self) -> (r: HandItem)
        ensures
            r == *self,
    {
        match self {
            HandItem::Weapon(w) => HandItem::Weapon(w.clone()),
            HandItem::Shield(s) => HandItem::Shield(s.clone()),
        }
    }
}

/// Any item the game knows: the union of the three catalog kinds.
#[derive(Debug, PartialEq, Eq)]
pub enum Item {
    Weapon(Weapon),
    Shield(Shield),
    Armor(Armor),
}

} // verus!
