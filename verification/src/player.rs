//! A combatant: stat block, inventory, and equipment.
//!
//! The player is the durable combatant of a career; an enemy is the same
//! type constructed fresh for one fight and discarded after it.

use vstd::prelude::*;
use vstd::string::StringExecFns;

use crate::decimal::{push_decimal_i64, spec_decimal};
use crate::equipment::{spec_starting_equipment, Equipment};
use crate::inventory::{spec_starting_inventory, Inventory};

verus! {

/// The renown rank a combatant has reached. Derived from `fame` by the
/// surrounding game, never recomputed automatically.
#[derive(Debug, PartialEq, Eq, Structural, Clone, Copy)]
pub enum Fame {
    Novice,
    Apprentice,
    Veteran,
    Champion,
    Hero,
    Legend,
}

/// A combatant's full state.
#[derive(Debug, PartialEq, Eq)]
pub struct Player {
    pub name: String,
    pub fame: i32,
    pub fame_level: Fame,
    pub energy: u8,
    pub health: i32,
    pub max_health: i32,
    pub strength: u8,
    pub defense: u8,
    pub agility: u8,
    pub money: i32,
    pub inventory: Inventory,
    pub victories: i32,
    pub injured: bool,
    pub equipment: Equipment,
}

/// The health a combatant has after healing by `amount`: clamped at the
/// maximum, never above it.
pub open spec fn spec_healed(p: Player, amount: int) -> int {
    if p.health + amount >= p.max_health {
        p.max_health as int
    } else {
        p.health + amount
    }
}

/// The baseline stat block, starting inventory, and starting equipment of
/// a freshly constructed combatant.
pub open spec fn spec_fresh_player(p: Player) -> bool {
    &&& p.fame == 0
    &&& p.fame_level == Fame::Novice
    &&& p.energy == 100
    &&& p.health == 100
    &&& p.max_health == 100
    &&& p.strength == 5
    &&& p.agility == 5
    &&& p.defense == 1
    &&& p.money == 0
    &&& p.victories == 0
    &&& !p.injured
    &&& spec_starting_inventory(p.inventory)
    &&& spec_starting_equipment(p.equipment)
}

/// How many of the ten health-bar blocks are filled: the rounded share of
/// `health` in `max_health`, clamped to the bar.
pub open spec fn spec_filled_blocks(health: int, max_health: int) -> int
    recommends
        max_health >= 1,
{
    if health <= 0 {
        0
    } else {
        let rounded = (20 * health + max_health) / (2 * max_health);
        if rounded > 10 {
            10
        } else {
            rounded
        }
    }
}

/// `n` copies of one character.
pub open spec fn char_repeat(c: char, n: int) -> Seq<char> {
    Seq::new(if n < 0 { 0 } else { n as nat }, |i: int| c)
}

/// The health-bar text: ten blocks, filled left to right, then
/// `health/max_health` in decimal.
pub open spec fn spec_health_bar(health: int, max_health: int) -> Seq<char>
    recommends
        max_health >= 1,
{
    let filled = spec_filled_blocks(health, max_health);
    "Health: ["@ + char_repeat('█', filled) + char_repeat('░', 10 - filled) + "] "@
        + spec_decimal(health) + "/"@ + spec_decimal(max_health)
}

impl Player {
    /// A fresh combatant with the baseline stat block, the starting
    /// inventory, and the starting equipment.
    pub fn new(name: String) -> (r: Player)
        ensures
            r.name == name,
            spec_fresh_player(r),
    {
        let inventory = Inventory::new();
        let equipment = Equipment::new();
        Player {
            name,
            fame: 0,
            fame_level: Fame::Novice,
            energy: 100,
            health: 100,
            strength: 5,
            agility: 5,
            defense: 1,
            money: 0,
            max_health: 100,
            inventory,
            victories: 0,
            injured: false,
            equipment,
        }
    }

    /// Subtract `amount` from health. Health is not clamped at zero; it
    /// may go non-positive and the caller reads that as defeat.
    pub fn take_damage(&mut self, amount: i32)
        requires
            i32::MIN <= old(self).health - amount <= i32::MAX,
        ensures
            *final(self) == (Player { health: (old(self).health - amount) as i32, ..*old(self) }),
    {
        self.health = self.health - amount;
    }

    /// Add `amount` to health, clamping at `max_health`. Healing never
    /// raises health above the maximum.
    pub fn heal(&mut self, amount: i32)
        requires
            i32::MIN <= old(self).health + amount <= i32::MAX,
        ensures
            final(self).health == spec_healed(*old(self), amount as int),
            final(self).health <= old(self).max_health,
            *final(self) == (Player { health: final(self).health, ..*old(self) }),
    {
        self.health = self.health + amount;
        if self.health >= self.max_health {
            self.health = self.max_health;
        }
    }

    /// Render the health bar.
    pub fn health_bar(&self) -> (r: String)
        requires
            self.max_health >= 1,
        ensures
            r@ == spec_health_bar(self.health as int, self.max_health as int),
    {
        let filled: u64 = if self.health <= 0 {
            0
        } else {
            let h = self.health as u64;
            let m = self.max_health as u64;
            let rounded = (20 * h + m) / (2 * m);
            if rounded > 10 {
                10
            } else {
                rounded
            }
        };
        let mut bar = String::from_str("Health: [");
        let mut i: u64 = 0;
        while i < filled
            invariant
                i <= filled <= 10,
                filled == spec_filled_blocks(self.health as int, self.max_health as int),
                bar@ == "Health: ["@ + char_repeat('█', i as int),
            decreases filled - i,
        {
            proof {
                reveal_strlit("█");
            }
            bar.append("█");
            proof {
                assert(bar@ =~= "Health: ["@ + char_repeat('█', i + 1));
            }
            i = i + 1;
        }
        while i < 10
            invariant
                filled <= i <= 10,
                filled == spec_filled_blocks(self.health as int, self.max_health as int),
                bar@ == "Health: ["@ + char_repeat('█', filled as int) + char_repeat(
                    '░',
                    i - filled,
                ),
            decreases 10 - i,
        {
            proof {
                reveal_strlit("░");
            }
            bar.append("░");
            proof {
                assert(bar@ =~= "Health: ["@ + char_repeat('█', filled as int) + char_repeat(
                    '░',
                    i + 1 - filled,
                ));
            }
            i = i + 1;
        }
        bar.append("] ");
        push_decimal_i64(&mut bar, self.health as i64);
        bar.append("/");
        push_decimal_i64(&mut bar, self.max_health as i64);
        proof {
            assert(bar@ =~= spec_health_bar(self.health as int, self.max_health as int));
        }
        bar
    }
}

} // verus!
