//! The career state machine and the combat resolver.
//!
//! A `Game` owns one player and one store, a top-level state, and the week
//! counter. Every action that advances time goes through `advance_time`,
//! which keeps `is_fight_week` a pure function of `current_week`. The
//! combat loop and every menu live in the surrounding binary; this module
//! holds the transitions they drive.

use vstd::prelude::*;

use crate::equipment::{spec_equip_armor, spec_equip_shield, spec_equip_weapon};
use crate::inventory::{spec_shields, spec_weapons};
use crate::player::{spec_fresh_player, spec_healed, Player};
use crate::store::{spec_starting_store, Store};

verus! {

/// The top-level mode a playthrough is in. `Loading` and `Inventory` are
/// placeholders with no transitions of their own.
#[derive(Debug, PartialEq, Eq, Structural, Clone, Copy)]
pub enum GameState {
    MainMenu,
    Loading,
    InGame,
    GameOver,
    Inventory,
    Exit,
}

/// The three combat choices a turn offers.
#[derive(Debug, PartialEq, Eq, Structural, Clone, Copy)]
pub enum CombatAction {
    /// The strong, targeted hit.
    Attack,
    /// The medium hit.
    Block,
    /// The weak, stalling hit.
    Wait,
}

/// How one combat turn ended.
#[derive(Debug, PartialEq, Eq, Structural, Clone, Copy)]
pub enum TurnOutcome {
    /// Both combatants still stand; the loop continues.
    Continue,
    /// The player's health is depleted; the mercy decision follows.
    PlayerDown,
    /// The enemy is defeated; `first` marks the player's very first win.
    Victory { first: bool },
}

/// Why the fight option is refused this week.
#[derive(Debug, PartialEq, Eq, Structural, Clone, Copy)]
pub enum FightGate {
    /// Fit to fight.
    Ready,
    /// An injury rules the fight out.
    Injured,
    /// Health is at half the maximum or below.
    TooWeak,
}

/// Why a purchase was refused.
#[derive(Debug, PartialEq, Eq, Structural, Clone, Copy)]
pub enum PurchaseError {
    NotEnoughMoney,
}

/// Why equipping from the inventory was refused.
#[derive(Debug, PartialEq, Eq, Structural, Clone, Copy)]
pub enum EquipError {
    NoSuchItem,
    StrengthTooLow,
}

/// The enemy-health deduction of each combat action. Fixed constants:
/// equipped weapon stats do not enter combat in the current rules.
pub open spec fn spec_attack_damage(action: CombatAction) -> i32 {
    match action {
        CombatAction::Attack => 50,
        CombatAction::Block => 25,
        CombatAction::Wait => 1,
    }
}

/// The fixed counter-damage the enemy deals the player every turn.
pub const ENEMY_COUNTER_DAMAGE: i32 = 25;

/// A whole playthrough: one player, one store, the current mode, and the
/// week counter with its derived fight-week flag.
#[derive(Debug, PartialEq, Eq)]
pub struct Game {
    pub player: Player,
    pub store: Store,
    pub state: GameState,
    pub current_week: u64,
    pub is_fight_week: bool,
}

/// Relies on `rand::random::<bool>()`: a draw from the thread-local
/// generator, equally likely either way. Nothing is assumed of the value.
#[verifier::external_body]
fn fair_coin() -> bool {
    rand::random::<bool>()
}

impl Game {
    /// A fresh career at the main menu, week zero. The fight-week flag is
    /// never set on its own: here as everywhere it is derived from the
    /// week counter, and week zero satisfies the every-fourth-week rule.
    pub fn new() -> (r: Game)
        ensures
            spec_fresh_player(r.player),
            r.player.name@ == "Playername"@,
            spec_starting_store(r.store),
            r.state == GameState::MainMenu,
            r.current_week == 0,
            r.is_fight_week == (r.current_week % 4 == 0),
    {
        let player = Player::new("Playername".to_owned());
        let store = Store::new();
        let current_week: u64 = 0;
        Game {
            player,
            store,
            state: GameState::MainMenu,
            current_week,
            is_fight_week: current_week % 4 == 0,
        }
    }

    /// The weekly scheduler: one week passes, and the fight-week flag is
    /// recomputed as a pure function of the counter — every fourth week is
    /// a fight week.
    pub fn advance_time(&mut self)
        requires
            old(self).current_week < u64::MAX,
        ensures
            *final(self) == (Game {
                current_week: (old(self).current_week + 1) as u64,
                is_fight_week: ((old(self).current_week + 1) % 4 == 0),
                ..*old(self)
            }),
            final(self).is_fight_week == (final(self).current_week % 4 == 0),
    {
        self.current_week = self.current_week + 1;
        self.is_fight_week = self.current_week % 4 == 0;
    }

    /// Attempt to buy freedom: succeeds — the career ends free — exactly
    /// when the player holds 1000 coins or more. No coins change hands
    /// either way.
    pub fn buy_freedom(&mut self) -> (freed: bool)
        ensures
            freed == (old(self).player.money >= 1000),
            freed ==> *final(self) == (Game { state: GameState::GameOver, ..*old(self) }),
            !freed ==> *final(self) == (Game { state: GameState::InGame, ..*old(self) }),
    {
        if self.player.money >= 1000 {
            self.state = GameState::GameOver;
            true
        } else {
            self.state = GameState::InGame;
            false
        }
    }

    /// Skip this week's fight: fame drops by 10 — it may go negative —
    /// and time advances. Health is untouched.
    pub fn skip_fight(&mut self)
        requires
            old(self).player.fame - 10 >= i32::MIN,
            old(self).current_week < u64::MAX,
        ensures
            *final(self) == (Game {
                player: (Player {
                    fame: (old(self).player.fame - 10) as i32,
                    ..old(self).player
                }),
                current_week: (old(self).current_week + 1) as u64,
                is_fight_week: ((old(self).current_week + 1) % 4 == 0),
                ..*old(self)
            }),
    {
        self.player.fame = self.player.fame - 10;
        self.advance_time();
    }

    /// Train: strength grows by one and time advances — unless injured, in
    /// which case nothing changes and the week does not pass; the result
    /// says whether training happened.
    pub fn train(&mut self) -> (trained: bool)
        requires
            !old(self).player.injured ==> old(self).player.strength < u8::MAX,
            !old(self).player.injured ==> old(self).current_week < u64::MAX,
        ensures
            trained == !old(self).player.injured,
            old(self).player.injured ==> *final(self) == (Game {
                state: GameState::InGame,
                ..*old(self)
            }),
            !old(self).player.injured ==> *final(self) == (Game {
                player: (Player {
                    strength: (old(self).player.strength + 1) as u8,
                    ..old(self).player
                }),
                current_week: (old(self).current_week + 1) as u64,
                is_fight_week: ((old(self).current_week + 1) % 4 == 0),
                ..*old(self)
            }),
    {
        if self.player.injured {
            self.state = GameState::InGame;
            false
        } else {
            self.player.strength = self.player.strength + 1;
            self.advance_time();
            true
        }
    }

    /// Rest: heal a fixed 5 health (clamped at the maximum), advance time.
    /// An injury is not cleared by resting.
    pub fn rest(&mut self)
        requires
            old(self).player.health + 5 <= i32::MAX,
            old(self).current_week < u64::MAX,
        ensures
            *final(self) == (Game {
                player: (Player {
                    health: spec_healed(old(self).player, 5) as i32,
                    ..old(self).player
                }),
                current_week: (old(self).current_week + 1) as u64,
                is_fight_week: ((old(self).current_week + 1) % 4 == 0),
                state: GameState::InGame,
                ..*old(self)
            }),
    {
        self.player.heal(5);
        self.advance_time();
        self.state = GameState::InGame;
    }

    /// Start a new career run: health is restored to the maximum and play
    /// begins. The opening fight is driven by the caller.
    pub fn new_game(&mut self)
        requires
            old(self).player.health + old(self).player.max_health <= i32::MAX,
            old(self).player.max_health >= 0,
        ensures
            *final(self) == (Game {
                state: GameState::InGame,
                player: (Player {
                    health: spec_healed(old(self).player, old(self).player.max_health as int)
                        as i32,
                    ..old(self).player
                }),
                ..*old(self)
            }),
    {
        self.state = GameState::InGame;
        let amount = self.player.max_health;
        self.player.heal(amount);
    }

    /// Acknowledge the end of the career: the next step is leaving.
    pub fn end_game(&mut self)
        ensures
            *final(self) == (Game { state: GameState::Exit, ..*old(self) }),
    {
        self.state = GameState::Exit;
    }

    /// Quit from the main menu: the playthrough moves to its terminal
    /// state and nothing else changes.
    pub fn quit(&mut self)
        ensures
            *final(self) == (Game { state: GameState::Exit, ..*old(self) }),
    {
        self.state = GameState::Exit;
    }

    /// Leave play for the main menu; nothing else changes.
    pub fn to_main_menu(&mut self)
        ensures
            *final(self) == (Game { state: GameState::MainMenu, ..*old(self) }),
    {
        self.state = GameState::MainMenu;
    }

    /// The fresh opponent of one fight: a baseline combatant, discarded
    /// when the fight ends.
    pub fn new_enemy() -> (r: Player)
        ensures
            spec_fresh_player(r),
            r.name@ == "Enemy1"@,
    {
        Player::new("Enemy1".to_owned())
    }

    /// Whether the player may enter this week's fight: ruled out by an
    /// injury, or by health at half the maximum or below. Exactly one
    /// verdict is given per week — an injured player takes a single skip
    /// and never also fights, a deliberate tightening over letting both
    /// branches run.
    pub fn fight_gate(&self) -> (r: FightGate)
        ensures
            r == (if self.player.injured {
                FightGate::Injured
            } else if 2 * self.player.health <= self.player.max_health {
                FightGate::TooWeak
            } else {
                FightGate::Ready
            }),
    {
        if self.player.injured {
            FightGate::Injured
        } else {
            let doubled: i64 = 2 * (self.player.health as i64);
            if doubled <= self.player.max_health as i64 {
                FightGate::TooWeak
            } else {
                FightGate::Ready
            }
        }
    }

    /// Resolve one combat turn: the chosen action deducts its fixed damage
    /// from the enemy, the enemy counters for a fixed 25, and the outcome
    /// is read off — the player's defeat is checked first, so a turn that
    /// fells both counts against the player.
    ///
    /// On victory the player earns a flat 10 coins and one victory, and
    /// play returns to `InGame`; the mercy decision after `PlayerDown` is
    /// driven by the caller.
    pub fn fight_turn(&mut self, enemy: &mut Player, action: CombatAction) -> (r: TurnOutcome)
        requires
            old(self).player.health > 0,
            old(enemy).health > 0,
            old(self).player.money + 10 <= i32::MAX,
            old(self).player.victories < i32::MAX,
        ensures
            *final(enemy) == (Player {
                health: (old(enemy).health - spec_attack_damage(action)) as i32,
                ..*old(enemy)
            }),
            final(self).player.health == old(self).player.health - ENEMY_COUNTER_DAMAGE,
            old(self).player.health - ENEMY_COUNTER_DAMAGE <= 0 ==> r == TurnOutcome::PlayerDown
                && *final(self) == (Game {
                player: (Player {
                    health: (old(self).player.health - ENEMY_COUNTER_DAMAGE) as i32,
                    ..old(self).player
                }),
                ..*old(self)
            }),
            old(self).player.health - ENEMY_COUNTER_DAMAGE > 0 && old(enemy).health
                - spec_attack_damage(action) <= 0 ==> r == (TurnOutcome::Victory {
                first: old(self).player.victories == 0,
            }) && *final(self) == (Game {
                player: (Player {
                    health: (old(self).player.health - ENEMY_COUNTER_DAMAGE) as i32,
                    money: (old(self).player.money + 10) as i32,
                    victories: (old(self).player.victories + 1) as i32,
                    ..old(self).player
                }),
                state: GameState::InGame,
                ..*old(self)
            }),
            old(self).player.health - ENEMY_COUNTER_DAMAGE > 0 && old(enemy).health
                - spec_attack_damage(action) > 0 ==> r == TurnOutcome::Continue && *final(self)
                == (Game {
                player: (Player {
                    health: (old(self).player.health - ENEMY_COUNTER_DAMAGE) as i32,
                    ..old(self).player
                }),
                ..*old(self)
            }),
    {
        let damage: i32 = match action {
            CombatAction::Attack => 50,
            CombatAction::Block => 25,
            CombatAction::Wait => 1,
        };
        enemy.take_damage(damage);
        self.player.take_damage(25);
        if self.player.health <= 0 {
            TurnOutcome::PlayerDown
        } else if enemy.health <= 0 {
            let first = self.player.victories == 0;
            self.player.money = self.player.money + 10;
            self.player.victories = self.player.victories + 1;
            self.state = GameState::InGame;
            TurnOutcome::Victory { first }
        } else {
            TurnOutcome::Continue
        }
    }

    /// Refuse to beg: the career ends in the arena, deterministically.
    pub fn refuse_mercy(&mut self)
        ensures
            *final(self) == (Game { state: GameState::GameOver, ..*old(self) }),
    {
        self.state = GameState::GameOver;
    }

    /// Apply the crowd's verdict on a mercy plea: spared returns play to
    /// `InGame` — health keeps whatever non-positive value it had — and
    /// rejected ends the career.
    pub fn resolve_mercy(&mut self, spared: bool)
        ensures
            spared ==> *final(self) == (Game { state: GameState::InGame, ..*old(self) }),
            !spared ==> *final(self) == (Game { state: GameState::GameOver, ..*old(self) }),
    {
        if spared {
            self.state = GameState::InGame;
        } else {
            self.state = GameState::GameOver;
        }
    }

    /// Beg for mercy: the crowd spares the player with even chance,
    /// regardless of fame. Whatever the draw, the verdict is applied as
    /// `resolve_mercy` states, and nothing else changes.
    pub fn show_mercy(&mut self) -> (spared: bool)
        ensures
            spared ==> *final(self) == (Game { state: GameState::InGame, ..*old(self) }),
            !spared ==> *final(self) == (Game { state: GameState::GameOver, ..*old(self) }),
    {
        let spared = fair_coin();
        self.resolve_mercy(spared);
        spared
    }

    /// Buy the hand item at `index` of the store catalog: an atomic pair —
    /// the price leaves the player's money and the item moves from the
    /// store to the inventory — or, with too little money, no change at
    /// all.
    pub fn buy_hand_item(&mut self, index: usize) -> (r: Result<(), PurchaseError>)
        requires
            index < old(self).store.hand_items@.len(),
            old(self).store.hand_items@[index as int].spec_price() >= 0,
        ensures
            old(self).player.money < old(self).store.hand_items@[index as int].spec_price()
                ==> r == Err::<(), PurchaseError>(PurchaseError::NotEnoughMoney) && *final(self)
                == *old(self),
            old(self).player.money >= old(self).store.hand_items@[index as int].spec_price()
                ==> {
                &&& r == Ok::<(), PurchaseError>(())
                &&& final(self).player.money == old(self).player.money - old(
                    self,
                ).store.hand_items@[index as int].spec_price()
                &&& final(self).player.money >= 0
                &&& final(self).player.inventory.hand_items@ == old(
                    self,
                ).player.inventory.hand_items@.push(old(self).store.hand_items@[index as int])
                &&& final(self).player.inventory.armors@ == old(self).player.inventory.armors@
                &&& final(self).store.hand_items@ == old(self).store.hand_items@.remove(
                    index as int,
                )
                &&& final(self).store.armor@ == old(self).store.armor@
                &&& final(self).player == (Player {
                    money: final(self).player.money,
                    inventory: final(self).player.inventory,
                    ..old(self).player
                })
                &&& *final(self) == (Game {
                    player: final(self).player,
                    store: final(self).store,
                    ..*old(self)
                })
            },
    {
        let price = self.store.hand_items[index].price();
        if self.player.money < price {
            return Err(PurchaseError::NotEnoughMoney);
        }
        let item = self.store.hand_items[index].clone();
        self.player.money = self.player.money - price;
        self.store.remove_hand_item(index);
        self.player.inventory.add_hand_item(item);
        Ok(())
    }

    /// Equip the `n`-th weapon of the inventory (counting weapons only, in
    /// list order), if the player is strong enough. The weapon is copied
    /// onto the equipment; the inventory keeps it.
    pub fn equip_weapon_from_inventory(&mut self, n: usize) -> (r: Result<(), EquipError>)
        ensures
            n >= spec_weapons(old(self).player.inventory.hand_items@).len() ==> r == Err::<
                (),
                EquipError,
            >(EquipError::NoSuchItem) && *final(self) == *old(self),
            n < spec_weapons(old(self).player.inventory.hand_items@).len() && old(
                self,
            ).player.strength < spec_weapons(old(self).player.inventory.hand_items@)[
                n as int
            ].req_strength ==> r == Err::<(), EquipError>(EquipError::StrengthTooLow) && *final(self) == *old(self),
            n < spec_weapons(old(self).player.inventory.hand_items@).len() && old(
                self,
            ).player.strength >= spec_weapons(old(self).player.inventory.hand_items@)[
                n as int
            ].req_strength ==> r == Ok::<(), EquipError>(()) && *final(self) == (Game {
                player: (Player {
                    equipment: spec_equip_weapon(
                        old(self).player.equipment,
                        spec_weapons(old(self).player.inventory.hand_items@)[n as int],
                    ),
                    ..old(self).player
                }),
                ..*old(self)
            }),
    {
        let weapon = match self.player.inventory.nth_weapon(n) {
            None => {
                return Err(EquipError::NoSuchItem);
            }
            Some(w) => w,
        };
        if self.player.strength < weapon.req_strength {
            return Err(EquipError::StrengthTooLow);
        }
        self.player.equipment.equip_weapon(weapon);
        Ok(())
    }

    /// Equip the `n`-th shield of the inventory (counting shields only, in
    /// list order), if the player is strong enough. The shield is copied
    /// onto the equipment; the inventory keeps it.
    pub fn equip_shield_from_inventory(&mut self, n: usize) -> (r: Result<(), EquipError>)
        ensures
            n >= spec_shields(old(self).player.inventory.hand_items@).len() ==> r == Err::<
                (),
                EquipError,
            >(EquipError::NoSuchItem) && *final(self) == *old(self),
            n < spec_shields(old(self).player.inventory.hand_items@).len() && old(
                self,
            ).player.strength < spec_shields(old(self).player.inventory.hand_items@)[
                n as int
            ].req_strength ==> r == Err::<(), EquipError>(EquipError::StrengthTooLow) && *final(self) == *old(self),
            n < spec_shields(old(self).player.inventory.hand_items@).len() && old(
                self,
            ).player.strength >= spec_shields(old(self).player.inventory.hand_items@)[
                n as int
            ].req_strength ==> r == Ok::<(), EquipError>(()) && *final(self) == (Game {
                player: (Player {
                    equipment: spec_equip_shield(
                        old(self).player.equipment,
                        spec_shields(old(self).player.inventory.hand_items@)[n as int],
                    ),
                    ..old(self).player
                }),
                ..*old(self)
            }),
    {
        let shield = match self.player.inventory.nth_shield(n) {
            None => {
                return Err(EquipError::NoSuchItem);
            }
            Some(s) => s,
        };
        if self.player.strength < shield.req_strength {
            return Err(EquipError::StrengthTooLow);
        }
        self.player.equipment.equip_shield(shield);
        Ok(())
    }

    /// Equip the `n`-th armor piece of the inventory, if the player is
    /// strong enough. The piece is copied onto the equipment; the
    /// inventory keeps it.
    pub fn equip_armor_from_inventory(&mut self, n: usize) -> (r: Result<(), EquipError>)
        ensures
            n >= old(self).player.inventory.armors@.len() ==> r == Err::<(), EquipError>(
                EquipError::NoSuchItem,
            ) && *final(self) == *old(self),
            n < old(self).player.inventory.armors@.len() && old(self).player.strength < old(
                self,
            ).player.inventory.armors@[n as int].req_strength ==> r == Err::<(), EquipError>(
                EquipError::StrengthTooLow,
            ) && *final(self) == *old(self),
            n < old(self).player.inventory.armors@.len() && old(self).player.strength >= old(
                self,
            ).player.inventory.armors@[n as int].req_strength ==> r == Ok::<(), EquipError>(())
                && *final(self) == (Game {
                player: (Player {
                    equipment: spec_equip_armor(
                        old(self).player.equipment,
                        old(self).player.inventory.armors@[n as int],
                    ),
                    ..old(self).player
                }),
                ..*old(self)
            }),
    {
        if n >= self.player.inventory.armors.len() {
            return Err(EquipError::NoSuchItem);
        }
        let armor = self.player.inventory.armors[n].clone();
        if self.player.strength < armor.req_strength {
            return Err(EquipError::StrengthTooLow);
        }
        self.player.equipment.equip_armor(armor);
        Ok(())
    }
}

} // verus!
