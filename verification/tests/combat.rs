use terminal_arena::game::{CombatAction, Game, GameState, TurnOutcome};

#[test]
fn two_strong_hits_win_the_opening_duel() {
    let mut g = Game::new();
    let mut enemy = Game::new_enemy();
    assert_eq!(enemy.name, "Enemy1");
    assert_eq!(g.player.health, 100);
    assert_eq!(enemy.health, 100);

    let first_turn = g.fight_turn(&mut enemy, CombatAction::Attack);
    assert_eq!(first_turn, TurnOutcome::Continue);
    assert_eq!(enemy.health, 50);
    assert_eq!(g.player.health, 75);

    let second_turn = g.fight_turn(&mut enemy, CombatAction::Attack);
    assert_eq!(second_turn, TurnOutcome::Victory { first: true });
    assert_eq!(enemy.health, 0);
    assert_eq!(g.player.health, 50);
    assert_eq!(g.player.money, 10);
    assert_eq!(g.player.victories, 1);
    assert_eq!(g.state, GameState::InGame);
}

#[test]
fn later_victories_are_not_marked_first() {
    let mut g = Game::new();
    g.player.victories = 3;
    let mut enemy = Game::new_enemy();
    enemy.take_damage(99);
    let outcome = g.fight_turn(&mut enemy, CombatAction::Attack);
    assert_eq!(outcome, TurnOutcome::Victory { first: false });
    assert_eq!(g.player.victories, 4);
}

#[test]
fn block_and_wait_deal_their_fixed_damage() {
    let mut g = Game::new();
    let mut enemy = Game::new_enemy();
    assert_eq!(g.fight_turn(&mut enemy, CombatAction::Block), TurnOutcome::Continue);
    assert_eq!(enemy.health, 75);
    assert_eq!(g.fight_turn(&mut enemy, CombatAction::Wait), TurnOutcome::Continue);
    assert_eq!(enemy.health, 74);
    assert_eq!(g.player.health, 50);
}

#[test]
fn counter_damage_can_fell_the_player() {
    let mut g = Game::new();
    g.player.take_damage(80);
    let mut enemy = Game::new_enemy();
    let outcome = g.fight_turn(&mut enemy, CombatAction::Wait);
    assert_eq!(outcome, TurnOutcome::PlayerDown);
    assert_eq!(g.player.health, -5);
    assert_eq!(g.player.money, 0);
    assert_eq!(g.player.victories, 0);
}

#[test]
fn a_turn_that_fells_both_counts_against_the_player() {
    let mut g = Game::new();
    g.player.take_damage(75);
    let mut enemy = Game::new_enemy();
    enemy.take_damage(50);
    let outcome = g.fight_turn(&mut enemy, CombatAction::Attack);
    assert_eq!(outcome, TurnOutcome::PlayerDown);
    assert_eq!(g.player.health, 0);
    assert_eq!(enemy.health, 0);
    assert_eq!(g.player.victories, 0, "no victory is awarded on a shared fall");
}

#[test]
fn refusing_mercy_always_ends_the_career() {
    for _ in 0..20 {
        let mut g = Game::new();
        g.player.take_damage(120);
        g.refuse_mercy();
        assert_eq!(g.state, GameState::GameOver);
    }
}

#[test]
fn mercy_verdicts_apply_deterministically() {
    let mut g = Game::new();
    g.player.take_damage(120);
    g.resolve_mercy(true);
    assert_eq!(g.state, GameState::InGame);
    assert_eq!(g.player.health, -20, "being spared does not restore health");
    g.resolve_mercy(false);
    assert_eq!(g.state, GameState::GameOver);
}

#[test]
fn begging_for_mercy_spares_about_half_the_time() {
    let mut spared_count = 0;
    let trials = 400;
    for _ in 0..trials {
        let mut g = Game::new();
        g.player.take_damage(120);
        let spared = g.show_mercy();
        if spared {
            assert_eq!(g.state, GameState::InGame);
            spared_count += 1;
        } else {
            assert_eq!(g.state, GameState::GameOver);
        }
    }
    // A fair coin stays far inside these bounds over 400 trials; this is a
    // statistical assertion over repeated pleas, not a per-call one.
    assert!(spared_count > 100, "spared only {spared_count} of {trials}");
    assert!(spared_count < 300, "spared {spared_count} of {trials}");
}
