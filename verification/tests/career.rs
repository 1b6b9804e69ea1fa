use terminal_arena::game::{FightGate, Game, GameState};

#[test]
fn scheduler_increments_and_derives_fight_week() {
    let mut g = Game::new();
    assert_eq!(g.current_week, 0);
    assert!(g.is_fight_week, "week zero satisfies the every-fourth-week rule");
    for expected_week in 1..=9u64 {
        g.advance_time();
        assert_eq!(g.current_week, expected_week);
        assert_eq!(g.is_fight_week, expected_week % 4 == 0);
    }
}

#[test]
fn new_game_starts_at_main_menu() {
    let g = Game::new();
    assert_eq!(g.state, GameState::MainMenu);
    assert_eq!(g.player.name, "Playername");
    assert_eq!(g.player.health, 100);
    assert_eq!(g.player.max_health, 100);
    assert_eq!(g.player.strength, 5);
    assert_eq!(g.player.money, 0);
    assert_eq!(g.player.victories, 0);
    assert!(!g.player.injured);
    assert_eq!(g.store.hand_items.len(), 10);
    assert_eq!(g.store.armor.len(), 0);
}

#[test]
fn buy_freedom_needs_a_thousand_coins() {
    let mut g = Game::new();
    assert_eq!(g.player.money, 0);
    let freed = g.buy_freedom();
    assert!(!freed);
    assert_eq!(g.state, GameState::InGame);
    assert_eq!(g.player.money, 0);

    g.player.money = 999;
    assert!(!g.buy_freedom());
    assert_eq!(g.state, GameState::InGame);

    g.player.money = 1000;
    let freed = g.buy_freedom();
    assert!(freed);
    assert_eq!(g.state, GameState::GameOver);
    assert_eq!(g.player.money, 1000);
}

#[test]
fn skip_fight_costs_fame_and_advances_time() {
    let mut g = Game::new();
    g.skip_fight();
    assert_eq!(g.player.fame, -10);
    assert_eq!(g.current_week, 1);
    assert_eq!(g.player.health, 100);
    g.skip_fight();
    assert_eq!(g.player.fame, -20);
    assert_eq!(g.current_week, 2);
}

#[test]
fn train_while_injured_changes_nothing() {
    let mut g = Game::new();
    g.player.injured = true;
    let trained = g.train();
    assert!(!trained);
    assert_eq!(g.player.strength, 5);
    assert_eq!(g.current_week, 0);
    assert_eq!(g.state, GameState::InGame);
}

#[test]
fn train_gains_strength_and_advances_the_week() {
    let mut g = Game::new();
    let trained = g.train();
    assert!(trained);
    assert_eq!(g.player.strength, 6);
    assert_eq!(g.current_week, 1);
}

#[test]
fn rest_heals_five_and_advances_time() {
    let mut g = Game::new();
    g.player.take_damage(30);
    g.player.injured = true;
    g.rest();
    assert_eq!(g.player.health, 75);
    assert_eq!(g.current_week, 1);
    assert_eq!(g.state, GameState::InGame);
    assert!(g.player.injured, "resting does not clear an injury");
}

#[test]
fn rest_never_heals_past_the_maximum() {
    let mut g = Game::new();
    g.player.take_damage(2);
    g.rest();
    assert_eq!(g.player.health, 100);
}

#[test]
fn new_game_restores_health_and_enters_play() {
    let mut g = Game::new();
    g.player.take_damage(80);
    g.new_game();
    assert_eq!(g.state, GameState::InGame);
    assert_eq!(g.player.health, 100);
}

#[test]
fn end_game_leads_to_exit() {
    let mut g = Game::new();
    g.end_game();
    assert_eq!(g.state, GameState::Exit);
}

#[test]
fn fight_gate_reads_injury_and_health() {
    let mut g = Game::new();
    assert_eq!(g.fight_gate(), FightGate::Ready);
    g.player.take_damage(50);
    assert_eq!(g.fight_gate(), FightGate::TooWeak);
    g.player.heal(1);
    assert_eq!(g.fight_gate(), FightGate::Ready);
    g.player.injured = true;
    assert_eq!(g.fight_gate(), FightGate::Injured);
}
