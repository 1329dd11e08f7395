use lightcycle::geometry::{Direction, Point, ARENA_WIDTH};
use lightcycle::cycle::{AiDifficulty, Key, PlayerType, MAX_BOOST_ENERGY};
use lightcycle::ai::AiRolls;
use lightcycle::game::{GameMode, GameState, Outcome};

const CALM: AiRolls = AiRolls { turn: 99, pick: 0, boost: 99 };

fn calm_tick(g: &mut GameState) -> Vec<bool> {
    let rolls = vec![CALM; g.cycles.len()];
    g.update_with_rolls(&rolls)
}

#[test]
fn new_session_is_in_menu() {
    let g = GameState::new();
    assert_eq!(g.mode, GameMode::Menu);
    assert!(g.cycles.is_empty());
    assert_eq!(g.ai_difficulty, AiDifficulty::Medium);
}

#[test]
fn round_start_is_mirrored() {
    for single in [true, false] {
        let mut g = GameState::new();
        g.start_game(single);
        assert_eq!(g.mode, GameMode::Playing);
        assert_eq!(g.cycles.len(), 2);
        let (a, b) = (&g.cycles[0], &g.cycles[1]);
        assert_eq!(a.position, Point { x: 400, y: 1000 });
        assert_eq!(a.position.x + b.position.x, ARENA_WIDTH);
        assert_eq!(a.position.y, b.position.y);
        assert!(a.direction.is_opposite(&b.direction));
        assert_eq!(a.boost_energy, MAX_BOOST_ENERGY);
        assert_eq!(b.boost_energy, MAX_BOOST_ENERGY);
        assert!(a.alive && b.alive);
        assert!(a.trail.is_empty() && b.trail.is_empty());
        assert_eq!(a.player_type, PlayerType::Human);
        let expected = if single { PlayerType::Computer } else { PlayerType::Human };
        assert_eq!(b.player_type, expected);
    }
}

#[test]
fn menu_keys() {
    let mut g = GameState::new();
    g.key_down_event(Key::D);
    assert_eq!(g.ai_difficulty, AiDifficulty::Hard);
    g.key_down_event(Key::D);
    assert_eq!(g.ai_difficulty, AiDifficulty::Easy);
    g.key_down_event(Key::P);
    assert_eq!(g.mode, GameMode::Menu);
    g.key_down_event(Key::Key1);
    assert_eq!(g.mode, GameMode::Playing);
    assert!(g.single_player);
    assert_eq!(g.cycles[1].ai_difficulty, AiDifficulty::Easy);
    assert_eq!(g.cycles[1].player_type, PlayerType::Computer);
}

#[test]
fn pause_resume_and_cancel() {
    let mut g = GameState::new();
    g.key_down_event(Key::Key2);
    assert!(!g.single_player);
    calm_tick(&mut g);
    let pos = g.cycles[0].position;
    g.key_down_event(Key::P);
    assert_eq!(g.mode, GameMode::Paused);
    g.key_down_event(Key::W);
    let died = calm_tick(&mut g);
    assert!(died.is_empty());
    assert_eq!(g.cycles[0].position, pos);
    assert_eq!(g.cycles[0].direction, Direction::Right);
    g.key_down_event(Key::P);
    assert_eq!(g.mode, GameMode::Playing);
    calm_tick(&mut g);
    assert_eq!(g.cycles[0].position, Point { x: pos.x + 6, y: pos.y });
    g.key_down_event(Key::Escape);
    assert_eq!(g.mode, GameMode::Menu);
    assert!(g.cycles.is_empty());
}

#[test]
fn keys_reach_the_bound_vehicle_only() {
    let mut g = GameState::new();
    g.start_game(false);
    g.key_down_event(Key::Up);
    assert_eq!(g.cycles[0].direction, Direction::Right);
    assert_eq!(g.cycles[1].direction, Direction::Up);
    g.key_down_event(Key::LShift);
    assert!(g.cycles[0].is_boosting);
    assert!(!g.cycles[1].is_boosting);
    g.key_up_event(Key::LShift);
    assert!(!g.cycles[0].is_boosting);
}

#[test]
fn head_on_collision_is_a_draw() {
    let mut g = GameState::new();
    g.start_game(false);
    let mut ticks = 0;
    while g.mode == GameMode::Playing {
        let died = calm_tick(&mut g);
        ticks += 1;
        if g.mode != GameMode::Playing {
            assert_eq!(died, vec![true, true]);
        } else {
            assert_eq!(died, vec![false, false]);
        }
        assert!(ticks <= 1000);
    }
    assert_eq!(ticks, 200);
    assert!(!g.cycles[0].alive && !g.cycles[1].alive);
    assert_eq!(g.mode, GameMode::GameOver { winner: Outcome::Draw });
    g.key_down_event(Key::P);
    assert_eq!(g.mode, GameMode::GameOver { winner: Outcome::Draw });
    g.key_down_event(Key::Escape);
    assert_eq!(g.mode, GameMode::Menu);
}

#[test]
fn lone_survivor_wins() {
    let mut g = GameState::new();
    g.start_game(false);
    g.key_down_event(Key::W);
    let mut ticks = 0;
    while g.mode == GameMode::Playing {
        calm_tick(&mut g);
        ticks += 1;
        assert!(ticks <= 1000);
    }
    assert_eq!(ticks, 167);
    assert_eq!(
        g.mode,
        GameMode::GameOver { winner: Outcome::Winner { index: 1, player: PlayerType::Human } }
    );
}

#[test]
fn solo_round_runs_with_fresh_draws() {
    let mut g = GameState::new();
    g.start_game(true);
    for _ in 0..50 {
        g.update();
    }
    assert_eq!(g.cycles.len(), 2);
    assert!(g.cycles[0].alive);
    assert_eq!(g.cycles[0].position, Point { x: 700, y: 1000 });
}
