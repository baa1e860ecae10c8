use elder_god::board::{generate_map, GameBoard, Pos};
use elder_god::entities::{ActionAbility, ClassType, Entity, PlayerType};
use elder_god::game::{ActionType, ElderGame};
use elder_god::scene::{PlaneManager, SceneReturn, SceneType, Slides};
use elder_god::targeting::Direction;
use elder_god::terrain::TerrainStatus;

fn plain_board(w: usize, h: usize) -> GameBoard {
    generate_map(w, h, &vec!["#".to_string(); w * h], &vec!["N".to_string(); w * h])
}

#[test]
fn turn_order_cycles_back_after_five_turns() {
    let mut g = ElderGame::new();
    assert_eq!(g.get_turn().curr_player, 1);
    let mut seen = Vec::new();
    for _ in 0..5 {
        assert!(g.request_phase(ActionType::End));
        seen.push(g.get_turn().curr_player);
    }
    assert_eq!(seen, vec![0, 2, 0, 3, 1]);
    assert_eq!(g.get_turn().curr_player, 1);
    assert_eq!(g.get_curr_player().get_class(), ClassType::Support);
}

#[test]
fn standard_match_starts_with_the_support() {
    let g = ElderGame::new();
    let t = g.get_turn();
    assert_eq!(t.action_state, ActionType::Move);
    assert_eq!(t.moves, 3);
    assert_eq!(t.actions, 1);
    assert_eq!(t.curr_dir, Direction::Up);
    assert_eq!(t.curr_selection, 0);
    assert!(!t.end_flag);
    assert_eq!(g.get_winner(), PlayerType::Undetermined);
    let p = g.get_players();
    assert_eq!(p.len(), 4);
    assert_eq!(p[0].get_class(), ClassType::Wraith);
    assert_eq!(p[0].get_pos(), Pos { x: 9, y: 11 });
    assert_eq!(p[1].get_pos(), Pos { x: 6, y: 4 });
    assert_eq!(p[2].get_pos(), Pos { x: 9, y: 3 });
    assert_eq!(p[3].get_pos(), Pos { x: 12, y: 4 });
    assert_eq!(g.get_board().get_board().len(), 15);
}

#[test]
fn moves_are_spent_only_by_successful_steps() {
    let mut g = ElderGame::new();
    assert!(g.request_move(Direction::Up));
    assert_eq!(g.get_curr_player().get_pos(), Pos { x: 6, y: 3 });
    assert_eq!(g.get_turn().moves, 2);
    // Row 2 is void above the support.
    assert!(!g.request_move(Direction::Up));
    assert_eq!(g.get_curr_player().get_pos(), Pos { x: 6, y: 3 });
    assert_eq!(g.get_turn().moves, 2);
    assert!(g.request_move(Direction::Right));
    assert!(g.request_move(Direction::Right));
    assert_eq!(g.get_turn().moves, 0);
    assert!(!g.request_move(Direction::Right));
    assert_eq!(g.get_curr_player().get_pos(), Pos { x: 8, y: 3 });
    assert!(!g.request_phase(ActionType::Move));
}

#[test]
fn stepping_off_the_grid_is_refused() {
    let b = plain_board(3, 3);
    let e = Entity::new_char(ClassType::Assault, PlayerType::Player2, 1, Pos { x: 0, y: 0 }, false);
    let mut g = ElderGame::with_roster(b, vec![e], vec![0]).unwrap();
    assert!(!g.request_move(Direction::Up));
    assert!(!g.request_move(Direction::Left));
    assert!(g.request_move(Direction::Down));
    assert_eq!(g.get_curr_player().get_pos(), Pos { x: 0, y: 1 });
}

#[test]
fn occupied_cells_stop_movement() {
    let b = plain_board(3, 1);
    let a = Entity::new_char(ClassType::Assault, PlayerType::Player2, 1, Pos { x: 0, y: 0 }, false);
    let w = Entity::new_char(ClassType::Wraith, PlayerType::Player1, 1, Pos { x: 1, y: 0 }, false);
    let mut g = ElderGame::with_roster(b, vec![a, w], vec![0, 1]).unwrap();
    assert!(!g.request_move(Direction::Right));
    assert!(!g.try_move(Pos { x: 1, y: 0 }));
    assert!(g.try_move(Pos { x: 2, y: 0 }));
    assert_eq!(g.get_players()[0].get_pos(), Pos { x: 2, y: 0 });
    assert_eq!(g.get_turn().moves, 4);
}

#[test]
fn roster_checks() {
    let e = Entity::new_char(ClassType::Assault, PlayerType::Player2, 1, Pos { x: 0, y: 0 }, false);
    assert!(ElderGame::with_roster(plain_board(2, 2), vec![e], vec![]).is_none());
    assert!(ElderGame::with_roster(plain_board(2, 2), vec![e], vec![0, 1]).is_none());
    let g = ElderGame::with_roster(plain_board(2, 2), vec![e, e], vec![1, 0]).unwrap();
    assert_eq!(g.get_turn().curr_player, 1);
    assert_eq!(g.get_turn().turn_index, 0);
}

#[test]
fn action_phase_selects_aims_and_spends() {
    let mut g = ElderGame::new();
    assert!(!g.request_selection(true));
    assert!(!g.request_facing(true));
    assert!(g.confirm_ability().is_none());
    assert!(g.request_phase(ActionType::Action));
    assert_eq!(g.get_turn().action_state, ActionType::Action);
    assert!(g.request_selection(true));
    assert_eq!(g.get_turn().curr_selection, 1);
    assert!(g.request_selection(false));
    assert!(g.request_selection(false));
    assert_eq!(g.get_turn().curr_selection, 2);
    assert!(g.request_facing(false));
    assert_eq!(g.get_turn().curr_dir, Direction::Left);
    assert!(g.request_facing(true));
    assert!(g.request_facing(true));
    assert_eq!(g.get_turn().curr_dir, Direction::Right);
    // Ability 3 needs level 3: refused, nothing spent.
    assert!(g.confirm_ability().is_none());
    assert_eq!(g.get_turn().actions, 1);
    assert!(g.request_selection(true));
    assert_eq!(g.get_turn().curr_selection, 0);
    let (cells, ability) = g.confirm_ability().expect("ability 1 is unlocked");
    assert_eq!(ability, ActionAbility::Bio);
    assert!(cells.contains(&Pos { x: 6, y: 4 }));
    assert!(cells.iter().all(|p| p.x.abs_diff(6) + p.y.abs_diff(4) <= 3));
    assert_eq!(g.get_turn().actions, 0);
    assert_eq!(g.get_turn().action_state, ActionType::Move);
    assert!(!g.request_phase(ActionType::Action));
}

#[test]
fn entering_action_resets_choice() {
    let mut g = ElderGame::new();
    g.next_selection();
    g.next_direction();
    g.next_direction();
    assert_eq!(g.get_turn().curr_dir, Direction::Down);
    g.prev_direction();
    assert_eq!(g.get_turn().curr_dir, Direction::Right);
    g.prev_selection();
    g.prev_selection();
    assert_eq!(g.get_turn().curr_selection, 2);
    assert!(g.request_phase(ActionType::Action));
    assert_eq!(g.get_turn().curr_selection, 0);
    assert_eq!(g.get_turn().curr_dir, Direction::Up);
}

#[test]
fn new_turn_refills_and_decays_the_board() {
    let b = generate_map(2, 1, &vec!["#".to_string(), "#".to_string()], &vec!["F".to_string(), "N".to_string()]);
    let a = Entity::new_char(ClassType::Assault, PlayerType::Player2, 1, Pos { x: 1, y: 0 }, false);
    let w = Entity::new_char(ClassType::Wraith, PlayerType::Player1, 1, Pos { x: 1, y: 0 }, false);
    let mut g = ElderGame::with_roster(b, vec![a, w], vec![0, 1]).unwrap();
    assert!(g.request_phase(ActionType::Action));
    assert!(g.confirm_ability().is_some());
    g.next_turn();
    let t = g.get_turn();
    assert_eq!(t.curr_player, 1);
    assert_eq!((t.moves, t.actions), (6, 1));
    assert_eq!(t.action_state, ActionType::Move);
    assert_eq!(g.get_board().cell_at(0, 0).get_counter(), 5);
    for _ in 0..5 {
        g.next_turn();
    }
    assert_eq!(g.get_board().cell_at(0, 0).get_cond(), TerrainStatus::Normal);
}

#[test]
fn declaring_a_winner_restarts_the_match() {
    let mut g = ElderGame::new();
    assert!(g.request_move(Direction::Up));
    assert!(g.request_phase(ActionType::End));
    assert_eq!(g.declare_winner(PlayerType::Player1), SceneReturn::Finished);
    assert_eq!(g.get_winner(), PlayerType::Player1);
    assert_eq!(g.get_turn().curr_player, 1);
    assert_eq!(g.get_turn().moves, 3);
    assert_eq!(g.get_players()[1].get_pos(), Pos { x: 6, y: 4 });
    g.reset();
    assert_eq!(g.get_winner(), PlayerType::Player1);
}

#[test]
fn scenes_cycle() {
    assert_eq!(SceneType::Intro.next(), SceneType::Game);
    assert_eq!(SceneType::Game.next(), SceneType::Outro);
    assert_eq!(SceneType::Outro.next(), SceneType::Intro);
}

#[test]
fn slideshow_finishes_after_the_last_page() {
    let mut s = Slides::new(4);
    assert_eq!(s.advance(), SceneReturn::Good);
    assert_eq!(s.advance(), SceneReturn::Good);
    assert_eq!(s.advance(), SceneReturn::Good);
    assert_eq!(s.index(), 3);
    assert_eq!(s.advance(), SceneReturn::Finished);
    assert_eq!(s.index(), 0);
    let mut empty = Slides::new(0);
    assert_eq!(empty.advance(), SceneReturn::Finished);
}

#[test]
fn planes_are_handed_out_once() {
    let mut m = PlaneManager::new();
    assert_eq!(m.peek_next(), 0);
    assert_eq!(m.next_z_plane(), 0);
    assert_eq!(m.next_z_plane(), 1);
    assert_eq!(m.peek_next(), 2);
}
