use elder_god::board::{check_level, generate_map, Cell, GameBoard, MapError, Pos};
use elder_god::entities::{ClassType, Entity, PlayerType};
use elder_god::levels::Levels;
use elder_god::terrain::{Terrain, TerrainStatus};

fn keys(rows: &[&str]) -> Vec<String> {
    rows.iter().flat_map(|r| r.chars().map(|c| c.to_string())).collect()
}

fn board(rows: &[&str], conds: &[&str]) -> GameBoard {
    let w = rows[0].chars().count();
    let (t, c) = (keys(rows), keys(conds));
    assert_eq!(check_level(w, rows.len(), &t, &c), Ok(()));
    generate_map(w, rows.len(), &t, &c)
}

fn plain_board(w: usize, h: usize) -> GameBoard {
    let t = vec!["#".to_string(); w * h];
    let c = vec!["N".to_string(); w * h];
    assert_eq!(check_level(w, h, &t, &c), Ok(()));
    generate_map(w, h, &t, &c)
}

#[test]
fn plain_board_has_plain_normal_cells_and_free_movement() {
    let b = plain_board(19, 15);
    let rows = b.get_board();
    assert_eq!(rows.len(), 15);
    for (y, row) in rows.iter().enumerate() {
        assert_eq!(row.len(), 19);
        for (x, cell) in row.iter().enumerate() {
            assert_eq!(cell.get_land(), Terrain::Plain);
            assert_eq!(cell.get_cond(), TerrainStatus::Normal);
            assert_eq!(cell.get_counter(), 0);
            assert_eq!(cell.get_pos(), Pos { x, y });
        }
    }
    for (fx, fy) in [(0usize, 0usize), (9, 7), (18, 14), (3, 12)] {
        let mover = Entity::new_char(ClassType::Assault, PlayerType::Player2, 1, Pos { x: fx, y: fy }, false);
        let players = vec![mover];
        for y in 0..15 {
            for x in 0..19 {
                if (x, y) != (fx, fy) {
                    assert!(mover.can_move(Pos { x, y }, &b, &players), "({x},{y}) from ({fx},{fy})");
                }
            }
        }
    }
}

#[test]
fn generation_reads_keys_row_by_row() {
    let b = board(&["R#F", "AC-"], &["NBF", "S-N"]);
    let c = b.cell_at(2, 0);
    assert_eq!(c.get_land(), Terrain::Forest);
    assert_eq!(c.get_cond(), TerrainStatus::Frozen);
    assert_eq!(c.get_counter(), 6);
    let c = b.cell_at(1, 0);
    assert_eq!(c.get_land(), Terrain::Plain);
    assert_eq!(c.get_cond(), TerrainStatus::Burning);
    assert_eq!(c.get_counter(), 5);
    let c = b.cell_at(0, 1);
    assert_eq!(c.get_land(), Terrain::Mountain);
    assert_eq!(c.get_cond(), TerrainStatus::Shielded);
    assert_eq!(c.get_counter(), 1);
    let c = b.cell_at(1, 1);
    assert_eq!(c.get_land(), Terrain::City);
    assert_eq!(c.get_cond(), TerrainStatus::Impassable);
    assert_eq!(c.get_counter(), 1);
    assert_eq!(b.cell_at(2, 1).get_land(), Terrain::Empty);
    assert_eq!(b.cell_at(2, 1).get_pos(), Pos { x: 2, y: 1 });
}

#[test]
fn generation_refuses_wrong_sizes() {
    let t = vec!["#".to_string(); 6];
    let c = vec!["N".to_string(); 6];
    assert_eq!(check_level(3, 3, &t, &c), Err(MapError::WrongSize));
    let short = vec!["N".to_string(); 5];
    assert_eq!(check_level(3, 2, &t, &short), Err(MapError::WrongSize));
    let long = vec!["#".to_string(); 7];
    assert_eq!(check_level(3, 2, &long, &c), Err(MapError::WrongSize));
    assert_eq!(check_level(usize::MAX, 2, &t, &c), Err(MapError::WrongSize));
    assert_eq!(check_level(3, 2, &t, &c), Ok(()));
}

#[test]
fn generation_refuses_unknown_keys() {
    let r = check_level(2, 1, &keys(&["#Q"]), &keys(&["NN"]));
    assert_eq!(r, Err(MapError::UnknownTerrainKey));
    let r = check_level(2, 1, &keys(&["##"]), &keys(&["NQ"]));
    assert_eq!(r, Err(MapError::UnknownConditionKey));
    // The first bad cell decides, land before condition.
    let r = check_level(2, 1, &keys(&["#Q"]), &keys(&["QN"]));
    assert_eq!(r, Err(MapError::UnknownConditionKey));
    let r = check_level(2, 1, &keys(&["Q#"]), &keys(&["QN"]));
    assert_eq!(r, Err(MapError::UnknownTerrainKey));
}

#[test]
fn empty_board_generates() {
    assert_eq!(check_level(0, 0, &Vec::new(), &Vec::new()), Ok(()));
    let b = generate_map(0, 0, &Vec::new(), &Vec::new());
    assert_eq!(b.get_board().len(), 0);
}

#[test]
fn burning_cell_burns_out_after_five_turns() {
    let mut b = board(&["#"], &["B"]);
    for left in (1..5).rev() {
        b.decrement_temp_cond_counters();
        let c = b.cell_at(0, 0);
        assert_eq!(c.get_cond(), TerrainStatus::Burning);
        assert_eq!(c.get_land(), Terrain::Plain);
        assert_eq!(c.get_counter(), left);
    }
    b.decrement_temp_cond_counters();
    let c = *b.cell_at(0, 0);
    assert_eq!(c.get_cond(), TerrainStatus::Normal);
    assert_eq!(c.get_land(), Terrain::Destroyed);
    assert_eq!(c.get_counter(), 0);
    b.decrement_temp_cond_counters();
    let d = b.cell_at(0, 0);
    assert_eq!(d.get_cond(), TerrainStatus::Normal);
    assert_eq!(d.get_land(), Terrain::Destroyed);
    assert_eq!(d.get_counter(), 0);
}

#[test]
fn frozen_cell_thaws_and_others_stay() {
    let mut b = board(&["FR-#"], &["FS-N"]);
    for _ in 0..5 {
        b.decrement_temp_cond_counters();
    }
    assert_eq!(b.cell_at(0, 0).get_cond(), TerrainStatus::Frozen);
    assert_eq!(b.cell_at(0, 0).get_counter(), 1);
    b.decrement_temp_cond_counters();
    assert_eq!(b.cell_at(0, 0).get_cond(), TerrainStatus::Normal);
    assert_eq!(b.cell_at(0, 0).get_land(), Terrain::Forest);
    // Shields and impassable cells do not decay with the board.
    assert_eq!(b.cell_at(1, 0).get_cond(), TerrainStatus::Shielded);
    assert_eq!(b.cell_at(1, 0).get_counter(), 1);
    assert_eq!(b.cell_at(2, 0).get_cond(), TerrainStatus::Impassable);
    assert_eq!(b.cell_at(2, 0).get_counter(), 1);
    assert_eq!(b.cell_at(3, 0).get_cond(), TerrainStatus::Normal);
}

#[test]
fn cell_condition_changes() {
    let mut c = Cell::new();
    assert_eq!(c.get_land(), Terrain::Plain);
    assert_eq!(c.get_cond(), TerrainStatus::Normal);
    assert_eq!(c.get_pos(), Pos { x: 0, y: 0 });
    c.inc_counter();
    assert_eq!(c.get_counter(), 0);
    c.set_cond(TerrainStatus::Burning);
    assert_eq!(c.get_counter(), 5);
    c.inc_counter();
    assert_eq!(c.get_counter(), 6);
    for _ in 0..5 {
        c.decr_counter();
    }
    assert_eq!(c.get_cond(), TerrainStatus::Burning);
    c.decr_counter();
    assert_eq!(c.get_cond(), TerrainStatus::Normal);
    assert_eq!(c.get_counter(), 0);
    c.decr_counter();
    assert_eq!(c.get_counter(), 0);
    c.set_cond(TerrainStatus::Shielded);
    assert_eq!(c.get_counter(), 1);
    c.reset_cond();
    assert_eq!(c.get_cond(), TerrainStatus::Normal);
    assert_eq!(c.get_counter(), 0);
    c.set_cond(TerrainStatus::Impassable);
    assert_eq!(c.get_counter(), 1);
    c.inc_counter();
    assert_eq!(c.get_cond(), TerrainStatus::Impassable);
    assert_eq!(c.get_counter(), 2);
    c.set_land(Terrain::Wall);
    assert_eq!(c.get_land(), Terrain::Wall);
}

#[test]
fn first_level_board_is_nineteen_by_fifteen() {
    let b = GameBoard::new();
    let rows = b.get_board();
    assert_eq!(rows.len(), 15);
    assert!(rows.iter().all(|r| r.len() == 19));
    assert_eq!(b.cell_at(0, 0).get_land(), Terrain::Empty);
    assert_eq!(b.cell_at(0, 0).get_cond(), TerrainStatus::Impassable);
    assert_eq!(b.cell_at(0, 0).get_counter(), 1);
    assert_eq!(b.cell_at(9, 11).get_land(), Terrain::Plain);
    assert_eq!(b.cell_at(13, 6).get_land(), Terrain::City);
    assert_eq!(b.cell_at(8, 4).get_land(), Terrain::Spikes);
}

#[test]
fn levels_hold_one_layout() {
    let l = Levels::new();
    let (t, c) = l.get_level(1).expect("level 1");
    assert_eq!(t.len(), 285);
    assert_eq!(c.len(), 285);
    assert!(t.iter().chain(c.iter()).all(|k| k.chars().count() == 1));
    assert_eq!(t[19 * 11 + 9], "#");
    assert!(l.get_level(0).is_none());
    assert!(l.get_level(2).is_none());
}

#[test]
fn mutable_board_access_reaches_cells() {
    let mut b = plain_board(2, 2);
    b.get_mut_board()[1][0].set_cond(TerrainStatus::Frozen);
    assert_eq!(b.cell_at(0, 1).get_cond(), TerrainStatus::Frozen);
    assert_eq!(b.cell_at(0, 1).get_counter(), 6);
}
