//! The grid of cells that the game is played on, its generation from level
//! keys, and the per-turn decay of temporary land conditions.

use vstd::prelude::*;
use crate::terrain::{
    Terrain, TerrainStatus, terrain_of_key, condition_of_key, initial_counter_of, to_terrain,
    to_condition,
};
use crate::levels::{Levels, key_chars, level_one_conditions, level_one_land};

verus! {

/// A grid coordinate: column `x`, row `y`.
#[derive(Debug, PartialEq, Eq, Clone, Copy, Structural)]
pub struct Pos {
    pub x: usize,
    pub y: usize,
}

/// What a cell holds, as plain values.
pub struct CellView {
    pub pos: Pos,
    pub land: Terrain,
    pub condition: TerrainStatus,
    pub counter: u32,
}

/// A cell whose counter has run out is `Normal`, and a running counter
/// always belongs to a condition other than `Normal`.
pub open spec fn counter_consistent(v: CellView) -> bool {
    &&& v.counter == 0 ==> v.condition == TerrainStatus::Normal
    &&& v.counter > 0 ==> v.condition != TerrainStatus::Normal
}

/// A cell after one turn of decay: a burning or frozen cell loses one turn of
/// its counter, and when the counter is spent the condition returns to
/// `Normal`; spent fire leaves the land `Destroyed`.
pub open spec fn decayed(v: CellView) -> CellView {
    let left: u32 = if v.counter > 0 { (v.counter - 1) as u32 } else { 0 };
    match v.condition {
        TerrainStatus::Burning => if left == 0 {
            CellView { land: Terrain::Destroyed, condition: TerrainStatus::Normal, counter: 0, ..v }
        } else {
            CellView { counter: left, ..v }
        },
        TerrainStatus::Frozen => if left == 0 {
            CellView { condition: TerrainStatus::Normal, counter: 0, ..v }
        } else {
            CellView { counter: left, ..v }
        },
        _ => v,
    }
}

/// One square of the board: its position, land, condition, and the number of
/// turns the condition has left.
#[derive(Debug, Clone, Copy)]
pub struct Cell {
    pos: Pos,
    land: Terrain,
    condition: TerrainStatus,
    cond_counter: u32,
}

impl View for Cell {
    type V = CellView;

    closed spec fn view(&self) -> CellView {
        CellView {
            pos: self.pos,
            land: self.land,
            condition: self.condition,
            counter: self.cond_counter,
        }
    }
}

impl Cell {
    #[verifier::type_invariant]
    spec fn inv(self) -> bool {
        counter_consistent(self@)
    }

    /// A plain cell in normal condition at the origin.
    pub fn new() -> (r: Self)
        ensures
            r@ == (CellView {
                pos: Pos { x: 0, y: 0 },
                land: Terrain::Plain,
                condition: TerrainStatus::Normal,
                counter: 0,
            }),
    {
        Cell { pos: Pos { x: 0, y: 0 }, land: Terrain::Plain, condition: TerrainStatus::Normal, cond_counter: 0 }
    }

    pub fn get_land(&self) -> (r: Terrain)
        ensures
            r == self@.land,
    {
        self.land
    }

    /// The condition; a cell's counter and condition always agree.
    pub fn get_cond(&self) -> (r: TerrainStatus)
        ensures
            r == self@.condition,
            counter_consistent(self@),
    {
        proof {
            use_type_invariant(self);
        }
        self.condition
    }

    /// The turns the condition has left; a cell's counter and condition
    /// always agree.
    pub fn get_counter(&self) -> (r: u32)
        ensures
            r == self@.counter,
            counter_consistent(self@),
    {
        proof {
            use_type_invariant(self);
        }
        self.cond_counter
    }

    pub fn get_pos(&self) -> (r: Pos)
        ensures
            r == self@.pos,
    {
        self.pos
    }

    pub fn set_land(&mut self, terrain: Terrain)
        ensures
            final(self)@ == (CellView { land: terrain, ..old(self)@ }),
    {
        proof {
            use_type_invariant(&*self);
        }
        *self = Cell { land: terrain, ..*self };
    }

    /// Applies a condition at its initial strength (see `initial_counter`).
    pub fn set_cond(&mut self, terrain_status: TerrainStatus)
        ensures
            final(self)@ == (CellView {
                condition: terrain_status,
                counter: initial_counter_of(terrain_status),
                ..old(self)@
            }),
    {
        *self = Cell { condition: terrain_status, cond_counter: terrain_status.initial_counter(), ..*self };
    }

    /// Takes one turn off the counter if it runs; a counter that reaches 0
    /// returns the condition to `Normal`.
    pub fn decr_counter(&mut self)
        ensures
            old(self)@.counter == 0 ==> final(self)@ == old(self)@,
            old(self)@.counter == 1 ==> final(self)@ == (CellView {
                condition: TerrainStatus::Normal,
                counter: 0,
                ..old(self)@
            }),
            old(self)@.counter > 1 ==> final(self)@ == (CellView {
                counter: (old(self)@.counter - 1) as u32,
                ..old(self)@
            }),
    {
        proof {
            use_type_invariant(&*self);
        }
        if self.cond_counter > 0 {
            if self.cond_counter == 1 {
                *self = Cell { condition: TerrainStatus::Normal, cond_counter: 0, ..*self };
            } else {
                *self = Cell { cond_counter: self.cond_counter - 1, ..*self };
            }
        }
    }

    /// Adds one turn to a running counter of a condition other than `Normal`
    /// (a `Normal` cell stays as it is); the counter saturates at
    /// `u32::MAX`.
    pub fn inc_counter(&mut self)
        ensures
            (old(self)@.counter > 0 && old(self)@.condition != TerrainStatus::Normal
                && old(self)@.counter < u32::MAX) ==> final(self)@ == (CellView {
                counter: (old(self)@.counter + 1) as u32,
                ..old(self)@
            }),
            !(old(self)@.counter > 0 && old(self)@.condition != TerrainStatus::Normal
                && old(self)@.counter < u32::MAX) ==> final(self)@ == old(self)@,
    {
        proof {
            use_type_invariant(&*self);
        }
        if self.cond_counter > 0 && self.condition != TerrainStatus::Normal && self.cond_counter
            < u32::MAX {
            *self = Cell { cond_counter: self.cond_counter + 1, ..*self };
        }
    }

    /// Clears the condition without the effects of it running out.
    pub fn reset_cond(&mut self)
        ensures
            final(self)@ == (CellView { condition: TerrainStatus::Normal, counter: 0, ..old(self)@ }),
    {
        *self = Cell { condition: TerrainStatus::Normal, cond_counter: 0, ..*self };
    }

    /// One turn of decay (see `decayed`).
    fn decay(&mut self)
        ensures
            final(self)@ == decayed(old(self)@),
    {
        proof {
            use_type_invariant(&*self);
        }
        let left = if self.cond_counter > 0 {
            self.cond_counter - 1
        } else {
            0
        };
        match self.condition {
            TerrainStatus::Burning => {
                if left == 0 {
                    *self = Cell {
                        land: Terrain::Destroyed,
                        condition: TerrainStatus::Normal,
                        cond_counter: 0,
                        ..*self
                    };
                } else {
                    *self = Cell { cond_counter: left, ..*self };
                }
            },
            TerrainStatus::Frozen => {
                if left == 0 {
                    *self = Cell { condition: TerrainStatus::Normal, cond_counter: 0, ..*self };
                } else {
                    *self = Cell { cond_counter: left, ..*self };
                }
            },
            _ => {},
        }
    }
}

/// Why a level could not be turned into a board.
#[derive(Debug, PartialEq, Eq, Clone, Copy, Structural)]
pub enum MapError {
    /// A key grid does not hold exactly width × height keys.
    WrongSize,
    /// A land key is not one of the known keys.
    UnknownTerrainKey,
    /// A condition key is not one of the known keys.
    UnknownConditionKey,
}

/// The error that the first `n` cells of a level give, if any: cells are
/// read in order, and in each cell the land key before the condition key.
pub open spec fn key_error(level: Seq<String>, conds: Seq<String>, n: int) -> Option<MapError>
    decreases n,
{
    if n <= 0 {
        None
    } else {
        match key_error(level, conds, n - 1) {
            Some(e) => Some(e),
            None => if terrain_of_key(level[n - 1]@) is None {
                Some(MapError::UnknownTerrainKey)
            } else if condition_of_key(conds[n - 1]@) is None {
                Some(MapError::UnknownConditionKey)
            } else {
                None
            },
        }
    }
}

/// The cell that a level's keys give at column `x`, row `y`.
pub open spec fn cell_from_keys(x: int, y: int, land_key: String, cond_key: String) -> CellView {
    CellView {
        pos: Pos { x: x as usize, y: y as usize },
        land: terrain_of_key(land_key@).unwrap(),
        condition: condition_of_key(cond_key@).unwrap(),
        counter: initial_counter_of(condition_of_key(cond_key@).unwrap()),
    }
}

/// The positions that `keep` selects among the first `n` columns of row `y`,
/// from left to right.
pub open spec fn scan_row(y: int, n: int, keep: spec_fn(Pos) -> bool) -> Seq<Pos>
    decreases n,
{
    if n <= 0 {
        seq![]
    } else {
        let p = Pos { x: (n - 1) as usize, y: y as usize };
        scan_row(y, n - 1, keep) + if keep(p) {
            seq![p]
        } else {
            seq![]
        }
    }
}

/// `after` is `before` one turn of decay later: the same shape, each cell
/// decayed (see `decayed`).
pub open spec fn board_decayed(before: GameBoard, after: GameBoard) -> bool {
    &&& after.height() == before.height()
    &&& forall|y: int| 0 <= y < before.height() ==> after.row_len(y) == before.row_len(y)
    &&& forall|x: int, y: int|
        0 <= y < before.height() && 0 <= x < before.row_len(y) ==> #[trigger] after.cell(x, y)
            == decayed(before.cell(x, y))
}

/// The cell that the key characters `land` and `cond` give at column `x`,
/// row `y`.
pub open spec fn cell_from_chars(x: int, y: int, land: char, cond: char) -> CellView {
    CellView {
        pos: Pos { x: x as usize, y: y as usize },
        land: terrain_of_key(seq![land]).unwrap(),
        condition: condition_of_key(seq![cond]).unwrap(),
        counter: initial_counter_of(condition_of_key(seq![cond]).unwrap()),
    }
}

/// Whether `b` is the board of the first level: 15 rows of 19 cells, each
/// as its keys give it.
pub open spec fn is_level_one(b: GameBoard) -> bool {
    &&& b.wf()
    &&& b.height() == 15
    &&& b.width() == 19
    &&& forall|y: int| 0 <= y < 15 ==> b.row_len(y) == 19
    &&& forall|x: int, y: int|
        0 <= y < 15 && 0 <= x < 19 ==> #[trigger] b.cell(x, y) == cell_from_chars(
            x,
            y,
            level_one_land()[y * 19 + x],
            level_one_conditions()[y * 19 + x],
        )
}

/// The board: rows of cells, indexed `[y][x]`.
pub struct GameBoard {
    board: Vec<Vec<Cell>>,
}

impl GameBoard {
    /// The rows of the board.
    pub closed spec fn rows(&self) -> Vec<Vec<Cell>> {
        self.board
    }

    pub open spec fn height(&self) -> int {
        self.rows()@.len() as int
    }

    pub open spec fn row_len(&self, y: int) -> int {
        self.rows()@[y]@.len() as int
    }

    /// The number of columns, read from the first row.
    pub open spec fn width(&self) -> int {
        if self.height() > 0 {
            self.row_len(0)
        } else {
            0
        }
    }

    pub open spec fn cell(&self, x: int, y: int) -> CellView {
        self.rows()@[y]@[x]@
    }

    /// Whether `p` names a cell of the board.
    pub open spec fn in_bounds(&self, p: Pos) -> bool {
        p.y < self.height() && p.x < self.row_len(p.y as int)
    }

    /// Whether `p` names a cell that abilities may target: any cell of the
    /// board whose land is not `Empty`.
    pub open spec fn attackable(&self, p: Pos) -> bool {
        self.in_bounds(p) && self.cell(p.x as int, p.y as int).land != Terrain::Empty
    }

    /// The positions that `keep` selects among the first `n` rows, read row by
    /// row and each row from left to right.
    pub open spec fn scan_rows(&self, n: int, keep: spec_fn(Pos) -> bool) -> Seq<Pos>
        decreases n,
    {
        if n <= 0 {
            seq![]
        } else {
            self.scan_rows(n - 1, keep) + scan_row(n - 1, self.row_len(n - 1), keep)
        }
    }

    /// The positions of the board that `keep` selects, in reading order.
    pub open spec fn scan(&self, keep: spec_fn(Pos) -> bool) -> Seq<Pos> {
        self.scan_rows(self.height(), keep)
    }

    /// Rows of equal length, each cell holding its own position.
    pub open spec fn wf(&self) -> bool {
        &&& forall|y: int| 0 <= y < self.height() ==> self.row_len(y) == self.width()
        &&& forall|x: int, y: int|
            0 <= y < self.height() && 0 <= x < self.row_len(y) ==> (#[trigger] self.cell(x, y)).pos
                == (Pos { x: x as usize, y: y as usize })
    }

    /// The board of the first level: 19 columns by 15 rows, read from its
    /// key grids.
    pub fn new() -> (r: Self)
        ensures
            is_level_one(r),
    {
        let levels = Levels::new();
        let (level, conds) = levels.get_level(1).unwrap();
        proof {
            assert forall|i: int| 0 <= i < 285 implies terrain_of_key((#[trigger] level@[i])@) is Some
                && level@[i]@ == seq![level_one_land()[i]] by {
                assert(key_chars(level@)[i] == level@[i]@[0]);
                assert(level@[i]@ =~= seq![level@[i]@[0]]);
            }
            assert forall|i: int| 0 <= i < 285 implies condition_of_key((#[trigger] conds@[i])@) is Some
                && conds@[i]@ == seq![level_one_conditions()[i]] by {
                assert(key_chars(conds@)[i] == conds@[i]@[0]);
                assert(conds@[i]@ =~= seq![conds@[i]@[0]]);
            }
            lemma_key_error_none(level@, conds@, 285);
        }
        let r = generate_map(19, 15, &level, &conds);
        assert forall|x: int, y: int| 0 <= y < 15 && 0 <= x < 19 implies #[trigger] r.cell(x, y)
            == cell_from_chars(x, y, level_one_land()[y * 19 + x], level_one_conditions()[y * 19 + x]) by {
            assert(0 <= y * 19 + x < 285);
            assert(level@[y * 19 + x]@ == seq![level_one_land()[y * 19 + x]]);
            assert(conds@[y * 19 + x]@ == seq![level_one_conditions()[y * 19 + x]]);
        }
        r
    }

    pub fn get_board(&self) -> (r: &Vec<Vec<Cell>>)
        ensures
            *r == self.rows(),
    {
        &self.board
    }

    pub fn get_mut_board(&mut self) -> (r: &mut Vec<Vec<Cell>>)
        ensures
            *r == old(self).rows(),
            final(self).rows() == *final(r),
    {
        &mut self.board
    }

    /// The cell at column `x`, row `y`.
    pub fn cell_at(&self, x: usize, y: usize) -> (r: &Cell)
        requires
            self.in_bounds(Pos { x, y }),
        ensures
            *r == self.rows()@[y as int]@[x as int],
    {
        &self.board[y][x]
    }

    /// Advances every cell by one turn of decay (see `decayed`).
    pub fn decrement_temp_cond_counters(&mut self)
        ensures
            board_decayed(*old(self), *final(self)),
    {
        let next = self.decayed_copy();
        *self = next;
    }

    /// This board one turn of decay later.
    pub(crate) fn decayed_copy(&self) -> (r: GameBoard)
        ensures
            board_decayed(*self, r),
    {
        let ghost old_board = self.rows();
        let mut next: Vec<Vec<Cell>> = Vec::new();
        let mut y: usize = 0;
        while y < self.board.len()
            invariant
                self.board == old_board,
                y <= old_board@.len(),
                next@.len() == y,
                forall|j: int| 0 <= j < y ==> next@[j]@.len() == old_board@[j]@.len(),
                forall|i: int, j: int|
                    0 <= j < y && 0 <= i < old_board@[j]@.len() ==> #[trigger] next@[j]@[i]@
                        == decayed(old_board@[j]@[i]@),
            decreases old_board@.len() - y,
        {
            let mut row: Vec<Cell> = Vec::new();
            let mut x: usize = 0;
            while x < self.board[y].len()
                invariant
                    self.board == old_board,
                    y < old_board@.len(),
                    x <= old_board@[y as int]@.len(),
                    row@.len() == x,
                    forall|i: int| 0 <= i < x ==> #[trigger] row@[i]@ == decayed(old_board@[y as int]@[i]@),
                decreases old_board@[y as int]@.len() - x,
            {
                let mut c = self.board[y][x];
                c.decay();
                row.push(c);
                x = x + 1;
            }
            next.push(row);
            y = y + 1;
        }
        GameBoard { board: next }
    }
}

/// Whether two key grids describe a board of `width` columns and `height`
/// rows: each holds exactly width × height keys, and every key is known.
pub open spec fn level_valid(width: int, height: int, level: Seq<String>, conds: Seq<String>) -> bool {
    &&& level.len() == width * height
    &&& conds.len() == width * height
    &&& key_error(level, conds, width * height) is None
}

/// Checks two key grids before a board is built from them (see
/// `generate_map`): `WrongSize` when a grid does not hold exactly
/// width × height keys, else the error of the first unknown key, else `Ok`.
pub fn check_level(width: usize, height: usize, level: &Vec<String>, level_condition: &Vec<String>) -> (r: Result<(), MapError>)
    ensures
        (level@.len() != width * height || level_condition@.len() != width * height) ==> r
            == Err::<(), MapError>(MapError::WrongSize),
        (level@.len() == width * height && level_condition@.len() == width * height && key_error(
            level@,
            level_condition@,
            width * height,
        ) is Some) ==> r == Err::<(), MapError>(
            key_error(level@, level_condition@, width * height).unwrap(),
        ),
        r is Ok <==> level_valid(width as int, height as int, level@, level_condition@),
{
    let level_len = level.len();
    let cond_len = level_condition.len();
    let n = match width.checked_mul(height) {
        Some(n) => n,
        None => {
            return Err(MapError::WrongSize);
        },
    };
    if level_len != n || cond_len != n {
        return Err(MapError::WrongSize);
    }
    let mut i: usize = 0;
    while i < n
        invariant
            n == width * height,
            level@.len() == n,
            level_condition@.len() == n,
            i <= n,
            key_error(level@, level_condition@, i as int) is None,
        decreases n - i,
    {
        if to_terrain(level[i].as_str()).is_none() {
            proof {
                lemma_key_error_stable(level@, level_condition@, i + 1, n as int);
            }
            return Err(MapError::UnknownTerrainKey);
        }
        if to_condition(level_condition[i].as_str()).is_none() {
            proof {
                lemma_key_error_stable(level@, level_condition@, i + 1, n as int);
            }
            return Err(MapError::UnknownConditionKey);
        }
        i = i + 1;
    }
    Ok(())
}

/// Builds a board of `width` columns and `height` rows from two key grids
/// read row by row, one land key and one condition key per cell. Each
/// condition starts at its initial strength (see `initial_counter`). Level
/// data that does not fit is a build error: `check_level` finds it.
pub fn generate_map(width: usize, height: usize, level: &Vec<String>, level_condition: &Vec<String>) -> (r: GameBoard)
    requires
        level_valid(width as int, height as int, level@, level_condition@),
    ensures
        r.wf(),
        r.height() == height,
        forall|y: int| 0 <= y < height ==> r.row_len(y) == width,
        forall|x: int, y: int|
            0 <= y < height && 0 <= x < width ==> #[trigger] r.cell(x, y) == cell_from_keys(
                x,
                y,
                level@[y * width + x],
                level_condition@[y * width + x],
            ),
{
    let n = level.len();
    let mut map: Vec<Vec<Cell>> = Vec::new();
    let mut i: usize = 0;
    let mut y: usize = 0;
    while y < height
        invariant
            n == width * height,
            level@.len() == n,
            level_condition@.len() == n,
            y <= height,
            i == y * width,
            key_error(level@, level_condition@, i as int) is None,
            key_error(level@, level_condition@, n as int) is None,
            map@.len() == y,
            forall|j: int| 0 <= j < y ==> #[trigger] map@[j]@.len() == width,
            forall|a: int, j: int|
                0 <= j < y && 0 <= a < width ==> #[trigger] map@[j]@[a]@ == cell_from_keys(
                    a,
                    j,
                    level@[j * width + a],
                    level_condition@[j * width + a],
                ),
        decreases height - y,
    {
        proof {
            assert(y * width + width <= height * width) by (nonlinear_arith)
                requires
                    y < height,
            ;
        }
        let mut row: Vec<Cell> = Vec::new();
        let mut x: usize = 0;
        while x < width
            invariant
                n == width * height,
                level@.len() == n,
                level_condition@.len() == n,
                y < height,
                y * width + width <= n,
                x <= width,
                i == y * width + x,
                key_error(level@, level_condition@, i as int) is None,
                key_error(level@, level_condition@, n as int) is None,
                row@.len() == x,
                forall|a: int| 0 <= a < x ==> #[trigger] row@[a]@ == cell_from_keys(
                    a,
                    y as int,
                    level@[y * width + a],
                    level_condition@[y * width + a],
                ),
            decreases width - x,
        {
            proof {
                assert(i < n) by (nonlinear_arith)
                    requires
                        i == y * width + x,
                        x < width,
                        y * width + width <= n,
                ;
            }
            proof {
                if key_error(level@, level_condition@, i + 1) is Some {
                    lemma_key_error_stable(level@, level_condition@, i + 1, n as int);
                }
            }
            let land = to_terrain(level[i].as_str()).unwrap();
            let condition = to_condition(level_condition[i].as_str()).unwrap();
            let cell = Cell {
                pos: Pos { x, y },
                land,
                condition,
                cond_counter: condition.initial_counter(),
            };
            row.push(cell);
            x = x + 1;
            i = i + 1;
        }
        map.push(row);
        y = y + 1;
        proof {
            assert(i == y * width) by (nonlinear_arith)
                requires
                    i == (y - 1) * width + width,
            ;
        }
    }
    let r = GameBoard { board: map };
    assert(i == n) by (nonlinear_arith)
        requires
            i == y * width,
            y == height,
            n == width * height,
    ;
    assert forall|x: int, y: int| 0 <= y < height && 0 <= x < width implies #[trigger] r.cell(x, y)
        == cell_from_keys(x, y, level@[y * width + x], level_condition@[y * width + x]) by {
        assert(r.cell(x, y) == map@[y]@[x]@);
    }
    assert forall|y: int| 0 <= y < height implies r.row_len(y) == width by {
        assert(map@[y]@.len() == width);
    }
    r
}

/// A level whose first `n` keys are all known has no key error there.
proof fn lemma_key_error_none(level: Seq<String>, conds: Seq<String>, n: int)
    requires
        n <= level.len(),
        n <= conds.len(),
        forall|i: int| 0 <= i < n ==> terrain_of_key((#[trigger] level[i])@) is Some,
        forall|i: int| 0 <= i < n ==> condition_of_key((#[trigger] conds[i])@) is Some,
    ensures
        key_error(level, conds, n) is None,
    decreases n,
{
    if n > 0 {
        lemma_key_error_none(level, conds, n - 1);
    }
}

/// Once a prefix of the level has an error, every longer prefix has the same
/// one.
proof fn lemma_key_error_stable(level: Seq<String>, conds: Seq<String>, m: int, k: int)
    requires
        0 <= m <= k,
        key_error(level, conds, m) is Some,
    ensures
        key_error(level, conds, k) == key_error(level, conds, m),
    decreases k - m,
{
    if k > m {
        lemma_key_error_stable(level, conds, m, k - 1);
    }
}

} // verus!
