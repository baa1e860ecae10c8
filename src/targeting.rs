//! Which cells an ability reaches: movement and attack legality, the area
//! and line shapes that abilities are built from, and the table that gives
//! each class's abilities their shapes.

use vstd::prelude::*;
use crate::board::{GameBoard, Pos, scan_row};
use crate::entities::{ActionAbility, ClassType, Entity, EntityView, PlayerType};
use crate::terrain::{Terrain, blocks_movement};

verus! {

/// A facing on the board; `Up` is towards row 0.
#[derive(Debug, PartialEq, Eq, Clone, Copy, Structural)]
pub enum Direction {
    Up,
    Right,
    Left,
    Down,
}

/// The shape of an ability's reach, with its parameters.
#[derive(Debug, PartialEq, Eq, Clone, Copy, Structural)]
pub enum Shape {
    /// Cells at distance 1 to `range` from the actor.
    AdjacentRange(u32),
    /// Cells at distance 0 to `range` from the actor.
    AdjacentRadial(u32),
    /// Cells at distance exactly `range` from the actor.
    AdjacentShell(u32),
    /// The cells of the actor's side.
    Allies,
    /// A beam of `range` steps that passes through obstacles.
    LineRange(u32),
    /// A shot of `range` steps that lodges in the first obstacle.
    LineCast(u32),
    /// A throw of `range` steps that bursts with `radius` at the first
    /// obstacle or at the end of its flight.
    LineRadialCast(u32, u32),
    /// A burst of `radius` exactly `range` steps away, sparing the actor.
    LineRadial(u32, u32),
}

pub open spec fn abs(v: int) -> int {
    if v < 0 {
        -v
    } else {
        v
    }
}

/// The Manhattan distance from the point (`ax`, `ay`) to `p`.
pub open spec fn manhattan(ax: int, ay: int, p: Pos) -> int {
    abs(p.x - ax) + abs(p.y - ay)
}

/// Selects the targetable cells whose distance from (`ax`, `ay`) lies in
/// `[lo, hi]`, other than `skip`.
pub open spec fn area_keep(board: GameBoard, ax: int, ay: int, lo: int, hi: int, skip: Option<Pos>) -> spec_fn(Pos) -> bool {
    |p: Pos| lo <= manhattan(ax, ay, p) <= hi && board.attackable(p) && skip != Some(p)
}

/// The targetable cells whose distance from (`ax`, `ay`) lies in `[lo, hi]`,
/// other than `skip`, in reading order. The point itself may lie off the
/// board.
pub open spec fn area(board: GameBoard, ax: int, ay: int, lo: int, hi: int, skip: Option<Pos>) -> Seq<Pos> {
    board.scan(area_keep(board, ax, ay, lo, hi, skip))
}

/// The coordinates `k` steps from `p` towards `d`.
pub open spec fn stepped(p: Pos, d: Direction, k: int) -> (int, int) {
    match d {
        Direction::Up => (p.x as int, p.y - k),
        Direction::Down => (p.x as int, p.y + k),
        Direction::Left => (p.x - k, p.y as int),
        Direction::Right => (p.x + k, p.y as int),
    }
}

/// Whether the coordinates name a cell of the board.
pub open spec fn on_board(board: GameBoard, c: (int, int)) -> bool {
    0 <= c.1 < board.height() && 0 <= c.0 < board.row_len(c.1)
}

pub open spec fn pos_of(c: (int, int)) -> Pos {
    Pos { x: c.0 as usize, y: c.1 as usize }
}

/// Whether a tangible actor stands on `p`.
pub open spec fn occupied(players: Seq<Entity>, p: Pos) -> bool {
    exists|i: int| 0 <= i < players.len() && (#[trigger] players[i])@.tangible && players[i]@.pos == p
}

/// Whether an actor (tangible or not) may step onto `p`: never off the board
/// or onto `Empty` land; a tangible actor also not onto a frozen, shielded or
/// impassable cell, nor onto a tangible actor.
pub open spec fn movable(board: GameBoard, players: Seq<Entity>, tangible: bool, p: Pos) -> bool {
    &&& board.attackable(p)
    &&& tangible ==> !blocks_movement(board.cell(p.x as int, p.y as int).condition) && !occupied(players, p)
}

/// The beam from `p` towards `d`, steps `k` to `n`: every targetable cell it
/// crosses, up to the edge of the board.
pub open spec fn line_range(board: GameBoard, p: Pos, d: Direction, k: int, n: int) -> Seq<Pos>
    decreases n + 1 - k,
{
    if k > n || !on_board(board, stepped(p, d, k)) {
        seq![]
    } else {
        let c = pos_of(stepped(p, d, k));
        (if board.attackable(c) {
            seq![c]
        } else {
            seq![]
        }) + line_range(board, p, d, k + 1, n)
    }
}

/// The shot from `p` towards `d`, steps `k` to `n`: every cell the mover
/// could step onto, up to the first one it could not; that one is hit too
/// when it is targetable, and the shot ends there.
pub open spec fn line_cast(board: GameBoard, players: Seq<Entity>, tangible: bool, p: Pos, d: Direction, k: int, n: int) -> Seq<Pos>
    decreases n + 1 - k,
{
    if k > n {
        seq![]
    } else {
        let c = stepped(p, d, k);
        if on_board(board, c) && movable(board, players, tangible, pos_of(c)) {
            seq![pos_of(c)] + line_cast(board, players, tangible, p, d, k + 1, n)
        } else if on_board(board, c) && board.attackable(pos_of(c)) {
            seq![pos_of(c)]
        } else {
            seq![]
        }
    }
}

/// The throw from `p` towards `d`, from step `k` on, of at most `n` steps:
/// it bursts with `radius` on the first cell the mover could not step onto,
/// or on the cell of step `n`; at the edge of the board it bursts on the
/// last cell before it, and not at all when there is none.
pub open spec fn radial_cast(board: GameBoard, players: Seq<Entity>, tangible: bool, p: Pos, d: Direction, radius: int, k: int, n: int) -> Seq<Pos>
    decreases n + 1 - k,
{
    if k > n {
        seq![]
    } else {
        let c = stepped(p, d, k);
        if !on_board(board, c) {
            if k <= 1 {
                seq![]
            } else {
                let b = stepped(p, d, k - 1);
                area(board, b.0, b.1, 0, radius, None)
            }
        } else if !movable(board, players, tangible, pos_of(c)) || k == n {
            area(board, c.0, c.1, 0, radius, None)
        } else {
            radial_cast(board, players, tangible, p, d, radius, k + 1, n)
        }
    }
}

/// The positions of the first `n` actors that belong to `team` and stand on
/// targetable cells, in the order of the actor list.
pub open spec fn allies(board: GameBoard, players: Seq<Entity>, team: PlayerType, n: int) -> Seq<Pos>
    decreases n,
{
    if n <= 0 {
        seq![]
    } else {
        let e = players[n - 1]@;
        allies(board, players, team, n - 1) + if e.player == team && board.attackable(e.pos) {
            seq![e.pos]
        } else {
            seq![]
        }
    }
}

/// The cells that `shape`, used by actor `e` facing `d`, reaches.
pub open spec fn shape_targets(e: EntityView, shape: Shape, d: Direction, board: GameBoard, players: Seq<Entity>) -> Seq<Pos> {
    match shape {
        Shape::AdjacentRange(r) => area(board, e.pos.x as int, e.pos.y as int, 1, r as int, None),
        Shape::AdjacentRadial(r) => area(board, e.pos.x as int, e.pos.y as int, 0, r as int, None),
        Shape::AdjacentShell(r) => area(board, e.pos.x as int, e.pos.y as int, r as int, r as int, None),
        Shape::Allies => allies(board, players, e.player, players.len() as int),
        Shape::LineRange(n) => line_range(board, e.pos, d, 1, n as int),
        Shape::LineCast(n) => line_cast(board, players, e.tangible, e.pos, d, 1, n as int),
        Shape::LineRadialCast(n, r) => radial_cast(board, players, e.tangible, e.pos, d, r as int, 1, n as int),
        Shape::LineRadial(n, r) => {
            let c = stepped(e.pos, d, n as int);
            area(board, c.0, c.1, 0, r as int, Some(e.pos))
        },
    }
}

/// The shape and name of ability `index` (1 to 3) of each combat class.
pub open spec fn ability_table(class: ClassType, index: u32) -> Option<(Shape, ActionAbility)> {
    match (class, index) {
        (ClassType::Support, 1) => Some((Shape::AdjacentRadial(3), ActionAbility::Bio)),
        (ClassType::Support, 2) => Some((Shape::Allies, ActionAbility::Shield)),
        (ClassType::Support, 3) => Some((Shape::AdjacentRadial(2), ActionAbility::Renew)),
        (ClassType::Assault, 1) => Some((Shape::LineRange(2), ActionAbility::Pierce)),
        (ClassType::Assault, 2) => Some((Shape::LineRadialCast(3, 1), ActionAbility::Grenade)),
        (ClassType::Assault, 3) => Some((Shape::LineRadial(3, 3), ActionAbility::Airraid)),
        (ClassType::Trapper, 1) => Some((Shape::LineRadial(1, 1), ActionAbility::Caltrop)),
        (ClassType::Trapper, 2) => Some((Shape::LineCast(6), ActionAbility::Spear)),
        (ClassType::Trapper, 3) => Some((Shape::AdjacentShell(3), ActionAbility::Cage)),
        (ClassType::Wraith, 1) => Some((Shape::AdjacentRange(1), ActionAbility::Drain)),
        (ClassType::Wraith, 2) => Some((Shape::AdjacentRange(1), ActionAbility::Decoy)),
        (ClassType::Wraith, 3) => Some((Shape::LineRadial(1, 1), ActionAbility::Rend)),
        _ => None,
    }
}

/// Whether an actor of `class` at `level` may use ability `index`: the
/// satellites unlock ability n at level n, the monster has all three.
pub open spec fn ability_unlocked(class: ClassType, level: u32, index: u32) -> bool {
    1 <= index <= 3 && match class {
        ClassType::Support | ClassType::Assault | ClassType::Trapper => level >= index,
        ClassType::Wraith => true,
        _ => false,
    }
}

/// A beam aimed up from the top row reaches no cell, whatever its range.
pub proof fn lemma_line_up_from_top_row(board: GameBoard, origin: Pos, range: int)
    requires
        origin.y == 0,
    ensures
        line_range(board, origin, Direction::Up, 1, range) == Seq::<Pos>::empty(),
{
}

/// A shell of radius 0 holds exactly the origin when the origin can be
/// targeted, and no cell otherwise.
pub proof fn lemma_shell_zero(board: GameBoard, origin: Pos)
    ensures
        area(board, origin.x as int, origin.y as int, 0, 0, None) == if board.attackable(origin) {
            seq![origin]
        } else {
            Seq::<Pos>::empty()
        },
{
    let keep = area_keep(board, origin.x as int, origin.y as int, 0, 0, None);
    assert forall|p: Pos| #[trigger] keep(p) implies p == origin by {
        assert(p.x == origin.x && p.y == origin.y);
    }
    lemma_scan_rows_single(board, board.height(), keep, origin);
}

/// When `keep` selects no position but `q`, a row holds `q` alone or
/// nothing.
proof fn lemma_scan_row_single(y: int, n: int, keep: spec_fn(Pos) -> bool, q: Pos)
    requires
        0 <= y <= usize::MAX,
        n <= usize::MAX + 1,
        forall|p: Pos| #[trigger] keep(p) ==> p == q,
    ensures
        scan_row(y, n, keep) == if keep(q) && q.y == y && q.x < n {
            seq![q]
        } else {
            Seq::<Pos>::empty()
        },
    decreases n,
{
    if n > 0 {
        lemma_scan_row_single(y, n - 1, keep, q);
        let p = Pos { x: (n - 1) as usize, y: y as usize };
        if keep(p) {
            assert(p == q);
        }
        assert(scan_row(y, n, keep) =~= if keep(q) && q.y == y && q.x < n {
            seq![q]
        } else {
            Seq::<Pos>::empty()
        });
    }
}

/// When `keep` selects no position but `q`, the first `n` rows hold `q`
/// alone or nothing.
proof fn lemma_scan_rows_single(board: GameBoard, n: int, keep: spec_fn(Pos) -> bool, q: Pos)
    requires
        n <= board.height(),
        forall|p: Pos| #[trigger] keep(p) ==> p == q,
    ensures
        board.scan_rows(n, keep) == if keep(q) && q.y < n && q.x < board.row_len(q.y as int) {
            seq![q]
        } else {
            Seq::<Pos>::empty()
        },
    decreases n,
{
    if n > 0 {
        let rows = board.rows();
        assert(rows@.len() == rows.len());
        assert(rows@[n - 1]@.len() == rows@[n - 1].len());
        lemma_scan_rows_single(board, n - 1, keep, q);
        lemma_scan_row_single(n - 1, board.row_len(n - 1), keep, q);
        assert(board.scan_rows(n, keep) =~= if keep(q) && q.y < n && q.x < board.row_len(q.y as int) {
            seq![q]
        } else {
            Seq::<Pos>::empty()
        });
    }
}

/// The shape and name of ability `action_index` of `class`; `None` for an
/// index outside 1 to 3 or a class without abilities.
pub fn ability_shape(class: ClassType, action_index: u32) -> (r: Option<(Shape, ActionAbility)>)
    ensures
        r == ability_table(class, action_index),
{
    match (class, action_index) {
        (ClassType::Support, 1) => Some((Shape::AdjacentRadial(3), ActionAbility::Bio)),
        (ClassType::Support, 2) => Some((Shape::Allies, ActionAbility::Shield)),
        (ClassType::Support, 3) => Some((Shape::AdjacentRadial(2), ActionAbility::Renew)),
        (ClassType::Assault, 1) => Some((Shape::LineRange(2), ActionAbility::Pierce)),
        (ClassType::Assault, 2) => Some((Shape::LineRadialCast(3, 1), ActionAbility::Grenade)),
        (ClassType::Assault, 3) => Some((Shape::LineRadial(3, 3), ActionAbility::Airraid)),
        (ClassType::Trapper, 1) => Some((Shape::LineRadial(1, 1), ActionAbility::Caltrop)),
        (ClassType::Trapper, 2) => Some((Shape::LineCast(6), ActionAbility::Spear)),
        (ClassType::Trapper, 3) => Some((Shape::AdjacentShell(3), ActionAbility::Cage)),
        (ClassType::Wraith, 1) => Some((Shape::AdjacentRange(1), ActionAbility::Drain)),
        (ClassType::Wraith, 2) => Some((Shape::AdjacentRange(1), ActionAbility::Decoy)),
        (ClassType::Wraith, 3) => Some((Shape::LineRadial(1, 1), ActionAbility::Rend)),
        _ => None,
    }
}

/// The coordinates `k` steps from `p` towards `d`.
pub(crate) fn step(p: Pos, d: Direction, k: u64) -> (r: (i128, i128))
    ensures
        r.0 == stepped(p, d, k as int).0,
        r.1 == stepped(p, d, k as int).1,
{
    match d {
        Direction::Up => (p.x as i128, p.y as i128 - k as i128),
        Direction::Down => (p.x as i128, p.y as i128 + k as i128),
        Direction::Left => (p.x as i128 - k as i128, p.y as i128),
        Direction::Right => (p.x as i128 + k as i128, p.y as i128),
    }
}

/// The cell at coordinates `c`, if they name one.
pub(crate) fn cell_pos(board: &GameBoard, c: (i128, i128)) -> (r: Option<Pos>)
    ensures
        r is Some <==> on_board(*board, (c.0 as int, c.1 as int)),
        r is Some ==> r->Some_0 == pos_of((c.0 as int, c.1 as int)) && board.in_bounds(r->Some_0),
{
    let rows = board.get_board();
    if 0 <= c.1 && c.1 < rows.len() as i128 {
        let y = c.1 as usize;
        if 0 <= c.0 && c.0 < rows[y].len() as i128 {
            return Some(Pos { x: c.0 as usize, y });
        }
    }
    None
}

/// The targetable cells whose distance from (`ax`, `ay`) lies in `[lo, hi]`,
/// other than `skip`, in reading order.
fn scan_area(board: &GameBoard, ax: i128, ay: i128, lo: u32, hi: u32, skip: Option<Pos>) -> (r: Vec<Pos>)
    requires
        -0x4_0000_0000_0000_0000 <= ax <= 0x4_0000_0000_0000_0000,
        -0x4_0000_0000_0000_0000 <= ay <= 0x4_0000_0000_0000_0000,
    ensures
        r@ == area(*board, ax as int, ay as int, lo as int, hi as int, skip),
{
    let ghost keep = area_keep(*board, ax as int, ay as int, lo as int, hi as int, skip);
    let rows = board.get_board();
    let mut out: Vec<Pos> = Vec::new();
    let mut y: usize = 0;
    while y < rows.len()
        invariant
            *rows == board.rows(),
            keep == area_keep(*board, ax as int, ay as int, lo as int, hi as int, skip),
            -0x4_0000_0000_0000_0000 <= ax <= 0x4_0000_0000_0000_0000,
            -0x4_0000_0000_0000_0000 <= ay <= 0x4_0000_0000_0000_0000,
            y <= rows@.len(),
            out@ == board.scan_rows(y as int, keep),
        decreases rows@.len() - y,
    {
        let mut x: usize = 0;
        while x < rows[y].len()
            invariant
                *rows == board.rows(),
                keep == area_keep(*board, ax as int, ay as int, lo as int, hi as int, skip),
                -0x4_0000_0000_0000_0000 <= ax <= 0x4_0000_0000_0000_0000,
                -0x4_0000_0000_0000_0000 <= ay <= 0x4_0000_0000_0000_0000,
                y < rows@.len(),
                x <= rows@[y as int]@.len(),
                out@ == board.scan_rows(y as int, keep) + scan_row(y as int, x as int, keep),
            decreases rows@[y as int]@.len() - x,
        {
            let p = Pos { x, y };
            let dx = x as i128 - ax;
            let dy = y as i128 - ay;
            let adx = if dx < 0 {
                -dx
            } else {
                dx
            };
            let ady = if dy < 0 {
                -dy
            } else {
                dy
            };
            let d = adx + ady;
            let in_ring = lo as i128 <= d && d <= hi as i128;
            let open_land = match rows[y][x].get_land() {
                Terrain::Empty => false,
                _ => true,
            };
            let skipped = match skip {
                Some(q) => q == p,
                None => false,
            };
            if in_ring && open_land && !skipped {
                out.push(p);
            }
            proof {
                assert(keep(p) == (in_ring && open_land && !skipped));
                assert(out@ =~= board.scan_rows(y as int, keep) + scan_row(y as int, x + 1, keep));
            }
            x = x + 1;
        }
        y = y + 1;
    }
    out
}

impl Entity {
    /// Whether abilities may target `location`: any cell of the board whose
    /// land is not `Empty`, whatever stands on it.
    pub fn can_attack(&self, location: Pos, board: &GameBoard, _players: &Vec<Entity>) -> (r: bool)
        ensures
            r == board.attackable(location),
    {
        let rows = board.get_board();
        if location.y < rows.len() && location.x < rows[location.y].len() {
            match rows[location.y][location.x].get_land() {
                Terrain::Empty => false,
                _ => true,
            }
        } else {
            false
        }
    }

    /// Whether this actor may step onto `location` (see `movable`).
    pub fn can_move(&self, location: Pos, board: &GameBoard, players: &Vec<Entity>) -> (r: bool)
        ensures
            r == movable(*board, players@, self@.tangible, location),
    {
        if !self.can_attack(location, board, players) {
            return false;
        }
        if !self.get_tangible() {
            return true;
        }
        let cond = board.cell_at(location.x, location.y).get_cond();
        if cond.blocks_movement() {
            return false;
        }
        let mut i: usize = 0;
        while i < players.len()
            invariant
                self@.tangible,
                board.attackable(location),
                !blocks_movement(board.cell(location.x as int, location.y as int).condition),
                i <= players@.len(),
                forall|j: int| 0 <= j < i ==> !((#[trigger] players@[j])@.tangible && players@[j]@.pos == location),
            decreases players@.len() - i,
        {
            if players[i].get_tangible() && players[i].get_pos() == location {
                assert(players@[i as int]@.tangible && players@[i as int]@.pos == location);
                assert(occupied(players@, location));
                return false;
            }
            i = i + 1;
        }
        true
    }

    /// Whether this actor may use ability `action_index` (see
    /// `ability_unlocked`).
    pub fn can_act(&self, action_index: u32, _board: &GameBoard, _players: &Vec<Entity>) -> (r: bool)
        ensures
            r == ability_unlocked(self@.class, self@.level, action_index),
    {
        if action_index < 1 || action_index > 3 {
            return false;
        }
        match self.get_class() {
            ClassType::Support | ClassType::Assault | ClassType::Trapper => self.get_level() >= action_index,
            ClassType::Wraith => true,
            _ => false,
        }
    }

    /// The cells that ability `action_index` reaches when aimed towards
    /// `direction`, and the ability's name. Only the three abilities of a
    /// combat class exist; `ability_shape` tells whether one does.
    pub fn act(&self, action_index: u32, direction: Direction, board: &GameBoard, players: &Vec<Entity>) -> (r: (Vec<Pos>, ActionAbility))
        requires
            ability_table(self@.class, action_index) is Some,
        ensures
            r.1 == ability_table(self@.class, action_index)->Some_0.1,
            r.0@ == shape_targets(
                self@,
                ability_table(self@.class, action_index)->Some_0.0,
                direction,
                *board,
                players@,
            ),
    {
        let (shape, ability) = ability_shape(self.get_class(), action_index).unwrap();
        (self.targets(shape, direction, board, players), ability)
    }

    /// The cells that `shape` reaches when this actor aims it towards
    /// `direction`.
    pub fn targets(&self, shape: Shape, direction: Direction, board: &GameBoard, players: &Vec<Entity>) -> (r: Vec<Pos>)
        ensures
            r@ == shape_targets(self@, shape, direction, *board, players@),
    {
        match shape {
            Shape::AdjacentRange(n) => self.adjacent_range(n, board, players),
            Shape::AdjacentRadial(n) => self.adjacent_radial(n, board, players),
            Shape::AdjacentShell(n) => self.adjacent_shell(n, board, players),
            Shape::Allies => self.list_range_ally(board, players),
            Shape::LineRange(n) => self.directed_line_range(n, direction, board, players),
            Shape::LineCast(n) => self.directed_line_cast(n, direction, board, players),
            Shape::LineRadialCast(n, r) => self.directed_line_radial_cast(n, r, direction, board, players),
            Shape::LineRadial(n, r) => self.directed_line_radial(n, r, direction, board, players),
        }
    }

    /// The targetable cells on which actors of this actor's side stand, in
    /// the order of the actor list.
    pub fn list_range_ally(&self, board: &GameBoard, players: &Vec<Entity>) -> (r: Vec<Pos>)
        ensures
            r@ == allies(*board, players@, self@.player, players@.len() as int),
    {
        let team = self.get_player();
        let mut out: Vec<Pos> = Vec::new();
        let mut i: usize = 0;
        while i < players.len()
            invariant
                team == self@.player,
                i <= players@.len(),
                out@ == allies(*board, players@, team, i as int),
            decreases players@.len() - i,
        {
            let pos = players[i].get_pos();
            if players[i].get_player() == team && self.can_attack(pos, board, players) {
                out.push(pos);
            }
            proof {
                assert(out@ =~= allies(*board, players@, team, i + 1));
            }
            i = i + 1;
        }
        out
    }

    /// The targetable cells at distance 1 to `range` from this actor.
    pub fn adjacent_range(&self, range: u32, board: &GameBoard, _players: &Vec<Entity>) -> (r: Vec<Pos>)
        ensures
            r@ == area(*board, self@.pos.x as int, self@.pos.y as int, 1, range as int, None),
    {
        let p = self.get_pos();
        scan_area(board, p.x as i128, p.y as i128, 1, range, None)
    }

    /// The targetable cells at distance 0 to `range` from this actor, its
    /// own cell included.
    pub fn adjacent_radial(&self, range: u32, board: &GameBoard, _players: &Vec<Entity>) -> (r: Vec<Pos>)
        ensures
            r@ == area(*board, self@.pos.x as int, self@.pos.y as int, 0, range as int, None),
    {
        let p = self.get_pos();
        scan_area(board, p.x as i128, p.y as i128, 0, range, None)
    }

    /// The targetable cells at distance exactly `range` from this actor.
    pub fn adjacent_shell(&self, range: u32, board: &GameBoard, _players: &Vec<Entity>) -> (r: Vec<Pos>)
        ensures
            r@ == area(*board, self@.pos.x as int, self@.pos.y as int, range as int, range as int, None),
    {
        let p = self.get_pos();
        scan_area(board, p.x as i128, p.y as i128, range, range, None)
    }

    /// The targetable cells at distance 0 to `radius` from `location`.
    pub fn radial_range(&self, location: Pos, radius: u32, board: &GameBoard, _players: &Vec<Entity>) -> (r: Vec<Pos>)
        ensures
            r@ == area(*board, location.x as int, location.y as int, 0, radius as int, None),
    {
        scan_area(board, location.x as i128, location.y as i128, 0, radius, None)
    }

    /// The beam of `range` steps towards `direction` (see `line_range`).
    pub fn directed_line_range(&self, range: u32, direction: Direction, board: &GameBoard, players: &Vec<Entity>) -> (r: Vec<Pos>)
        ensures
            r@ == line_range(*board, self@.pos, direction, 1, range as int),
    {
        let pos = self.get_pos();
        let n = range as u64;
        let mut out: Vec<Pos> = Vec::new();
        let mut k: u64 = 1;
        while k <= n
            invariant
                pos == self@.pos,
                n == range,
                1 <= k <= n + 1,
                out@ + line_range(*board, pos, direction, k as int, n as int) == line_range(
                    *board,
                    pos,
                    direction,
                    1,
                    n as int,
                ),
            decreases n + 1 - k,
        {
            let c = step(pos, direction, k);
            match cell_pos(board, c) {
                None => {
                    assert(out@ + line_range(*board, pos, direction, n + 1, n as int) =~= out@
                        + line_range(*board, pos, direction, k as int, n as int));
                    k = n + 1;
                },
                Some(p) => {
                    let ghost before = out@;
                    if self.can_attack(p, board, players) {
                        out.push(p);
                    }
                    assert(out@ + line_range(*board, pos, direction, k + 1, n as int) =~= before
                        + line_range(*board, pos, direction, k as int, n as int));
                    k = k + 1;
                },
            }
        }
        assert(out@ + line_range(*board, pos, direction, k as int, n as int) =~= out@);
        out
    }

    /// The shot of `range` steps towards `direction` (see `line_cast`).
    pub fn directed_line_cast(&self, range: u32, direction: Direction, board: &GameBoard, players: &Vec<Entity>) -> (r: Vec<Pos>)
        ensures
            r@ == line_cast(*board, players@, self@.tangible, self@.pos, direction, 1, range as int),
    {
        let pos = self.get_pos();
        let ghost tangible = self@.tangible;
        let n = range as u64;
        let mut out: Vec<Pos> = Vec::new();
        let mut k: u64 = 1;
        while k <= n
            invariant
                pos == self@.pos,
                tangible == self@.tangible,
                n == range,
                1 <= k <= n + 1,
                out@ + line_cast(*board, players@, tangible, pos, direction, k as int, n as int)
                    == line_cast(*board, players@, tangible, pos, direction, 1, n as int),
            decreases n + 1 - k,
        {
            let c = step(pos, direction, k);
            let ghost before = out@;
            match cell_pos(board, c) {
                None => {
                    assert(out@ + line_cast(*board, players@, tangible, pos, direction, n + 1, n as int)
                        =~= before + line_cast(*board, players@, tangible, pos, direction, k as int, n as int));
                    k = n + 1;
                },
                Some(p) => {
                    if self.can_move(p, board, players) {
                        out.push(p);
                        assert(out@ + line_cast(*board, players@, tangible, pos, direction, k + 1, n as int)
                            =~= before + line_cast(*board, players@, tangible, pos, direction, k as int, n as int));
                        k = k + 1;
                    } else {
                        if self.can_attack(p, board, players) {
                            out.push(p);
                        }
                        assert(out@ + line_cast(*board, players@, tangible, pos, direction, n + 1, n as int)
                            =~= before + line_cast(*board, players@, tangible, pos, direction, k as int, n as int));
                        k = n + 1;
                    }
                },
            }
        }
        assert(out@ + line_cast(*board, players@, tangible, pos, direction, k as int, n as int) =~= out@);
        out
    }

    /// The throw of at most `range` steps towards `direction` that bursts
    /// with `radius` (see `radial_cast`).
    pub fn directed_line_radial_cast(&self, range: u32, radius: u32, direction: Direction, board: &GameBoard, players: &Vec<Entity>) -> (r: Vec<Pos>)
        ensures
            r@ == radial_cast(*board, players@, self@.tangible, self@.pos, direction, radius as int, 1, range as int),
    {
        let pos = self.get_pos();
        let ghost tangible = self@.tangible;
        let ghost whole = radial_cast(*board, players@, tangible, pos, direction, radius as int, 1, range as int);
        let n = range as u64;
        let mut result: Vec<Pos> = Vec::new();
        let mut k: u64 = 1;
        while k <= n
            invariant
                pos == self@.pos,
                tangible == self@.tangible,
                n == range,
                whole == radial_cast(*board, players@, tangible, pos, direction, radius as int, 1, n as int),
                1 <= k <= n + 1,
                k <= n ==> radial_cast(*board, players@, tangible, pos, direction, radius as int, k as int, n as int) == whole,
                k <= n ==> result@.len() == 0,
                k > n ==> result@ == whole,
            decreases n + 1 - k,
        {
            let c = step(pos, direction, k);
            match cell_pos(board, c) {
                None => {
                    if k > 1 {
                        let b = step(pos, direction, k - 1);
                        result = scan_area(board, b.0, b.1, 0, radius, None);
                    } else {
                        assert(result@ =~= seq![]);
                    }
                    k = n + 1;
                },
                Some(p) => {
                    if !self.can_move(p, board, players) || k == n {
                        result = scan_area(board, c.0, c.1, 0, radius, None);
                        k = n + 1;
                    } else {
                        k = k + 1;
                    }
                },
            }
        }
        result
    }

    /// The burst of `radius` exactly `range` steps towards `direction`,
    /// without this actor's own cell.
    pub fn directed_line_radial(&self, range: u32, radius: u32, direction: Direction, board: &GameBoard, _players: &Vec<Entity>) -> (r: Vec<Pos>)
        ensures
            r@ == area(
                *board,
                stepped(self@.pos, direction, range as int).0,
                stepped(self@.pos, direction, range as int).1,
                0,
                radius as int,
                Some(self@.pos),
            ),
    {
        let pos = self.get_pos();
        let c = step(pos, direction, range as u64);
        scan_area(board, c.0, c.1, 0, radius, Some(pos))
    }
}

} // verus!
