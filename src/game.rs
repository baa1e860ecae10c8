//! The match: the board, the actors, whose turn it is, and the phase rules
//! that decide which requests of the player are carried out.

use vstd::prelude::*;
use crate::board::{GameBoard, Pos, board_decayed, is_level_one};
use crate::entities::{ActionAbility, ClassType, Entity, PlayerType, fresh_entity};
use crate::scene::SceneReturn;
use crate::entities::EntityView;
use crate::targeting::{
    Direction, ability_table, ability_unlocked, cell_pos, movable, on_board, pos_of, shape_targets,
    step, stepped,
};

verus! {

/// The phases of a turn.
#[derive(Debug, PartialEq, Eq, Clone, Copy, Structural)]
pub enum ActionType {
    Move,
    Action,
    End,
}

/// Whose turn it is and how much of it is left.
#[derive(Debug, PartialEq, Eq, Clone, Copy, Structural)]
pub struct TurnState {
    /// Position in the turn order.
    pub turn_index: usize,
    /// Index of the acting actor in the actor list.
    pub curr_player: usize,
    /// Set when the turn is over.
    pub end_flag: bool,
    pub action_state: ActionType,
    /// Steps left this turn.
    pub moves: u32,
    /// Abilities left this turn.
    pub actions: u32,
    /// Where abilities are aimed.
    pub curr_dir: Direction,
    /// The chosen ability, 0 to 2 for abilities 1 to 3.
    pub curr_selection: u32,
}

/// A match, as plain values.
pub struct GameView {
    pub board: GameBoard,
    pub players: Seq<Entity>,
    pub turn_order: Seq<usize>,
    pub turn: TurnState,
    pub winner: PlayerType,
}

/// The invariant of a match: a turn order of actors that exist, a position
/// in it, the acting actor taken from it, a valid ability choice, and no
/// action phase without an action left.
pub open spec fn game_consistent(v: GameView) -> bool {
    &&& v.turn_order.len() > 0
    &&& v.turn.turn_index < v.turn_order.len()
    &&& forall|i: int| 0 <= i < v.turn_order.len() ==> #[trigger] v.turn_order[i] < v.players.len()
    &&& v.turn.curr_player == v.turn_order[v.turn.turn_index as int]
    &&& v.turn.curr_selection < 3
    &&& v.turn.action_state == ActionType::Action ==> v.turn.actions > 0
}

/// The start of the turn at position `index` of the turn order: the moves
/// and actions of the actor's current attributes, the move phase, aim up, first ability.
pub open spec fn turn_start(players: Seq<Entity>, turn_order: Seq<usize>, index: usize) -> TurnState {
    let cp = turn_order[index as int];
    TurnState {
        turn_index: index,
        curr_player: cp,
        end_flag: false,
        action_state: ActionType::Move,
        moves: players[cp as int]@.curr_stats.speed,
        actions: players[cp as int]@.curr_stats.actions,
        curr_dir: Direction::Up,
        curr_selection: 0,
    }
}

/// The position in a turn order of `len` turns after `k` hand-overs from
/// position `start`, each one as `next_turn` makes it.
pub open spec fn turn_index_after(len: int, start: int, k: nat) -> int
    decreases k,
{
    if k == 0 {
        start
    } else {
        (turn_index_after(len, start, (k - 1) as nat) + 1) % len
    }
}

/// After `k` hand-overs the turn order stands `k` places on, counted round
/// the cycle; so every `len` hand-overs the same position comes back.
pub proof fn lemma_turn_cycle(len: int, start: int, k: nat)
    requires
        0 <= start < len,
    ensures
        turn_index_after(len, start, k) == (start + k) % len,
        turn_index_after(len, start, (k + len) as nat) == turn_index_after(len, start, k),
{
    lemma_turn_index_after_closed(len, start, k);
    lemma_turn_index_after_closed(len, start, (k + len) as nat);
    vstd::arithmetic::div_mod::lemma_mod_add_multiples_vanish(start + k, len);
}

/// `turn_index_after` in closed form.
proof fn lemma_turn_index_after_closed(len: int, start: int, k: nat)
    requires
        0 <= start < len,
    ensures
        turn_index_after(len, start, k) == (start + k) % len,
    decreases k,
{
    if k > 0 {
        lemma_turn_index_after_closed(len, start, (k - 1) as nat);
        let x = start + k - 1;
        vstd::arithmetic::div_mod::lemma_add_mod_noop(x, 1, len);
        vstd::arithmetic::div_mod::lemma_add_mod_noop(x % len, 1, len);
        vstd::arithmetic::div_mod::lemma_mod_twice(x, len);
    } else {
        vstd::arithmetic::div_mod::lemma_small_mod(start as nat, len as nat);
    }
}

/// In the standard match, which starts at position 0 of the order
/// `[1, 0, 2, 0, 3]`, the actor of the turn after `k` hand-overs is
/// `[1, 0, 2, 0, 3][k % 5]`: the monster acts every other turn and each
/// satellite once in five.
pub proof fn lemma_standard_turns(k: nat)
    ensures
        standard_turn_order()[turn_index_after(5, 0, k)] == standard_turn_order()[(k % 5) as int],
        0 <= turn_index_after(5, 0, k) < 5,
{
    lemma_turn_index_after_closed(5, 0, k);
}

/// The next facing clockwise.
pub open spec fn next_facing(d: Direction) -> Direction {
    match d {
        Direction::Up => Direction::Right,
        Direction::Right => Direction::Down,
        Direction::Down => Direction::Left,
        Direction::Left => Direction::Up,
    }
}

/// The next facing counter-clockwise.
pub open spec fn prev_facing(d: Direction) -> Direction {
    match d {
        Direction::Up => Direction::Left,
        Direction::Left => Direction::Down,
        Direction::Down => Direction::Right,
        Direction::Right => Direction::Up,
    }
}

/// The order of turns of the standard roster: each satellite in turn, with
/// the monster between any two of them.
pub open spec fn standard_turn_order() -> Seq<usize> {
    seq![1usize, 0, 2, 0, 3]
}

/// The actor `i` of the standard roster: the monster, then the support, the
/// assault and the trapper, all at level 1.
pub open spec fn standard_roster(i: int) -> EntityView {
    if i == 0 {
        fresh_entity(ClassType::Wraith, PlayerType::Player1, 1, Pos { x: 9, y: 11 }, false)
    } else if i == 1 {
        fresh_entity(ClassType::Support, PlayerType::Player2, 1, Pos { x: 6, y: 4 }, false)
    } else if i == 2 {
        fresh_entity(ClassType::Assault, PlayerType::Player2, 1, Pos { x: 9, y: 3 }, false)
    } else {
        fresh_entity(ClassType::Trapper, PlayerType::Player2, 1, Pos { x: 12, y: 4 }, false)
    }
}

/// A match with the standard roster and turn order on the board of the
/// first level, at the start of its first turn.
pub open spec fn standard_start(v: GameView) -> bool {
    &&& is_level_one(v.board)
    &&& v.players.len() == 4
    &&& forall|i: int| 0 <= i < 4 ==> (#[trigger] v.players[i])@ == standard_roster(i)
    &&& v.turn_order == standard_turn_order()
    &&& v.turn == turn_start(v.players, v.turn_order, 0)
}

/// The standard roster.
fn standard_players() -> (r: Vec<Entity>)
    ensures
        r@.len() == 4,
        forall|i: int| 0 <= i < 4 ==> (#[trigger] r@[i])@ == standard_roster(i),
{
    let wraith = Entity::new_char(ClassType::Wraith, PlayerType::Player1, 1, Pos { x: 9, y: 11 }, false);
    let support = Entity::new_char(ClassType::Support, PlayerType::Player2, 1, Pos { x: 6, y: 4 }, false);
    let assault = Entity::new_char(ClassType::Assault, PlayerType::Player2, 1, Pos { x: 9, y: 3 }, false);
    let trapper = Entity::new_char(ClassType::Trapper, PlayerType::Player2, 1, Pos { x: 12, y: 4 }, false);
    let r = vec![wraith, support, assault, trapper];
    assert(r@[0]@ == standard_roster(0));
    assert(r@[1]@ == standard_roster(1));
    assert(r@[2]@ == standard_roster(2));
    assert(r@[3]@ == standard_roster(3));
    r
}

/// A match: the board, the actors, the order in which they act, the turn in
/// progress, and the winner once one is declared.
pub struct ElderGame {
    game_board: GameBoard,
    player_ref: Vec<Entity>,
    turn_order: Vec<usize>,
    turn: TurnState,
    winner: PlayerType,
}

impl View for ElderGame {
    type V = GameView;

    closed spec fn view(&self) -> GameView {
        GameView {
            board: self.game_board,
            players: self.player_ref@,
            turn_order: self.turn_order@,
            turn: self.turn,
            winner: self.winner,
        }
    }
}

impl ElderGame {
    #[verifier::type_invariant]
    spec fn inv(self) -> bool {
        game_consistent(self@)
    }

    /// A match on `board` between `players`, who act in `turn_order` (indices
    /// into `players`, repeated in a cycle), at the start of the first turn.
    /// `None` when the turn order is empty or names an actor that does not
    /// exist.
    pub fn with_roster(board: GameBoard, players: Vec<Entity>, turn_order: Vec<usize>) -> (r: Option<Self>)
        ensures
            r is Some <==> (turn_order@.len() > 0 && forall|i: int|
                0 <= i < turn_order@.len() ==> #[trigger] turn_order@[i] < players@.len()),
            r is Some ==> r->Some_0@ == (GameView {
                board,
                players: players@,
                turn_order: turn_order@,
                turn: turn_start(players@, turn_order@, 0),
                winner: PlayerType::Undetermined,
            }),
    {
        if turn_order.len() == 0 {
            return None;
        }
        let mut i: usize = 0;
        while i < turn_order.len()
            invariant
                i <= turn_order@.len(),
                forall|j: int| 0 <= j < i ==> #[trigger] turn_order@[j] < players@.len(),
            decreases turn_order@.len() - i,
        {
            if turn_order[i] >= players.len() {
                return None;
            }
            i = i + 1;
        }
        let cp = turn_order[0];
        let stats = players[cp].get_curr_stats();
        let turn = TurnState {
            turn_index: 0,
            curr_player: cp,
            end_flag: false,
            action_state: ActionType::Move,
            moves: stats.speed,
            actions: stats.actions,
            curr_dir: Direction::Up,
            curr_selection: 0,
        };
        Some(ElderGame { game_board: board, player_ref: players, turn_order, turn, winner: PlayerType::Undetermined })
    }

    /// The standard match: the board of the first level, the monster against
    /// the three satellites, the support to act first.
    pub fn new() -> (r: Self)
        ensures
            standard_start(r@),
            r@.winner == PlayerType::Undetermined,
    {
        let board = GameBoard::new();
        let players = standard_players();
        let order = vec![1usize, 0, 2, 0, 3];
        assert(order@ == standard_turn_order());
        ElderGame::with_roster(board, players, order).unwrap()
    }

    pub fn get_board(&self) -> (r: &GameBoard)
        ensures
            *r == self@.board,
    {
        &self.game_board
    }

    pub fn get_players(&self) -> (r: &Vec<Entity>)
        ensures
            r@ == self@.players,
    {
        &self.player_ref
    }

    /// The turn in progress.
    pub fn get_turn(&self) -> (r: TurnState)
        ensures
            r == self@.turn,
            game_consistent(self@),
    {
        proof {
            use_type_invariant(self);
        }
        self.turn
    }

    /// The acting actor.
    pub fn get_curr_player(&self) -> (r: &Entity)
        ensures
            *r == self@.players[self@.turn.curr_player as int],
    {
        proof {
            use_type_invariant(self);
        }
        &self.player_ref[self.turn.curr_player]
    }

    /// The declared winner; `Undetermined` until one is declared.
    pub fn get_winner(&self) -> (r: PlayerType)
        ensures
            r == self@.winner,
    {
        self.winner
    }

    /// Hands the turn to the next actor in the turn order, with the moves and
    /// actions of its current attributes, and lets the board decay by one
    /// turn.
    pub fn next_turn(&mut self)
        ensures
            board_decayed(old(self)@.board, final(self)@.board),
            final(self)@ == (GameView {
                board: final(self)@.board,
                turn: turn_start(
                    old(self)@.players,
                    old(self)@.turn_order,
                    ((old(self)@.turn.turn_index + 1) % (old(self)@.turn_order.len() as int)) as usize,
                ),
                ..old(self)@
            }),
    {
        proof {
            use_type_invariant(&*self);
        }
        let len = self.turn_order.len();
        assert(self.turn.turn_index < len);
        let t = (self.turn.turn_index + 1) % len;
        let cp = self.turn_order[t];
        let stats = self.player_ref[cp].get_curr_stats();
        let board = self.game_board.decayed_copy();
        self.game_board = board;
        self.turn = TurnState {
            turn_index: t,
            curr_player: cp,
            end_flag: false,
            action_state: ActionType::Move,
            moves: stats.speed,
            actions: stats.actions,
            curr_dir: Direction::Up,
            curr_selection: 0,
        };
    }

    /// Chooses the next ability, cycling through the three.
    pub fn next_selection(&mut self)
        ensures
            final(self)@ == (GameView {
                turn: TurnState {
                    curr_selection: ((old(self)@.turn.curr_selection + 1) % 3) as u32,
                    ..old(self)@.turn
                },
                ..old(self)@
            }),
    {
        proof {
            use_type_invariant(&*self);
        }
        self.turn = TurnState { curr_selection: (self.turn.curr_selection + 1) % 3, ..self.turn };
    }

    /// Chooses the previous ability, cycling through the three.
    pub fn prev_selection(&mut self)
        ensures
            final(self)@ == (GameView {
                turn: TurnState {
                    curr_selection: ((old(self)@.turn.curr_selection + 2) % 3) as u32,
                    ..old(self)@.turn
                },
                ..old(self)@
            }),
    {
        proof {
            use_type_invariant(&*self);
        }
        self.turn = TurnState { curr_selection: (self.turn.curr_selection + 2) % 3, ..self.turn };
    }

    /// Turns the aim clockwise.
    pub fn next_direction(&mut self)
        ensures
            final(self)@ == (GameView {
                turn: TurnState { curr_dir: next_facing(old(self)@.turn.curr_dir), ..old(self)@.turn },
                ..old(self)@
            }),
    {
        proof {
            use_type_invariant(&*self);
        }
        let d = match self.turn.curr_dir {
            Direction::Up => Direction::Right,
            Direction::Right => Direction::Down,
            Direction::Down => Direction::Left,
            Direction::Left => Direction::Up,
        };
        self.turn = TurnState { curr_dir: d, ..self.turn };
    }

    /// Turns the aim counter-clockwise.
    pub fn prev_direction(&mut self)
        ensures
            final(self)@ == (GameView {
                turn: TurnState { curr_dir: prev_facing(old(self)@.turn.curr_dir), ..old(self)@.turn },
                ..old(self)@
            }),
    {
        proof {
            use_type_invariant(&*self);
        }
        let d = match self.turn.curr_dir {
            Direction::Up => Direction::Left,
            Direction::Left => Direction::Down,
            Direction::Down => Direction::Right,
            Direction::Right => Direction::Up,
        };
        self.turn = TurnState { curr_dir: d, ..self.turn };
    }

    /// Starts the standard match over; the declared winner is kept.
    pub fn reset(&mut self)
        ensures
            standard_start(final(self)@),
            final(self)@.winner == old(self)@.winner,
    {
        let fresh = ElderGame::new();
        let winner = self.winner;
        *self = ElderGame { winner, ..fresh };
    }

    /// Moves the acting actor onto `new_loc` if it may step there (see
    /// `movable`); moves are not counted here.
    pub fn try_move(&mut self, new_loc: Pos) -> (r: bool)
        ensures
            r == movable(
                old(self)@.board,
                old(self)@.players,
                old(self)@.players[old(self)@.turn.curr_player as int]@.tangible,
                new_loc,
            ),
            r ==> final(self)@ == (GameView {
                players: old(self)@.players.update(
                    old(self)@.turn.curr_player as int,
                    final(self)@.players[old(self)@.turn.curr_player as int],
                ),
                ..old(self)@
            }) && final(self)@.players[old(self)@.turn.curr_player as int]@ == (EntityView {
                pos: new_loc,
                ..old(self)@.players[old(self)@.turn.curr_player as int]@
            }),
            !r ==> final(self)@ == old(self)@,
    {
        proof {
            use_type_invariant(&*self);
        }
        let cp = self.turn.curr_player;
        if self.player_ref[cp].can_move(new_loc, &self.game_board, &self.player_ref) {
            self.player_ref[cp].set_pos(new_loc);
            true
        } else {
            false
        }
    }

    /// Asks for phase `phase` of the turn. `Move` is granted while moves are
    /// left; `Action` while actions are left, and starts from the first
    /// ability aimed up; `End` always, and hands the turn on (see
    /// `next_turn`). Returns whether the request was granted; a refused
    /// request changes nothing.
    pub fn request_phase(&mut self, phase: ActionType) -> (r: bool)
        ensures
            phase == ActionType::Move ==> r == (old(self)@.turn.moves > 0),
            phase == ActionType::Action ==> r == (old(self)@.turn.actions > 0),
            phase == ActionType::End ==> r,
            !r ==> final(self)@ == old(self)@,
            r && phase == ActionType::Move ==> final(self)@ == (GameView {
                turn: TurnState { action_state: ActionType::Move, ..old(self)@.turn },
                ..old(self)@
            }),
            r && phase == ActionType::Action ==> final(self)@ == (GameView {
                turn: TurnState {
                    action_state: ActionType::Action,
                    curr_selection: 0,
                    curr_dir: Direction::Up,
                    ..old(self)@.turn
                },
                ..old(self)@
            }),
            phase == ActionType::End ==> board_decayed(old(self)@.board, final(self)@.board)
                && final(self)@ == (GameView {
                board: final(self)@.board,
                turn: turn_start(
                    old(self)@.players,
                    old(self)@.turn_order,
                    ((old(self)@.turn.turn_index + 1) % (old(self)@.turn_order.len() as int)) as usize,
                ),
                ..old(self)@
            }),
    {
        proof {
            use_type_invariant(&*self);
        }
        match phase {
            ActionType::Move => {
                if self.turn.moves > 0 {
                    self.turn = TurnState { action_state: ActionType::Move, ..self.turn };
                    true
                } else {
                    false
                }
            },
            ActionType::Action => {
                if self.turn.actions > 0 {
                    self.turn = TurnState {
                        action_state: ActionType::Action,
                        curr_selection: 0,
                        curr_dir: Direction::Up,
                        ..self.turn
                    };
                    true
                } else {
                    false
                }
            },
            ActionType::End => {
                self.turn = TurnState { action_state: ActionType::End, end_flag: true, ..self.turn };
                self.next_turn();
                true
            },
        }
    }

    /// In the move phase with moves left, steps the acting actor one cell
    /// towards `direction` if it may step there, at the cost of one move.
    /// Returns whether it stepped; otherwise nothing changes.
    pub fn request_move(&mut self, direction: Direction) -> (r: bool)
        ensures
            r == (old(self)@.turn.action_state == ActionType::Move && old(self)@.turn.moves > 0
                && on_board(
                old(self)@.board,
                stepped(old(self)@.players[old(self)@.turn.curr_player as int]@.pos, direction, 1),
            ) && movable(
                old(self)@.board,
                old(self)@.players,
                old(self)@.players[old(self)@.turn.curr_player as int]@.tangible,
                pos_of(stepped(old(self)@.players[old(self)@.turn.curr_player as int]@.pos, direction, 1)),
            )),
            r ==> final(self)@ == (GameView {
                players: old(self)@.players.update(
                    old(self)@.turn.curr_player as int,
                    final(self)@.players[old(self)@.turn.curr_player as int],
                ),
                turn: TurnState { moves: (old(self)@.turn.moves - 1) as u32, ..old(self)@.turn },
                ..old(self)@
            }) && final(self)@.players[old(self)@.turn.curr_player as int]@ == (EntityView {
                pos: pos_of(stepped(old(self)@.players[old(self)@.turn.curr_player as int]@.pos, direction, 1)),
                ..old(self)@.players[old(self)@.turn.curr_player as int]@
            }),
            !r ==> final(self)@ == old(self)@,
    {
        proof {
            use_type_invariant(&*self);
        }
        if self.turn.action_state != ActionType::Move || self.turn.moves == 0 {
            return false;
        }
        let from = self.player_ref[self.turn.curr_player].get_pos();
        match cell_pos(&self.game_board, step(from, direction, 1)) {
            None => false,
            Some(target) => {
                if self.try_move(target) {
                    proof {
                        use_type_invariant(&*self);
                    }
                    self.turn = TurnState { moves: self.turn.moves - 1, ..self.turn };
                    true
                } else {
                    false
                }
            },
        }
    }

    /// In the action phase, chooses the next (`forward`) or previous ability.
    /// Returns whether it did; otherwise nothing changes.
    pub fn request_selection(&mut self, forward: bool) -> (r: bool)
        ensures
            r == (old(self)@.turn.action_state == ActionType::Action),
            r ==> final(self)@ == (GameView {
                turn: TurnState {
                    curr_selection: ((old(self)@.turn.curr_selection + if forward {
                        1int
                    } else {
                        2int
                    }) % 3) as u32,
                    ..old(self)@.turn
                },
                ..old(self)@
            }),
            !r ==> final(self)@ == old(self)@,
    {
        if self.turn.action_state != ActionType::Action {
            return false;
        }
        if forward {
            self.next_selection();
        } else {
            self.prev_selection();
        }
        true
    }

    /// In the action phase, turns the aim clockwise (`forward`) or
    /// counter-clockwise. Returns whether it did; otherwise nothing changes.
    pub fn request_facing(&mut self, forward: bool) -> (r: bool)
        ensures
            r == (old(self)@.turn.action_state == ActionType::Action),
            r ==> final(self)@ == (GameView {
                turn: TurnState {
                    curr_dir: if forward {
                        next_facing(old(self)@.turn.curr_dir)
                    } else {
                        prev_facing(old(self)@.turn.curr_dir)
                    },
                    ..old(self)@.turn
                },
                ..old(self)@
            }),
            !r ==> final(self)@ == old(self)@,
    {
        if self.turn.action_state != ActionType::Action {
            return false;
        }
        if forward {
            self.next_direction();
        } else {
            self.prev_direction();
        }
        true
    }

    /// In the action phase, uses the chosen ability if the acting actor has
    /// unlocked it: one action is spent, and the cells it reaches with the
    /// current aim are returned with its name. With no action left the turn
    /// returns to the move phase. A refused request changes nothing.
    pub fn confirm_ability(&mut self) -> (r: Option<(Vec<Pos>, ActionAbility)>)
        ensures
            r is Some <==> (old(self)@.turn.action_state == ActionType::Action && ability_unlocked(
                old(self)@.players[old(self)@.turn.curr_player as int]@.class,
                old(self)@.players[old(self)@.turn.curr_player as int]@.level,
                (old(self)@.turn.curr_selection + 1) as u32,
            )),
            r is Some ==> ({
                let e = old(self)@.players[old(self)@.turn.curr_player as int]@;
                let entry = ability_table(e.class, (old(self)@.turn.curr_selection + 1) as u32);
                &&& entry is Some
                &&& r->Some_0.1 == entry->Some_0.1
                &&& r->Some_0.0@ == shape_targets(
                    e,
                    entry->Some_0.0,
                    old(self)@.turn.curr_dir,
                    old(self)@.board,
                    old(self)@.players,
                )
                &&& final(self)@ == (GameView {
                    turn: TurnState {
                        actions: (old(self)@.turn.actions - 1) as u32,
                        action_state: if old(self)@.turn.actions == 1 {
                            ActionType::Move
                        } else {
                            ActionType::Action
                        },
                        ..old(self)@.turn
                    },
                    ..old(self)@
                })
            }),
            r is None ==> final(self)@ == old(self)@,
    {
        proof {
            use_type_invariant(&*self);
        }
        if self.turn.action_state != ActionType::Action {
            return None;
        }
        let index = self.turn.curr_selection + 1;
        let actor = &self.player_ref[self.turn.curr_player];
        if !actor.can_act(index, &self.game_board, &self.player_ref) {
            return None;
        }
        let hit = actor.act(index, self.turn.curr_dir, &self.game_board, &self.player_ref);
        let left = self.turn.actions - 1;
        let phase = if left == 0 {
            ActionType::Move
        } else {
            ActionType::Action
        };
        self.turn = TurnState { actions: left, action_state: phase, ..self.turn };
        Some(hit)
    }

    /// Records `winner` as the winner and starts the standard match over
    /// (see `reset`); the scene is then finished.
    pub fn declare_winner(&mut self, winner: PlayerType) -> (r: SceneReturn)
        ensures
            r == SceneReturn::Finished,
            standard_start(final(self)@),
            final(self)@.winner == winner,
    {
        proof {
            use_type_invariant(&*self);
        }
        self.winner = winner;
        self.reset();
        SceneReturn::Finished
    }
}

} // verus!
