use vstd::prelude::*;
use crate::color::{Color, Piece, Player, other};
use crate::board::{
    BoardView, Point, BOARD_POINTS, MILL_COUNT, adjacent, count_color, in_mill, line_full,
    lemma_mill_on_board, lemma_neighbor_table, mill, mill_through, neighbor_list,
    neighbors, on_line,
};
use crate::action::{Action, ActionKind};

verus! {

/// The stage of the game. Flying is not a phase of its own: in the moving
/// phase a player with exactly three pieces on the board may fly.
#[derive(Clone, Copy, Debug, PartialEq, Eq, Structural)]
pub enum Phase {
    Placing,
    Moving,
}

/// The mathematical value of a position: everything that decides what the
/// next action does.
#[verifier::ext_equal]
pub struct GameModel {
    pub board: Seq<Option<Piece>>,
    pub current_player: Player,
    pub white_placed: int,
    pub black_placed: int,
    pub phase: Phase,
    pub pending_removal: bool,
}

/// A game as a whole: the current position and the positions before each
/// action that can still be undone, oldest first.
#[verifier::ext_equal]
pub struct GameView {
    pub current: GameModel,
    pub history: Seq<GameModel>,
}

// ---------------------------------------------------------------------------
// The rules, stated over positions
// ---------------------------------------------------------------------------

/// The position at the start of a game: an empty board, White to move.
pub open spec fn initial_model() -> GameModel {
    GameModel {
        board: Seq::new(24, |i: int| None),
        current_player: Color::White,
        white_placed: 0,
        black_placed: 0,
        phase: Phase::Placing,
        pending_removal: false,
    }
}

/// Once all 18 pieces are placed and no removal is pending, the game
/// moves on to the moving phase.
pub open spec fn with_phase_update(m: GameModel) -> GameModel {
    if m.phase == Phase::Placing && m.white_placed + m.black_placed == 18 && !m.pending_removal {
        GameModel { phase: Phase::Moving, ..m }
    } else {
        m
    }
}

/// The turn passes to the opponent.
pub open spec fn with_turn_switched(m: GameModel) -> GameModel {
    GameModel { current_player: other(m.current_player), ..m }
}

/// After the current player put a piece on `p`: if it closed a mill, the
/// same player must now remove a piece; otherwise the turn passes.
pub open spec fn after_arrival(m: GameModel, p: Point) -> GameModel {
    if mill_through(m.board, p, m.current_player) {
        GameModel { pending_removal: true, ..m }
    } else {
        with_turn_switched(m)
    }
}

/// A player with exactly three pieces on the board may fly.
pub open spec fn can_fly(board: BoardView, c: Color) -> bool {
    count_color(board, c) == 3
}

/// `c` has a piece on the board that is not part of a mill.
pub open spec fn has_removable_piece(board: BoardView, c: Color) -> bool {
    exists|i: int| 0 <= i < 24 && #[trigger] board[i] == Some(c) && !in_mill(board, i as usize)
}

/// Some point joined to `i` is empty.
pub open spec fn has_free_neighbor(board: BoardView, i: int) -> bool {
    exists|k: int|
        0 <= k < neighbor_list(i).len() && #[trigger] board[neighbor_list(i)[k] as int] is None
}

/// Some point of the board is empty.
pub open spec fn has_free_point(board: BoardView) -> bool {
    exists|i: int| 0 <= i < 24 && #[trigger] board[i] is None
}

/// `c` has a piece with an empty neighbor.
pub open spec fn has_sliding_move(board: BoardView, c: Color) -> bool {
    exists|i: int| 0 <= i < 24 && #[trigger] board[i] == Some(c) && has_free_neighbor(board, i)
}

/// Whether `c` can make a legal move. While placing, a blockade does not
/// count: placing is always possible.
pub open spec fn legal_move_exists(m: GameModel, c: Color) -> bool {
    if m.phase == Phase::Placing {
        true
    } else if count_color(m.board, c) == 0 {
        false
    } else if can_fly(m.board, c) {
        has_free_point(m.board)
    } else {
        has_sliding_move(m.board, c)
    }
}

/// The winner of a position, if there is one. There is none while placing;
/// afterwards a player loses with fewer than three pieces, or when, unable
/// to fly, they have no legal move.
pub open spec fn winner_of(m: GameModel) -> Option<Player> {
    let white = count_color(m.board, Color::White);
    let black = count_color(m.board, Color::Black);
    if m.phase == Phase::Placing {
        None
    } else if white < 3 {
        Some(Color::Black)
    } else if black < 3 {
        Some(Color::White)
    } else if white > 3 && !legal_move_exists(m, Color::White) {
        Some(Color::Black)
    } else if black > 3 && !legal_move_exists(m, Color::Black) {
        Some(Color::White)
    } else {
        None
    }
}

/// What placing a piece on `p` does to position `m`.
pub open spec fn place_outcome(m: GameModel, p: Point) -> Result<GameModel, &'static str> {
    if m.pending_removal {
        Err("Removal required")
    } else if m.phase != Phase::Placing {
        Err("Cannot place outside placing phase")
    } else if p >= 24 {
        Err("Out of bounds")
    } else if m.board[p as int] is Some {
        Err("Point occupied")
    } else {
        let placed = GameModel {
            board: m.board.update(p as int, Some(m.current_player)),
            white_placed: if m.current_player == Color::White { m.white_placed + 1 } else { m.white_placed },
            black_placed: if m.current_player == Color::Black { m.black_placed + 1 } else { m.black_placed },
            ..m
        };
        Ok(with_phase_update(after_arrival(placed, p)))
    }
}

/// What moving a piece from `from` to `to` does to position `m`.
pub open spec fn move_outcome(m: GameModel, from: Point, to: Point) -> Result<GameModel, &'static str> {
    if m.pending_removal {
        Err("Removal required")
    } else if from >= 24 || to >= 24 {
        Err("Out of bounds")
    } else if from == to {
        Err("Invalid move")
    } else if m.board[from as int] != Some(m.current_player) {
        Err("Source not owned by player")
    } else if m.board[to as int] is Some {
        Err("Destination occupied")
    } else if m.phase == Phase::Placing {
        Err("Cannot move in placing phase")
    } else if !can_fly(m.board, m.current_player) && !adjacent(from as int, to) {
        Err("Not a neighbor")
    } else {
        let moved = GameModel {
            board: m.board.update(from as int, None).update(to as int, Some(m.current_player)),
            ..m
        };
        Ok(after_arrival(moved, to))
    }
}

/// What removing the piece on `p` does to position `m`.
pub open spec fn remove_outcome(m: GameModel, p: Point) -> Result<GameModel, &'static str> {
    if !m.pending_removal {
        Err("No removal pending")
    } else if p >= 24 {
        Err("Out of bounds")
    } else if m.board[p as int] is None {
        Err("No piece to remove")
    } else if m.board[p as int] == Some(m.current_player) {
        Err("Cannot remove own piece")
    } else if has_removable_piece(m.board, other(m.current_player)) && in_mill(m.board, p) {
        Err("Must remove non mill piece if possible")
    } else {
        let removed = GameModel {
            board: m.board.update(p as int, None),
            pending_removal: false,
            ..m
        };
        Ok(with_turn_switched(with_phase_update(removed)))
    }
}

/// The position after `a`, or the reason why `a` is refused in `m`.
pub open spec fn action_outcome(m: GameModel, a: Action) -> Result<GameModel, &'static str> {
    if a.player != m.current_player {
        Err("Not this player's turn")
    } else {
        match a.action {
            ActionKind::Place(p) => place_outcome(m, p),
            ActionKind::Move(from, to) => move_outcome(m, from, to),
            ActionKind::Remove(p) => remove_outcome(m, p),
        }
    }
}

/// The result of applying `a` to game `v`: an accepted action records the
/// position before it; a refused one changes nothing.
pub open spec fn action_step(v: GameView, a: Action) -> (Result<(), &'static str>, GameView) {
    match action_outcome(v.current, a) {
        Ok(next) => (Ok(()), GameView { current: next, history: v.history.push(v.current) }),
        Err(e) => (Err(e), v),
    }
}

/// The result of undoing the last action of game `v`.
pub open spec fn undo_step(v: GameView) -> (Result<(), &'static str>, GameView) {
    if v.history.len() == 0 {
        (Err("No more actions to undo"), v)
    } else {
        (Ok(()), GameView { current: v.history.last(), history: v.history.drop_last() })
    }
}

/// The piece counters stay within `u8` when `a` is applied to `m`.
pub open spec fn counters_fit(m: GameModel, a: Action) -> bool {
    action_outcome(m, a) is Ok ==> match a.action {
        ActionKind::Place(_) => m.white_placed + m.black_placed < 255,
        ActionKind::Remove(_) => m.phase == Phase::Placing ==> m.white_placed + m.black_placed <= 255,
        ActionKind::Move(_, _) => true,
    }
}


// ---------------------------------------------------------------------------
// The game
// ---------------------------------------------------------------------------

/// A saved position, kept so that an action can be undone.
#[derive(Clone, Copy, Debug)]
pub struct GameState {
    pub board: [Option<Piece>; BOARD_POINTS],
    pub current_player: Player,
    pub white_placed: u8,
    pub black_placed: u8,
    pub phase: Phase,
    pub pending_removal: bool,
}

impl GameState {
    /// The position this saved state holds.
    pub open spec fn model(&self) -> GameModel {
        GameModel {
            board: self.board@,
            current_player: self.current_player,
            white_placed: self.white_placed as int,
            black_placed: self.black_placed as int,
            phase: self.phase,
            pending_removal: self.pending_removal,
        }
    }
}

/// A game of Nine Men's Morris, with the positions needed to undo its actions.
pub struct Game {
    pub board: [Option<Piece>; BOARD_POINTS],
    pub current_player: Player,
    /// Pieces White has placed so far; removals do not lower it.
    pub white_placed: u8,
    /// Pieces Black has placed so far; removals do not lower it.
    pub black_placed: u8,
    pub phase: Phase,
    /// The current player has formed a mill and must remove a piece next.
    pub pending_removal: bool,
    /// The positions before each action that can still be undone, oldest first.
    pub game_states: Vec<GameState>,
}

impl Game {
    /// The current position.
    pub open spec fn model(&self) -> GameModel {
        GameModel {
            board: self.board@,
            current_player: self.current_player,
            white_placed: self.white_placed as int,
            black_placed: self.black_placed as int,
            phase: self.phase,
            pending_removal: self.pending_removal,
        }
    }

    /// The current position as it is saved for undo.
    pub open spec fn saved(&self) -> GameState {
        GameState {
            board: self.board,
            current_player: self.current_player,
            white_placed: self.white_placed,
            black_placed: self.black_placed,
            phase: self.phase,
            pending_removal: self.pending_removal,
        }
    }

    /// The positions before each action that can still be undone, oldest first.
    pub open spec fn history(&self) -> Seq<GameModel> {
        self.game_states@.map_values(|s: GameState| s.model())
    }
}

impl View for Game {
    type V = GameView;

    open spec fn view(&self) -> GameView {
        GameView { current: self.model(), history: self.history() }
    }
}


impl Game {
    /// Saves the current position so that the next action can be undone.
    fn save_state(&mut self)
        ensures
            final(self).model() == old(self).model(),
            final(self).history() == old(self).history().push(old(self).model()),
            final(self).game_states@ == old(self).game_states@.push(old(self).saved()),
    {
        let ghost before = self.game_states@;
        self.game_states.push(GameState {
            board: self.board,
            current_player: self.current_player,
            white_placed: self.white_placed,
            black_placed: self.black_placed,
            phase: self.phase,
            pending_removal: self.pending_removal,
        });
        proof {
            assert(self.game_states@.map_values(|s: GameState| s.model())
                =~= before.map_values(|s: GameState| s.model()).push(old(self).model()));
        }
    }

    /// Whether `p` is a point of the board.
    pub fn in_bounds(p: Point) -> (r: bool)
        ensures
            r == (p < 24),
    {
        p < BOARD_POINTS
    }

    /// The number of pieces of `player` on the board.
    pub fn count_pieces(&self, player: Player) -> (r: usize)
        ensures
            r == count_color(self.board@, player),
    {
        let mut n: usize = 0;
        let mut i: usize = 0;
        while i < BOARD_POINTS
            invariant
                i <= BOARD_POINTS,
                n <= i,
                n == count_color(self.board@.take(i as int), player),
            decreases BOARD_POINTS - i,
        {
            proof {
                assert(self.board@.take(i + 1).drop_last() =~= self.board@.take(i as int));
            }
            if self.board[i] == Some(player) {
                n = n + 1;
            }
            i = i + 1;
        }
        proof {
            assert(self.board@.take(24) =~= self.board@);
        }
        n
    }

    /// Whether a mill line through `point` is fully held by `player`: used
    /// after a piece of `player` arrived on `point`.
    pub fn forms_mill(&self, point: Point, player: Player) -> (r: bool)
        ensures
            r == mill_through(self.board@, point, player),
    {
        let mut m: usize = 0;
        while m < MILL_COUNT
            invariant
                m <= MILL_COUNT,
                forall|k: int| 0 <= k < m ==> !(#[trigger] on_line(k, point) && line_full(self.board@, k, player)),
            decreases MILL_COUNT - m,
        {
            let (a, b, c) = mill(m);
            proof {
                lemma_mill_on_board(m as int);
            }
            if (a == point || b == point || c == point) && self.board[a] == Some(player)
                && self.board[b] == Some(player) && self.board[c] == Some(player) {
                assert(on_line(m as int, point));
                return true;
            }
            m = m + 1;
        }
        false
    }

    /// Whether the piece on `point`, if any, is part of a mill: such a piece
    /// may only be removed when its owner has no other piece.
    pub fn is_part_of_mill(&self, point: Point) -> (r: bool)
        requires
            point < 24,
        ensures
            r == in_mill(self.board@, point),
    {
        match self.board[point] {
            Some(color) => self.forms_mill(point, color),
            None => false,
        }
    }

    /// Whether `opponent` has at least one piece that is not part of a mill.
    pub fn opponent_has_non_mill_piece(&self, opponent: Player) -> (r: bool)
        ensures
            r == has_removable_piece(self.board@, opponent),
    {
        let mut i: usize = 0;
        while i < BOARD_POINTS
            invariant
                i <= BOARD_POINTS,
                forall|j: int| 0 <= j < i ==> !(#[trigger] self.board@[j] == Some(opponent) && !in_mill(self.board@, j as usize)),
            decreases BOARD_POINTS - i,
        {
            if self.board[i] == Some(opponent) && !self.is_part_of_mill(i) {
                return true;
            }
            i = i + 1;
        }
        false
    }

    /// Whether `player` may fly, that is move to any free point: with
    /// exactly three pieces left.
    pub fn can_player_fly(&self, player: Player) -> (r: bool)
        ensures
            r == can_fly(self.board@, player),
    {
        self.count_pieces(player) == 3
    }
}


impl Game {
    /// Whether `player` can make a legal move in the current position.
    #[verifier::loop_isolation(false)]
    pub fn has_legal_move(&self, player: Player) -> (r: bool)
        ensures
            r == legal_move_exists(self.model(), player),
    {
        // while placing, a blockade does not count: placing is always possible
        if self.phase == Phase::Placing {
            return true;
        }
        let player_count = self.count_pieces(player);
        if player_count == 0 {
            return false;
        }
        // a player who can fly needs just one free point
        if self.can_player_fly(player) {
            let mut i: usize = 0;
            while i < BOARD_POINTS
                invariant
                    i <= BOARD_POINTS,
                    forall|j: int| 0 <= j < i ==> !(#[trigger] self.board@[j] is None),
                decreases BOARD_POINTS - i,
            {
                if self.board[i].is_none() {
                    assert(self.board@[i as int] is None);
                    return true;
                }
                i = i + 1;
            }
            return false;
        }
        // otherwise one of the player's pieces needs a free neighbor
        let mut i: usize = 0;
        while i < BOARD_POINTS
            invariant
                i <= BOARD_POINTS,
                forall|j: int|
                    0 <= j < i ==> !(#[trigger] self.board@[j] == Some(player) && has_free_neighbor(self.board@, j)),
            decreases BOARD_POINTS - i,
        {
            if self.board[i] == Some(player) {
                let ns = neighbors(i);
                proof {
                    lemma_neighbor_table(i as int);
                }
                let mut k: usize = 0;
                while k < ns.len()
                    invariant
                        i < BOARD_POINTS,
                        k <= ns.len(),
                        ns@ == neighbor_list(i as int),
                        forall|q: int| 0 <= q < ns@.len() ==> #[trigger] ns@[q] < 24,
                        forall|q: int| 0 <= q < k ==> !(#[trigger] self.board@[neighbor_list(i as int)[q] as int] is None),
                    decreases ns.len() - k,
                {
                    if self.board[ns[k]].is_none() {
                        assert(self.board@[neighbor_list(i as int)[k as int] as int] is None);
                        assert(has_free_neighbor(self.board@, i as int));
                        assert(self.board@[i as int] == Some(player));
                        return true;
                    }
                    k = k + 1;
                }
            }
            i = i + 1;
        }
        false
    }

    /// Enters the moving phase once all 18 pieces have been placed and no
    /// removal is pending.
    pub fn maybe_update_phase_after_action(&mut self)
        requires
            old(self).phase == Phase::Placing ==> old(self).white_placed + old(self).black_placed <= 255,
        ensures
            final(self).model() == with_phase_update(old(self).model()),
            final(self).history() == old(self).history(),
            final(self).game_states@ == old(self).game_states@,
    {
        if self.phase == Phase::Placing && (self.white_placed + self.black_placed) == 18 {
            if !self.pending_removal {
                self.phase = Phase::Moving;
            }
        }
    }

    /// Passes the turn to the other player.
    pub fn switch_turn(&mut self)
        ensures
            final(self).model() == with_turn_switched(old(self).model()),
            final(self).history() == old(self).history(),
            final(self).game_states@ == old(self).game_states@,
    {
        self.current_player = self.current_player.opposite();
    }
}


/// The interface of a Nine Men's Morris game.
pub trait NmmGame: Sized {
    /// Applying `action` keeps the game's counters within their range.
    spec fn action_fits(&self, action: Action) -> bool;

    /// Creates a new instance with an empty board.
    fn new() -> Self;

    /// Applies the given action.
    fn action(&mut self, action: Action) -> Result<(), &'static str>
        requires
            old(self).action_fits(action),
    ;

    /// Undoes the last action.
    /// This fails if there is no last action to be undone.
    fn undo(&mut self) -> Result<(), &'static str>;

    /// All points of the game board.
    fn points(&self) -> &[Option<Piece>; 24];

    /// Returns if there is currently a winner.
    /// There are two win-conditions:
    /// - one player has removed 7 pieces of the opponent
    /// - one player cannot make a legal move
    fn winner(&self) -> Option<Player>;
}

impl NmmGame for Game {
    open spec fn action_fits(&self, action: Action) -> bool {
        counters_fit(self.model(), action)
    }

    fn new() -> (g: Self)
        ensures
            g@ == (GameView { current: initial_model(), history: Seq::empty() }),
    {
        let g = Game {
            board: [None; BOARD_POINTS],
            current_player: Color::White,
            white_placed: 0,
            black_placed: 0,
            phase: Phase::Placing,
            pending_removal: false,
            game_states: Vec::new(),
        };
        proof {
            assert(g.board@ =~= initial_model().board);
            assert(g.history() =~= Seq::<GameModel>::empty());
        }
        g
    }

    fn action(&mut self, action: Action) -> (r: Result<(), &'static str>)
        ensures
            (r, final(self)@) == action_step(old(self)@, action),
            r is Ok ==> final(self).game_states@ == old(self).game_states@.push(old(self).saved()),
            r is Err ==> *final(self) == *old(self),
    {
        // only the player whose turn it is may act
        if action.player != self.current_player {
            return Err("Not this player's turn");
        }

        match action.action {
            ActionKind::Place(p) => {
                // placing needs no pending removal and the placing phase
                if self.pending_removal {
                    return Err("Removal required");
                }
                if self.phase != Phase::Placing {
                    return Err("Cannot place outside placing phase");
                }
                if !Self::in_bounds(p) {
                    return Err("Out of bounds");
                }
                if self.board[p].is_some() {
                    return Err("Point occupied");
                }

                self.save_state();

                self.board[p] = Some(self.current_player);
                match self.current_player {
                    Color::White => self.white_placed = self.white_placed + 1,
                    Color::Black => self.black_placed = self.black_placed + 1,
                }

                // a new mill keeps the turn: a removal has to follow
                if self.forms_mill(p, self.current_player) {
                    self.pending_removal = true;
                } else {
                    self.switch_turn();
                }

                self.maybe_update_phase_after_action();
                Ok(())
            },
            ActionKind::Move(from, to) => {
                if self.pending_removal {
                    return Err("Removal required");
                }
                if !Self::in_bounds(from) || !Self::in_bounds(to) {
                    return Err("Out of bounds");
                }
                if from == to {
                    return Err("Invalid move");
                }
                if self.board[from] != Some(self.current_player) {
                    return Err("Source not owned by player");
                }
                if self.board[to].is_some() {
                    return Err("Destination occupied");
                }
                if self.phase == Phase::Placing {
                    return Err("Cannot move in placing phase");
                }

                // with three pieces left a player may fly; otherwise moves go to a neighbor
                let can_fly = self.can_player_fly(self.current_player);
                if !can_fly {
                    if !is_neighbor(from, to) {
                        return Err("Not a neighbor");
                    }
                }

                self.save_state();

                self.board[from] = None;
                self.board[to] = Some(self.current_player);

                if self.forms_mill(to, self.current_player) {
                    self.pending_removal = true;
                } else {
                    self.switch_turn();
                }
                Ok(())
            },
            ActionKind::Remove(p) => {
                if !self.pending_removal {
                    return Err("No removal pending");
                }
                if !Self::in_bounds(p) {
                    return Err("Out of bounds");
                }
                let victim = match self.board[p] {
                    Some(v) => v,
                    None => return Err("No piece to remove"),
                };
                if victim == self.current_player {
                    return Err("Cannot remove own piece");
                }

                // a piece in a mill is protected while the opponent has others
                let opponent = self.current_player.opposite();
                let opp_has_non_mill = self.opponent_has_non_mill_piece(opponent);
                if opp_has_non_mill && self.is_part_of_mill(p) {
                    return Err("Must remove non mill piece if possible");
                }

                self.save_state();

                self.board[p] = None;
                self.pending_removal = false;

                self.maybe_update_phase_after_action();
                self.switch_turn();
                Ok(())
            },
        }
    }

    fn undo(&mut self) -> (r: Result<(), &'static str>)
        ensures
            (r, final(self)@) == undo_step(old(self)@),
            r is Ok ==> final(self).game_states@ == old(self).game_states@.drop_last()
                && final(self).saved() == old(self).game_states@.last(),
            r is Err ==> final(self).saved() == old(self).saved()
                && final(self).game_states@ == old(self).game_states@,
    {
        match self.game_states.pop() {
            Some(prev) => {
                self.board = prev.board;
                self.current_player = prev.current_player;
                self.white_placed = prev.white_placed;
                self.black_placed = prev.black_placed;
                self.phase = prev.phase;
                self.pending_removal = prev.pending_removal;
                proof {
                    assert(self.history() =~= old(self).history().drop_last());
                    assert(self.board@ =~= old(self).history().last().board);
                }
                Ok(())
            },
            None => Err("No more actions to undo"),
        }
    }

    fn points(&self) -> (r: &[Option<Piece>; 24])
        ensures
            r@ == self.board@,
    {
        &self.board
    }

    fn winner(&self) -> (r: Option<Player>)
        ensures
            r == winner_of(self.model()),
    {
        // never a winner while pieces are still being placed
        if self.phase == Phase::Placing {
            return None;
        }

        // a player with fewer than 3 pieces has lost
        let white_pieces = self.count_pieces(Color::White);
        let black_pieces = self.count_pieces(Color::Black);
        if white_pieces < 3 {
            return Some(Color::Black);
        }
        if black_pieces < 3 {
            return Some(Color::White);
        }

        // a player who cannot fly and has no legal move has lost
        if white_pieces > 3 && !self.has_legal_move(Color::White) {
            return Some(Color::Black);
        }
        if black_pieces > 3 && !self.has_legal_move(Color::Black) {
            return Some(Color::White);
        }

        None
    }
}

/// Whether `to` is joined to `from` by a line of the board.
fn is_neighbor(from: Point, to: Point) -> (r: bool)
    requires
        from < 24,
    ensures
        r == adjacent(from as int, to),
{
    let ns = neighbors(from);
    let mut k: usize = 0;
    while k < ns.len()
        invariant
            k <= ns.len(),
            ns@ == neighbor_list(from as int),
            forall|q: int| 0 <= q < k ==> #[trigger] ns@[q] != to,
        decreases ns.len() - k,
    {
        if ns[k] == to {
            return true;
        }
        k = k + 1;
    }
    false
}

} // verus!
