use vstd::prelude::*;
use crate::color::{Color, other};
use crate::board::{BoardView, count_color, line_full, neighbor_list, on_line};
use crate::action::{Action, ActionKind, action_from_text, action_text, player_letter};
use crate::text::{
    decimal, is_white_space, lemma_decimal, lemma_usize_from_decimal, lemma_words_append_space,
    lemma_words_append_word, words,
};
use crate::game::{
    Game, GameModel, GameView, Phase, action_outcome, action_step, counters_fit, initial_model,
    undo_step, winner_of,
};

verus! {

/// Undoing right after an accepted action gives back the game exactly as it
/// was before the action.
pub proof fn lemma_undo_reverts_action(v: GameView, a: Action)
    requires
        action_step(v, a).0 is Ok,
    ensures
        undo_step(action_step(v, a).1) == (Ok::<(), &'static str>(()), v),
{
    let after = action_step(v, a).1;
    assert(after.history.drop_last() =~= v.history);
}

/// Undoing right after an accepted action gives back every field of the
/// game as it was before the action, the saved positions included: given
/// what `action` promises of `after_action` when it returns `Ok` and what
/// `undo` promises of `after_undo` when it returns `Ok`.
pub proof fn lemma_undo_restores_game(before: Game, after_action: Game, after_undo: Game)
    requires
        after_action.game_states@ == before.game_states@.push(before.saved()),
        after_undo.game_states@ == after_action.game_states@.drop_last(),
        after_undo.saved() == after_action.game_states@.last(),
    ensures
        after_undo.board == before.board,
        after_undo.current_player == before.current_player,
        after_undo.white_placed == before.white_placed,
        after_undo.black_placed == before.black_placed,
        after_undo.phase == before.phase,
        after_undo.pending_removal == before.pending_removal,
        after_undo.game_states@ == before.game_states@,
{
    assert(after_action.game_states@.drop_last() =~= before.game_states@);
}

/// A refused action leaves the game unchanged, its history included.
pub proof fn lemma_refused_action_changes_nothing(v: GameView, a: Action)
    requires
        action_step(v, a).0 is Err,
    ensures
        action_step(v, a).1 == v,
{
}

/// Only the player whose turn it is can act, and while a removal is pending
/// the only action accepted is a removal.
pub proof fn lemma_accepted_action_is_by_player_to_move(m: GameModel, a: Action)
    requires
        action_outcome(m, a) is Ok,
    ensures
        a.player == m.current_player,
        m.pending_removal ==> a.action is Remove,
        !m.pending_removal ==> !(a.action is Remove),
{
}

/// The bookkeeping that holds in every position reached by play from the
/// start:
/// - at most 18 pieces are placed, and each side has no more pieces on the
///   board than it has placed;
/// - once moving, each side has placed 9;
/// - while placing, fewer than 18 pieces are placed or a removal is pending,
///   and White has placed one more piece than Black exactly when White is to
///   move with a removal pending or Black is to move with none; otherwise
///   both have placed the same number;
/// - a pending removal goes with a full mill of the side to move.
pub open spec fn consistent(m: GameModel) -> bool {
    &&& m.board.len() == 24
    &&& 0 <= m.white_placed
    &&& 0 <= m.black_placed
    &&& m.white_placed + m.black_placed <= 18
    &&& count_color(m.board, Color::White) <= m.white_placed
    &&& count_color(m.board, Color::Black) <= m.black_placed
    &&& m.phase == Phase::Moving ==> m.white_placed == 9 && m.black_placed == 9
    &&& m.phase == Phase::Placing ==> {
        &&& m.white_placed + m.black_placed < 18 || m.pending_removal
        &&& m.white_placed - m.black_placed == if (m.current_player == Color::White)
            == m.pending_removal {
            1int
        } else {
            0int
        }
    }
    &&& m.pending_removal ==> exists|k: int|
        0 <= k < 16 && #[trigger] line_full(m.board, k, m.current_player)
}

/// The current position and every saved one are consistent.
pub open spec fn consistent_game(v: GameView) -> bool {
    &&& consistent(v.current)
    &&& forall|i: int| 0 <= i < v.history.len() ==> consistent(#[trigger] v.history[i])
}

/// Writing `x` on point `i` changes the count of `c` by what leaves and what arrives.
pub proof fn lemma_count_update(board: BoardView, i: int, x: Option<Color>, c: Color)
    requires
        0 <= i < board.len(),
    ensures
        count_color(board.update(i, x), c) + (if board[i] == Some(c) { 1int } else { 0int })
            == count_color(board, c) + (if x == Some(c) { 1int } else { 0int }),
    decreases board.len(),
{
    let b2 = board.update(i, x);
    if i == board.len() - 1 {
        assert(b2.drop_last() =~= board.drop_last());
    } else {
        lemma_count_update(board.drop_last(), i, x, c);
        assert(b2.drop_last() =~= board.drop_last().update(i, x));
    }
}

/// A new game is consistent.
pub proof fn lemma_initial_consistent()
    ensures
        consistent_game(GameView { current: initial_model(), history: Seq::empty() }),
{
    lemma_count_empty(initial_model().board, Color::White);
    lemma_count_empty(initial_model().board, Color::Black);
}

/// A board without pieces has no piece of any color.
pub proof fn lemma_count_empty(board: BoardView, c: Color)
    requires
        forall|i: int| 0 <= i < board.len() ==> board[i] is None,
    ensures
        count_color(board, c) == 0,
    decreases board.len(),
{
    if board.len() > 0 {
        lemma_count_empty(board.drop_last(), c);
    }
}

/// Every action, accepted or refused, keeps a consistent game consistent.
pub proof fn lemma_action_keeps_consistent(v: GameView, a: Action)
    requires
        consistent_game(v),
    ensures
        consistent_game(action_step(v, a).1),
{
    let m = v.current;
    let cur = m.current_player;
    match action_outcome(m, a) {
        Ok(next) => {
            match a.action {
                ActionKind::Place(p) => {
                    lemma_count_update(m.board, p as int, Some(cur), Color::White);
                    lemma_count_update(m.board, p as int, Some(cur), Color::Black);
                },
                ActionKind::Move(from, to) => {
                    let b1 = m.board.update(from as int, None);
                    lemma_count_update(m.board, from as int, None, Color::White);
                    lemma_count_update(m.board, from as int, None, Color::Black);
                    lemma_count_update(b1, to as int, Some(cur), Color::White);
                    lemma_count_update(b1, to as int, Some(cur), Color::Black);
                },
                ActionKind::Remove(p) => {
                    lemma_count_update(m.board, p as int, None, Color::White);
                    lemma_count_update(m.board, p as int, None, Color::Black);
                },
            }
            let after = action_step(v, a).1;
            assert forall|i: int| 0 <= i < after.history.len() implies consistent(#[trigger] after.history[i]) by {
                if i < v.history.len() {
                    assert(after.history[i] == v.history[i]);
                }
            }
        },
        Err(_) => {},
    }
}

/// Undoing keeps a consistent game consistent.
pub proof fn lemma_undo_keeps_consistent(v: GameView)
    requires
        consistent_game(v),
    ensures
        consistent_game(undo_step(v).1),
{
    if v.history.len() > 0 {
        let after = undo_step(v).1;
        assert(consistent(v.history[v.history.len() - 1]));
        assert forall|i: int| 0 <= i < after.history.len() implies consistent(#[trigger] after.history[i]) by {
            assert(after.history[i] == v.history[i]);
        }
    }
}

/// In a consistent position no action can push the piece counters out of
/// their range: a game played from the start always meets the requirement
/// of `action`.
pub proof fn lemma_consistent_counters_fit(m: GameModel, a: Action)
    requires
        consistent(m),
    ensures
        counters_fit(m, a),
{
}


/// The text of a word of one letter is that word.
proof fn lemma_letter_word(s: Seq<char>, c: char)
    requires
        !is_white_space(c),
        s.len() == 0 || is_white_space(s.last()),
    ensures
        words(s + seq![c]) == words(s).push(seq![c]),
{
    lemma_words_append_word(s, seq![c]);
}

/// Reading the text of an action gives the action back.
#[verifier::spinoff_prover]
#[verifier::rlimit(40)]
pub proof fn lemma_text_round_trip(a: Action)
    ensures
        action_from_text(action_text(a)) == Ok::<Action, &'static str>(a),
{
    let letter = player_letter(a.player);
    let s1 = seq![letter];
    let s2 = s1.push(' ');
    lemma_letter_word(Seq::empty(), letter);
    assert(Seq::<char>::empty() + seq![letter] =~= s1);
    assert(words(Seq::<char>::empty()) =~= Seq::<Seq<char>>::empty());
    lemma_words_append_space(s1, ' ');
    match a.action {
        ActionKind::Place(p) => {
            lemma_letter_word(s2, 'P');
            let s3 = (s2 + seq!['P']).push(' ');
            lemma_words_append_space(s2 + seq!['P'], ' ');
            lemma_decimal(p as nat);
            lemma_words_append_word(s3, decimal(p as nat));
            lemma_usize_from_decimal(p);
            assert(action_text(a) =~= s3 + decimal(p as nat));
            assert(words(action_text(a)) =~= seq![seq![letter], seq!['P'], decimal(p as nat)]);
        },
        ActionKind::Remove(p) => {
            lemma_letter_word(s2, 'R');
            let s3 = (s2 + seq!['R']).push(' ');
            lemma_words_append_space(s2 + seq!['R'], ' ');
            lemma_decimal(p as nat);
            lemma_words_append_word(s3, decimal(p as nat));
            lemma_usize_from_decimal(p);
            assert(action_text(a) =~= s3 + decimal(p as nat));
            assert(words(action_text(a)) =~= seq![seq![letter], seq!['R'], decimal(p as nat)]);
        },
        ActionKind::Move(from, to) => {
            lemma_letter_word(s2, 'M');
            let s3 = (s2 + seq!['M']).push(' ');
            lemma_words_append_space(s2 + seq!['M'], ' ');
            lemma_decimal(from as nat);
            lemma_decimal(to as nat);
            lemma_words_append_word(s3, decimal(from as nat));
            let s4 = (s3 + decimal(from as nat)).push(' ');
            lemma_words_append_space(s3 + decimal(from as nat), ' ');
            lemma_words_append_word(s4, decimal(to as nat));
            lemma_usize_from_decimal(from);
            lemma_usize_from_decimal(to);
            assert(action_text(a) =~= s4 + decimal(to as nat));
            assert(words(action_text(a)) =~= seq![seq![letter], seq!['M'], decimal(from as nat), decimal(to as nat)]);
        },
    }
}


// ---------------------------------------------------------------------------
// What each kind of action does, and who wins
// ---------------------------------------------------------------------------

/// Some mill line through `p` is fully held by `c` on `board`.
pub open spec fn line_through_full(board: BoardView, p: usize, c: Color) -> bool {
    exists|k: int| 0 <= k < 16 && #[trigger] on_line(k, p) && line_full(board, k, c)
}

/// Every piece of `c` on `board` has all its neighbors occupied.
pub open spec fn all_pieces_blocked(board: BoardView, c: Color) -> bool {
    forall|i: int, k: int|
        0 <= i < 24 && board[i] == Some(c) && 0 <= k < neighbor_list(i).len()
            ==> #[trigger] board[neighbor_list(i)[k] as int] is Some
}

/// `c` has a piece on the board that lies on no mill line fully held by `c`.
pub open spec fn has_piece_outside_mills(board: BoardView, c: Color) -> bool {
    exists|i: int|
        0 <= i < 24 && #[trigger] board[i] == Some(c)
            && forall|k: int| 0 <= k < 16 && on_line(k, i as usize) ==> !line_full(board, k, c)
}

/// An accepted placement puts a piece of the player to move on a free point
/// while placing, counts it for that player, and demands a removal exactly
/// when some mill line through that point is then fully held by the placer;
/// otherwise the turn passes to the opponent. The placing phase ends when the
/// 18th piece is placed with no removal pending.
pub proof fn lemma_placement(v: GameView, a: Action, p: usize)
    requires
        v.current.board.len() == 24,
        action_step(v, a).0 is Ok,
        a.action == ActionKind::Place(p),
    ensures
        ({
            let m = v.current;
            let n = action_step(v, a).1.current;
            let cur = m.current_player;
            &&& a.player == cur
            &&& m.phase == Phase::Placing && !m.pending_removal
            &&& p < 24 && m.board[p as int] is None
            &&& n.board == m.board.update(p as int, Some(cur))
            &&& n.pending_removal == line_through_full(n.board, p, cur)
            &&& n.current_player == (if n.pending_removal { cur } else { other(cur) })
            &&& n.white_placed == m.white_placed + (if cur == Color::White { 1int } else { 0int })
            &&& n.black_placed == m.black_placed + (if cur == Color::Black { 1int } else { 0int })
            &&& (n.phase == Phase::Moving <==> n.white_placed + n.black_placed == 18 && !n.pending_removal)
        }),
{
}

/// An accepted move, in the moving phase with no removal pending, takes a
/// piece of the player to move to a different, empty point: a neighbor, or
/// any point when that player has exactly three pieces. No piece is gained
/// or lost. A removal is then demanded exactly when some mill line through
/// the destination is fully held by the mover; otherwise the turn passes.
pub proof fn lemma_move(v: GameView, a: Action, from: usize, to: usize)
    requires
        v.current.board.len() == 24,
        action_step(v, a).0 is Ok,
        a.action == ActionKind::Move(from, to),
    ensures
        ({
            let m = v.current;
            let n = action_step(v, a).1.current;
            let cur = m.current_player;
            &&& a.player == cur
            &&& m.phase == Phase::Moving && !m.pending_removal
            &&& from < 24 && to < 24 && from != to
            &&& m.board[from as int] == Some(cur)
            &&& m.board[to as int] is None
            &&& count_color(m.board, cur) == 3 || neighbor_list(from as int).contains(to)
            &&& n.board == m.board.update(from as int, None).update(to as int, Some(cur))
            &&& count_color(n.board, Color::White) == count_color(m.board, Color::White)
            &&& count_color(n.board, Color::Black) == count_color(m.board, Color::Black)
            &&& n.pending_removal == line_through_full(n.board, to, cur)
            &&& n.current_player == (if n.pending_removal { cur } else { other(cur) })
            &&& n.phase == m.phase
            &&& n.white_placed == m.white_placed && n.black_placed == m.black_placed
        }),
{
    let m = v.current;
    let cur = m.current_player;
    let b1 = m.board.update(from as int, None);
    lemma_count_update(m.board, from as int, None, Color::White);
    lemma_count_update(m.board, from as int, None, Color::Black);
    lemma_count_update(b1, to as int, Some(cur), Color::White);
    lemma_count_update(b1, to as int, Some(cur), Color::Black);
}

/// An accepted removal follows a mill: it takes one piece of the opponent,
/// never one that lies in a full mill of the opponent while the opponent has
/// a piece outside every mill, in either phase. Afterwards no removal is
/// pending and the opponent is to move; the placing phase ends if all 18
/// pieces are placed.
pub proof fn lemma_removal(v: GameView, a: Action, p: usize)
    requires
        v.current.board.len() == 24,
        action_step(v, a).0 is Ok,
        a.action == ActionKind::Remove(p),
    ensures
        ({
            let m = v.current;
            let n = action_step(v, a).1.current;
            let cur = m.current_player;
            let opp = other(cur);
            &&& a.player == cur
            &&& m.pending_removal
            &&& p < 24 && m.board[p as int] == Some(opp)
            &&& !(line_through_full(m.board, p, opp) && has_piece_outside_mills(m.board, opp))
            &&& n.board == m.board.update(p as int, None)
            &&& count_color(n.board, opp) + 1 == count_color(m.board, opp)
            &&& count_color(n.board, cur) == count_color(m.board, cur)
            &&& !n.pending_removal
            &&& n.current_player == opp
            &&& (n.phase == Phase::Moving <==> m.phase == Phase::Moving || m.white_placed + m.black_placed == 18)
            &&& n.white_placed == m.white_placed && n.black_placed == m.black_placed
        }),
{
    let m = v.current;
    let cur = m.current_player;
    let opp = other(cur);
    lemma_count_update(m.board, p as int, None, cur);
    lemma_count_update(m.board, p as int, None, opp);
    assert(m.board[p as int] == Some(opp)) by {
        match m.board[p as int] {
            Some(x) => { assert(x != cur); },
            None => {},
        }
    }
    lemma_protected_piece(m.board, p as int, opp);
}

/// A piece on a full mill line of its owner is in a mill, and a piece on no
/// such line can be removed.
proof fn lemma_protected_piece(board: BoardView, p: int, c: Color)
    requires
        0 <= p < 24,
        board[p] == Some(c),
    ensures
        line_through_full(board, p as usize, c) ==> crate::board::in_mill(board, p as usize),
        has_piece_outside_mills(board, c) ==> crate::game::has_removable_piece(board, c),
{
    if has_piece_outside_mills(board, c) {
        let i = choose|i: int|
            0 <= i < 24 && #[trigger] board[i] == Some(c)
                && forall|k: int| 0 <= k < 16 && on_line(k, i as usize) ==> !line_full(board, k, c);
        assert(!crate::board::in_mill(board, i as usize));
    }
}

/// There is no winner while pieces are being placed.
pub proof fn lemma_no_winner_while_placing(m: GameModel)
    requires
        m.phase == Phase::Placing,
    ensures
        winner_of(m) is None,
{
}

/// In the moving phase a side with fewer than three pieces has lost (White
/// is judged first when both have).
pub proof fn lemma_short_side_loses(m: GameModel, c: Color)
    requires
        m.phase == Phase::Moving,
        count_color(m.board, c) < 3,
        c == Color::White || count_color(m.board, Color::White) >= 3,
    ensures
        winner_of(m) == Some(other(c)),
{
}

/// In the moving phase, with both sides holding at least three pieces, a
/// side with more than three pieces all of which are blocked has lost, the
/// other side being not in that situation too (White is judged first).
pub proof fn lemma_blocked_side_loses(m: GameModel, c: Color)
    requires
        m.phase == Phase::Moving,
        m.board.len() == 24,
        count_color(m.board, Color::White) >= 3,
        count_color(m.board, Color::Black) >= 3,
        count_color(m.board, c) > 3,
        all_pieces_blocked(m.board, c),
        c == Color::White || !(count_color(m.board, Color::White) > 3
            && all_pieces_blocked(m.board, Color::White)),
    ensures
        winner_of(m) == Some(other(c)),
{
}

/// In the moving phase, with both sides holding at least three pieces and
/// neither side blocked with more than three, there is no winner.
pub proof fn lemma_no_winner_otherwise(m: GameModel)
    requires
        m.phase == Phase::Moving,
        m.board.len() == 24,
        count_color(m.board, Color::White) >= 3,
        count_color(m.board, Color::Black) >= 3,
        !(count_color(m.board, Color::White) > 3 && all_pieces_blocked(m.board, Color::White)),
        !(count_color(m.board, Color::Black) > 3 && all_pieces_blocked(m.board, Color::Black)),
    ensures
        winner_of(m) is None,
{
}

} // verus!
