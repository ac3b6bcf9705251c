use lib::{Action, ActionKind, Color, Game, NmmGame, Phase, Player};

fn act(game: &mut Game, text: &str) -> Result<(), &'static str> {
    let a: Action = text.parse().unwrap();
    game.action(a)
}

fn same_position(a: &Game, b: &Game) -> bool {
    a.board == b.board
        && a.current_player == b.current_player
        && a.white_placed == b.white_placed
        && a.black_placed == b.black_placed
        && a.phase == b.phase
        && a.pending_removal == b.pending_removal
}

fn snapshot(game: &Game) -> Game {
    let mut copy = Game::new();
    copy.board = game.board;
    copy.current_player = game.current_player;
    copy.white_placed = game.white_placed;
    copy.black_placed = game.black_placed;
    copy.phase = game.phase;
    copy.pending_removal = game.pending_removal;
    copy
}

/// Places 18 pieces without closing a mill; afterwards White is to move.
fn play_placing_phase(game: &mut Game) {
    let white = [0, 2, 4, 9, 11, 13, 15, 16, 20];
    let black = [1, 3, 5, 7, 8, 10, 12, 14, 17];
    for i in 0..9 {
        act(game, &format!("W P {}", white[i])).unwrap();
        act(game, &format!("B P {}", black[i])).unwrap();
    }
}

#[test]
fn opposite_swaps_and_returns() {
    assert_eq!(Color::White.opposite(), Color::Black);
    assert_eq!(Color::Black.opposite(), Color::White);
    assert_eq!(Color::White.opposite().opposite(), Color::White);
}

#[test]
fn undo_on_new_game_fails() {
    let mut game = Game::new();
    assert_eq!(game.undo(), Err("No more actions to undo"));
    assert!(game.points().iter().all(|p| p.is_none()));
    assert_eq!(game.current_player, Player::White);
}

#[test]
fn undo_reverts_each_action() {
    let mut game = Game::new();
    let start = snapshot(&game);
    act(&mut game, "W P 0").unwrap();
    let after_first = snapshot(&game);
    assert_eq!(game.board[0], Some(Color::White));
    assert_eq!(game.current_player, Color::Black);
    assert_eq!(game.white_placed, 1);
    act(&mut game, "B P 5").unwrap();
    assert_eq!(game.undo(), Ok(()));
    assert!(same_position(&game, &after_first));
    assert_eq!(game.undo(), Ok(()));
    assert!(same_position(&game, &start));
    assert_eq!(game.undo(), Err("No more actions to undo"));
}

#[test]
fn undo_reverts_a_removal() {
    let mut game = Game::new();
    for a in ["W P 0", "B P 1", "W P 6", "B P 2", "W P 7"] {
        act(&mut game, a).unwrap();
    }
    let before = snapshot(&game);
    act(&mut game, "W R 1").unwrap();
    assert_eq!(game.board[1], None);
    game.undo().unwrap();
    assert!(same_position(&game, &before));
    assert_eq!(game.board[1], Some(Color::Black));
    assert!(game.pending_removal);
}

#[test]
fn refused_action_changes_nothing() {
    let mut game = Game::new();
    act(&mut game, "W P 0").unwrap();
    let before = snapshot(&game);
    assert_eq!(act(&mut game, "B P 0"), Err("Point occupied"));
    assert!(same_position(&game, &before));
    // the refused action left no trace in the history
    game.undo().unwrap();
    assert!(game.points().iter().all(|p| p.is_none()));
    assert_eq!(game.undo(), Err("No more actions to undo"));
}

#[test]
fn mill_keeps_turn_and_demands_removal() {
    let mut game = Game::new();
    for a in ["W P 0", "B P 1", "W P 6", "B P 2", "W P 7"] {
        act(&mut game, a).unwrap();
    }
    assert!(game.pending_removal);
    assert_eq!(game.current_player, Color::White);
    assert_eq!(act(&mut game, "W P 10"), Err("Removal required"));
    assert_eq!(act(&mut game, "B P 10"), Err("Not this player's turn"));
    assert_eq!(act(&mut game, "W R 1"), Ok(()));
    assert!(!game.pending_removal);
    assert_eq!(game.current_player, Color::Black);
    assert_eq!(game.count_pieces(Color::Black), 1);
}

#[test]
fn placing_phase_ends_after_eighteen_pieces() {
    let mut game = Game::new();
    play_placing_phase(&mut game);
    assert_eq!(game.phase, Phase::Moving);
    assert_eq!(game.white_placed, 9);
    assert_eq!(game.black_placed, 9);
    assert_eq!(game.current_player, Color::White);
    assert_eq!(game.winner(), None);
    assert_eq!(act(&mut game, "W P 6"), Err("Cannot place outside placing phase"));
    // 20 -> 19 is a slide to a neighbor
    assert_eq!(act(&mut game, "W M 20 19"), Ok(()));
    assert_eq!(game.current_player, Color::Black);
}

#[test]
fn last_placement_with_mill_keeps_placing_until_removal() {
    let mut game = Game::new();
    game.white_placed = 8;
    game.black_placed = 9;
    game.board[0] = Some(Color::White);
    game.board[1] = Some(Color::White);
    game.board[5] = Some(Color::Black);
    act(&mut game, "W P 2").unwrap();
    assert_eq!(game.phase, Phase::Placing);
    assert!(game.pending_removal);
    act(&mut game, "W R 5").unwrap();
    assert_eq!(game.phase, Phase::Moving);
    assert_eq!(game.current_player, Color::Black);
}

#[test]
fn move_that_closes_a_mill() {
    let mut game = Game::new();
    game.phase = Phase::Moving;
    game.board[0] = Some(Color::White);
    game.board[1] = Some(Color::White);
    game.board[3] = Some(Color::White);
    game.board[5] = Some(Color::White);
    game.board[8] = Some(Color::Black);
    assert_eq!(act(&mut game, "W M 3 2"), Ok(()));
    assert_eq!(game.board[3], None);
    assert_eq!(game.board[2], Some(Color::White));
    assert!(game.pending_removal);
    assert_eq!(game.current_player, Color::White);
}

#[test]
fn every_action_error() {
    let mut game = Game::new();
    assert_eq!(act(&mut game, "B P 0"), Err("Not this player's turn"));
    assert_eq!(act(&mut game, "W P 24"), Err("Out of bounds"));
    assert_eq!(act(&mut game, "W M 0 1"), Err("Source not owned by player"));
    assert_eq!(act(&mut game, "W R 0"), Err("No removal pending"));
    act(&mut game, "W P 0").unwrap();
    assert_eq!(act(&mut game, "B P 0"), Err("Point occupied"));
    act(&mut game, "B P 1").unwrap();
    assert_eq!(act(&mut game, "W M 0 7"), Err("Cannot move in placing phase"));

    let mut game = Game::new();
    game.phase = Phase::Moving;
    game.board[0] = Some(Color::White);
    game.board[1] = Some(Color::Black);
    for p in [4, 10, 12, 14] {
        game.board[p] = Some(Color::White);
    }
    assert_eq!(act(&mut game, "W P 6"), Err("Cannot place outside placing phase"));
    assert_eq!(act(&mut game, "W M 0 24"), Err("Out of bounds"));
    assert_eq!(act(&mut game, "W M 0 0"), Err("Invalid move"));
    assert_eq!(act(&mut game, "W M 1 2"), Err("Source not owned by player"));
    assert_eq!(act(&mut game, "W M 0 1"), Err("Destination occupied"));
    assert_eq!(act(&mut game, "W M 0 2"), Err("Not a neighbor"));

    game.pending_removal = true;
    assert_eq!(act(&mut game, "W M 0 7"), Err("Removal required"));
    assert_eq!(act(&mut game, "W P 6"), Err("Removal required"));
    assert_eq!(act(&mut game, "W R 24"), Err("Out of bounds"));
    assert_eq!(act(&mut game, "W R 2"), Err("No piece to remove"));
    assert_eq!(act(&mut game, "W R 0"), Err("Cannot remove own piece"));

    // Black's mill 16-17-18 is protected while piece 1 is not in a mill
    for p in [16, 17, 18] {
        game.board[p] = Some(Color::Black);
    }
    assert_eq!(act(&mut game, "W R 17"), Err("Must remove non mill piece if possible"));
    assert_eq!(act(&mut game, "W R 1"), Ok(()));
    // with only mill pieces left, a mill piece may go
    game.current_player = Color::White;
    game.pending_removal = true;
    assert_eq!(act(&mut game, "W R 17"), Ok(()));
}

#[test]
fn winner_rules() {
    let mut game = Game::new();
    // never a winner while placing
    assert_eq!(game.winner(), None);
    game.phase = Phase::Moving;
    // both sides below three pieces: White's shortage is checked first
    assert_eq!(game.winner(), Some(Color::Black));
    for p in [0, 1, 2] {
        game.board[p] = Some(Color::White);
    }
    assert_eq!(game.winner(), Some(Color::White));
    for p in [8, 9, 10] {
        game.board[p] = Some(Color::Black);
    }
    assert_eq!(game.winner(), None);
    // White with four pieces, all blocked, loses
    let mut game = Game::new();
    game.phase = Phase::Moving;
    for p in [0, 1, 2, 3] {
        game.board[p] = Some(Color::White);
    }
    for p in [7, 9, 4, 11] {
        game.board[p] = Some(Color::Black);
    }
    assert!(!game.has_legal_move(Color::White));
    assert_eq!(game.winner(), Some(Color::Black));
    // a blocked player with exactly three pieces may fly, so has not lost
    game.board[3] = None;
    assert!(game.has_legal_move(Color::White));
    assert_eq!(game.winner(), None);
}

#[test]
fn parse_reads_each_kind() {
    let a: Action = "W P 0".parse().unwrap();
    assert_eq!(a, Action { player: Color::White, action: ActionKind::Place(0) });
    let a: Action = "B M 0 1".parse().unwrap();
    assert_eq!(a, Action { player: Color::Black, action: ActionKind::Move(0, 1) });
    let a: Action = "W R 5".parse().unwrap();
    assert_eq!(a, Action { player: Color::White, action: ActionKind::Remove(5) });
    // any white space separates words; a leading '+' is accepted
    let a = Action::parse("  B\tR\n +17  ").unwrap();
    assert_eq!(a, Action { player: Color::Black, action: ActionKind::Remove(17) });
    // extra words after a placement are ignored
    let a = Action::parse("W P 3 extra").unwrap();
    assert_eq!(a, Action { player: Color::White, action: ActionKind::Place(3) });
    // points outside the board are read; the game refuses them
    let a = Action::parse("W P 100").unwrap();
    assert_eq!(a.action, ActionKind::Place(100));
}

#[test]
fn parse_errors() {
    assert_eq!(Action::parse(""), Err("Invalid action format"));
    assert_eq!(Action::parse("W P"), Err("Invalid action format"));
    assert_eq!(Action::parse("X P 0"), Err("Invalid player"));
    assert_eq!(Action::parse("w P 0"), Err("Invalid player"));
    assert_eq!(Action::parse("W Q 0"), Err("Invalid action type"));
    assert_eq!(Action::parse("W P x"), Err("Invalid point"));
    assert_eq!(Action::parse("W P -1"), Err("Invalid point"));
    assert_eq!(Action::parse("W P +"), Err("Invalid point"));
    assert_eq!(Action::parse("W P 99999999999999999999999"), Err("Invalid point"));
    assert_eq!(Action::parse("W R 1.5"), Err("Invalid point"));
    assert_eq!(Action::parse("W M 0"), Err("Invalid move format"));
    assert_eq!(Action::parse("W M 0 1 2"), Err("Invalid move format"));
    assert_eq!(Action::parse("W M a 1"), Err("Invalid from point"));
    assert_eq!(Action::parse("W M 0 b"), Err("Invalid to point"));
    let r: Result<Action, &'static str> = "B M 1".parse();
    assert_eq!(r, Err("Invalid move format"));
}

#[test]
fn text_of_actions() {
    let a = Action { player: Color::White, action: ActionKind::Place(7) };
    assert_eq!(a.to_string(), "W P 7");
    let a = Action { player: Color::Black, action: ActionKind::Move(3, 12) };
    assert_eq!(a.to_string(), "B M 3 12");
    let a = Action { player: Color::White, action: ActionKind::Remove(23) };
    assert_eq!(a.to_string(), "W R 23");
    let a = Action { player: Color::Black, action: ActionKind::Place(1234567) };
    assert_eq!(a.to_string(), "B P 1234567");
}

#[test]
fn text_round_trip() {
    for a in [
        Action { player: Color::White, action: ActionKind::Place(0) },
        Action { player: Color::Black, action: ActionKind::Move(10, 21) },
        Action { player: Color::White, action: ActionKind::Remove(19) },
        Action { player: Color::Black, action: ActionKind::Place(usize::MAX) },
    ] {
        assert_eq!(Action::parse(&a.to_string()), Ok(a));
    }
}

#[test]
fn counters_stay_consistent_in_play() {
    let mut game = Game::new();
    play_placing_phase(&mut game);
    assert!(game.white_placed + game.black_placed <= 18);
    assert!(game.count_pieces(Color::White) <= game.white_placed as usize);
    assert!(game.count_pieces(Color::Black) <= game.black_placed as usize);
    for _ in 0..18 {
        game.undo().unwrap();
    }
    assert!(game.points().iter().all(|p| p.is_none()));
    assert_eq!(game.white_placed, 0);
    assert_eq!(game.phase, Phase::Placing);
}

fn play_bookkeeping_holds(game: &Game) -> bool {
    let wp = game.white_placed as i32;
    let bp = game.black_placed as i32;
    let parity_ok = match game.phase {
        Phase::Moving => wp == 9 && bp == 9,
        Phase::Placing => {
            let expected = if (game.current_player == Color::White) == game.pending_removal { 1 } else { 0 };
            (wp + bp < 18 || game.pending_removal) && wp - bp == expected
        }
    };
    let mill_ok = !game.pending_removal
        || (0..24).any(|p| game.board[p] == Some(game.current_player) && game.is_part_of_mill(p));
    wp + bp <= 18 && parity_ok && mill_ok
}

#[test]
fn bookkeeping_holds_through_play_and_undo() {
    let mut game = Game::new();
    assert!(play_bookkeeping_holds(&game));
    for a in ["W P 0", "B P 1", "W P 6", "B P 2", "W P 7", "W R 1", "B P 1", "W P 9"] {
        act(&mut game, a).unwrap();
        assert!(play_bookkeeping_holds(&game));
        let saved = game.game_states.len();
        assert_eq!(act(&mut game, "B R 23"), Err(if game.current_player == Color::Black {
            if game.pending_removal { "No piece to remove" } else { "No removal pending" }
        } else {
            "Not this player's turn"
        }));
        assert_eq!(game.game_states.len(), saved);
    }
    while game.undo().is_ok() {
        assert!(play_bookkeeping_holds(&game));
    }
    assert!(game.game_states.is_empty());
}
