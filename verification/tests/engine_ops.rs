use tetris::block::TetrisBlock;
use tetris::game::TetrisGame;

/// Checks the running-game invariant by hand: every occupied cell of the
/// falling piece lies on the board over an `EMPTY` board cell.
fn assert_no_overlap(game: &TetrisGame) {
    let (bw, bh) = game.board.size();
    let (pw, ph) = game.falling_piece.size();
    for lx in 0..pw {
        for ly in 0..ph {
            if game.falling_piece.get(lx, ly) != TetrisBlock::EMPTY {
                let bx = game.falling_piece.x + lx;
                let by = game.falling_piece.y + ly;
                assert!(bx < bw && by < bh);
                assert_eq!(game.board.get(bx, by), TetrisBlock::EMPTY);
            }
        }
    }
}

#[test]
fn spawn_on_empty_board_never_game_over() {
    let kinds = [
        TetrisBlock::L,
        TetrisBlock::T,
        TetrisBlock::S,
        TetrisBlock::I,
        TetrisBlock::O,
        TetrisBlock::Z,
        TetrisBlock::J,
    ];
    for kind in kinds {
        let game = TetrisGame::new_with_kind(10, 20, kind);
        assert!(!game.is_game_over());
        assert_eq!((game.falling_piece.x, game.falling_piece.y), (4, 0));
        assert_no_overlap(&game);
    }
}

#[test]
fn new_game_starts_clean() {
    let game = TetrisGame::new(10, 20);
    assert!(!game.is_game_over());
    assert_eq!(game.score(), 0);
    assert_eq!((game.falling_piece.x, game.falling_piece.y), (4, 0));
}

#[test]
fn soft_drop_moves_one_row() {
    let mut game = TetrisGame::new_with_kind(10, 20, TetrisBlock::O);
    game.move_falling_down_with(TetrisBlock::O);
    assert_eq!(game.falling_piece.y, 1);
    game.move_falling_down_with(TetrisBlock::O);
    assert_eq!(game.falling_piece.y, 2);
    assert_no_overlap(&game);
}

#[test]
fn horizontal_move_applies_within_bounds() {
    let mut game = TetrisGame::new_with_kind(10, 20, TetrisBlock::O);
    game.move_falling_horizontal(-4);
    assert_eq!(game.falling_piece.x, 0);
    game.move_falling_horizontal(8);
    assert_eq!(game.falling_piece.x, 8);
    assert_no_overlap(&game);
}

#[test]
fn horizontal_move_past_edge_is_ignored() {
    let mut game = TetrisGame::new_with_kind(10, 20, TetrisBlock::O);
    game.move_falling_horizontal(-5);
    assert_eq!(game.falling_piece.x, 4);
    game.move_falling_horizontal(5);
    assert_eq!(game.falling_piece.x, 4);
    game.move_falling_horizontal(100);
    assert_eq!(game.falling_piece.x, 4);
    game.move_falling_horizontal(-100);
    assert_eq!(game.falling_piece.x, 4);
    assert_no_overlap(&game);
}

#[test]
fn rotation_in_open_space_applies() {
    let mut game = TetrisGame::new_with_kind(10, 20, TetrisBlock::I);
    assert_eq!(game.falling_piece.size(), (1, 4));
    game.rotate_falling(true);
    assert_eq!(game.falling_piece.size(), (4, 1));
    assert_no_overlap(&game);
    game.rotate_falling(false);
    assert_eq!(game.falling_piece.size(), (1, 4));
    assert_no_overlap(&game);
}

#[test]
fn rotation_without_room_is_rejected() {
    let mut game = TetrisGame::new_with_kind(10, 20, TetrisBlock::I);
    game.rotate_falling(true);
    for _ in 0..19 {
        game.move_falling_down_with(TetrisBlock::O);
    }
    assert_eq!(game.falling_piece.y, 19);
    // a bar lying on the floor has no room to swing upright; the turn is
    // undone and the shape restored exactly
    game.rotate_falling(true);
    assert_eq!(game.falling_piece.size(), (4, 1));
    assert_eq!(game.falling_piece.y, 19);
    assert_no_overlap(&game);
}

#[test]
fn hard_drop_locks_at_bottom() {
    let mut game = TetrisGame::new_with_kind(10, 20, TetrisBlock::O);
    game.smash_down_falling_with(TetrisBlock::O);
    assert_eq!(game.board.get(4, 18), TetrisBlock::O);
    assert_eq!(game.board.get(5, 18), TetrisBlock::O);
    assert_eq!(game.board.get(4, 19), TetrisBlock::O);
    assert_eq!(game.board.get(5, 19), TetrisBlock::O);
    assert_eq!(game.board.get(4, 17), TetrisBlock::EMPTY);
    // a fresh piece spawned at the top
    assert_eq!((game.falling_piece.x, game.falling_piece.y), (4, 0));
    assert!(!game.is_game_over());
    assert_no_overlap(&game);
}

#[test]
fn hard_drop_lands_deterministically() {
    let mut a = TetrisGame::new_with_kind(10, 20, TetrisBlock::T);
    let mut b = TetrisGame::new_with_kind(10, 20, TetrisBlock::T);
    a.move_falling_horizontal(-2);
    b.move_falling_horizontal(-2);
    a.smash_down_falling_with(TetrisBlock::T);
    b.smash_down_falling_with(TetrisBlock::T);
    for x in 0..10 {
        for y in 0..20 {
            assert_eq!(a.board.get(x, y), b.board.get(x, y));
        }
    }
}

#[test]
fn hard_drop_stacks_on_previous_piece() {
    let mut game = TetrisGame::new_with_kind(10, 20, TetrisBlock::O);
    game.smash_down_falling_with(TetrisBlock::O);
    game.smash_down_falling_with(TetrisBlock::O);
    // the second O rests exactly on top of the first
    assert_eq!(game.board.get(4, 16), TetrisBlock::O);
    assert_eq!(game.board.get(5, 17), TetrisBlock::O);
    assert_eq!(game.board.get(4, 15), TetrisBlock::EMPTY);
    assert_no_overlap(&game);
}

#[test]
fn update_accumulates_and_descends() {
    let mut game = TetrisGame::new_with_kind(10, 20, TetrisBlock::O);
    game.update_with(400, TetrisBlock::O);
    assert_eq!(game.falling_piece.y, 0);
    game.update_with(101, TetrisBlock::O);
    assert_eq!(game.falling_piece.y, 1);
    game.update_with(500, TetrisBlock::O);
    assert_eq!(game.falling_piece.y, 1);
    game.update_with(1, TetrisBlock::O);
    assert_eq!(game.falling_piece.y, 2);
}

#[test]
fn blocked_spawn_flips_game_over_and_restart_after_delay() {
    let mut game = TetrisGame::new_with_kind(3, 4, TetrisBlock::I);
    assert!(!game.is_game_over());
    // the bar cannot descend on a four-row board; it locks in place and
    // the next bar spawns into the same occupied column
    game.smash_down_falling_with(TetrisBlock::I);
    assert!(game.is_game_over());
    assert_eq!(game.board.get(0, 0), TetrisBlock::I);
    assert_eq!(game.board.get(0, 3), TetrisBlock::I);
    // movement is ignored while the game is over
    game.move_falling_horizontal(1);
    game.move_falling_down_with(TetrisBlock::I);
    game.smash_down_falling_with(TetrisBlock::I);
    assert!(game.is_game_over());
    // the overlay stays for the full restart delay of accumulated time
    game.update_with(4000, TetrisBlock::O);
    assert!(game.is_game_over());
    game.update_with(1, TetrisBlock::O);
    assert!(!game.is_game_over());
    for x in 0..3 {
        for y in 0..4 {
            assert_eq!(game.board.get(x, y), TetrisBlock::EMPTY);
        }
    }
    assert_eq!((game.falling_piece.x, game.falling_piece.y), (0, 0));
}

#[test]
fn invariant_holds_through_move_sequence() {
    let mut game = TetrisGame::new_with_kind(10, 20, TetrisBlock::L);
    let moves: [i8; 12] = [0, 1, 1, 2, 0, 3, 1, 0, 2, 3, 1, 0];
    let kinds = [
        TetrisBlock::T,
        TetrisBlock::S,
        TetrisBlock::Z,
        TetrisBlock::J,
        TetrisBlock::O,
        TetrisBlock::I,
    ];
    let mut next = 0;
    for m in moves {
        match m {
            0 => game.move_falling_down_with(kinds[next % kinds.len()]),
            1 => game.move_falling_horizontal(if next % 2 == 0 { -2 } else { 3 }),
            2 => game.rotate_falling(next % 2 == 0),
            _ => game.smash_down_falling_with(kinds[next % kinds.len()]),
        }
        next += 1;
        if !game.is_game_over() {
            assert_no_overlap(&game);
        }
    }
}

#[test]
fn cell_to_draw_overlays_falling_piece() {
    let mut game = TetrisGame::new_with_kind(10, 20, TetrisBlock::O);
    assert_eq!(game.cell_to_draw(4, 0), TetrisBlock::O);
    assert_eq!(game.cell_to_draw(5, 1), TetrisBlock::O);
    assert_eq!(game.cell_to_draw(6, 0), TetrisBlock::EMPTY);
    assert_eq!(game.cell_to_draw(0, 19), TetrisBlock::EMPTY);
    game.smash_down_falling_with(TetrisBlock::T);
    // locked cells now come from the board, the spawned piece from above
    assert_eq!(game.cell_to_draw(4, 19), TetrisBlock::O);
    assert_eq!(game.cell_to_draw(5, 0), TetrisBlock::T);
}
