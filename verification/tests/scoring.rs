use tetris::block::TetrisBlock;
use tetris::game::TetrisGame;

/// Lays a horizontal bar of four cells on the floor, starting at column
/// `x`; the respawned piece has kind `next`.
fn drop_flat_bar(game: &mut TetrisGame, x: isize, next: TetrisBlock) {
    game.rotate_falling(true);
    game.move_falling_horizontal(x - 4);
    game.smash_down_falling_with(next);
}

/// Builds a board whose bottom row clears with exactly one full row:
/// two flat bars cover columns 0..8, then a square fills 8 and 9.
fn play_one_row_clear() -> TetrisGame {
    let mut game = TetrisGame::new_with_kind(10, 20, TetrisBlock::I);
    drop_flat_bar(&mut game, 0, TetrisBlock::I);
    drop_flat_bar(&mut game, 4, TetrisBlock::O);
    game.move_falling_horizontal(4);
    game.smash_down_falling_with(TetrisBlock::O);
    game
}

#[test]
fn clearing_one_row_awards_fifty() {
    let game = play_one_row_clear();
    assert_eq!(game.score(), 50);
}

#[test]
fn clear_shifts_rows_down_and_empties_top() {
    let game = play_one_row_clear();
    // the square's upper half sat on row 18 and sinks into row 19
    assert_eq!(game.board.get(8, 19), TetrisBlock::O);
    assert_eq!(game.board.get(9, 19), TetrisBlock::O);
    assert_eq!(game.board.get(8, 18), TetrisBlock::EMPTY);
    // the cleared bars are gone
    for x in 0..8 {
        assert_eq!(game.board.get(x, 19), TetrisBlock::EMPTY);
    }
    for y in 0..18 {
        for x in 0..10 {
            assert_eq!(game.board.get(x, y), TetrisBlock::EMPTY);
        }
    }
}

#[test]
fn clearing_two_rows_awards_two_hundred() {
    let mut game = TetrisGame::new_with_kind(10, 20, TetrisBlock::O);
    let columns: [isize; 5] = [0, 2, 4, 6, 8];
    for x in columns {
        game.move_falling_horizontal(x - 4);
        game.smash_down_falling_with(TetrisBlock::O);
    }
    assert_eq!(game.score(), 200);
    for x in 0..10 {
        assert_eq!(game.board.get(x, 19), TetrisBlock::EMPTY);
        assert_eq!(game.board.get(x, 18), TetrisBlock::EMPTY);
    }
    assert!(!game.is_game_over());
}

#[test]
fn clearing_four_rows_awards_eight_hundred() {
    let mut game = TetrisGame::new_with_kind(10, 20, TetrisBlock::I);
    for x in 0isize..10 {
        game.move_falling_horizontal(x - 4);
        game.smash_down_falling_with(TetrisBlock::I);
    }
    assert_eq!(game.score(), 800);
    for y in 16..20 {
        for x in 0..10 {
            assert_eq!(game.board.get(x, y), TetrisBlock::EMPTY);
        }
    }
    assert!(!game.is_game_over());
}

#[test]
fn no_clear_means_no_points() {
    let mut game = TetrisGame::new_with_kind(10, 20, TetrisBlock::O);
    game.smash_down_falling_with(TetrisBlock::O);
    game.smash_down_falling_with(TetrisBlock::T);
    assert_eq!(game.score(), 0);
}

#[test]
fn restart_keeps_the_score() {
    let mut game = play_one_row_clear();
    assert_eq!(game.score(), 50);
    // stack bars up column four until a spawn is blocked
    game.smash_down_falling_with(TetrisBlock::I);
    for _ in 0..4 {
        game.smash_down_falling_with(TetrisBlock::I);
    }
    assert!(game.is_game_over());
    assert_eq!(game.score(), 50);
    game.update_with(4001, TetrisBlock::O);
    assert!(!game.is_game_over());
    assert_eq!(game.score(), 50);
    for y in 0..20 {
        for x in 0..10 {
            assert_eq!(game.board.get(x, y), TetrisBlock::EMPTY);
        }
    }
}
