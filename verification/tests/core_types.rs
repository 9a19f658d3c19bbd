use tetris::BLOCK_SIZE;
use tetris::FALL_SPEED_MS;
use tetris::RESTART_TIME_MS;
use tetris::block::TetrisBlock;
use tetris::board::TetrisBoard;
use tetris::piece::TetrisPiece;
use tetris::to_coord;

fn piece_cells(p: &TetrisPiece) -> Vec<Vec<TetrisBlock>> {
    let (w, h) = p.size();
    let mut rows = Vec::new();
    for y in 0..h {
        let mut row = Vec::new();
        for x in 0..w {
            row.push(p.get(x, y));
        }
        rows.push(row);
    }
    rows
}

#[test]
fn constants_match() {
    assert_eq!(BLOCK_SIZE, 32);
    assert_eq!(FALL_SPEED_MS, 500);
    assert_eq!(RESTART_TIME_MS, 4000);
    assert_eq!(to_coord(0), 0);
    assert_eq!(to_coord(3), 96);
    assert_eq!(to_coord(10), 320);
}

#[test]
fn colors_match_table() {
    assert_eq!(TetrisBlock::L.color(), (2, 10, 10, 10));
    assert_eq!(TetrisBlock::T.color(), (8, 0, 5, 10));
    assert_eq!(TetrisBlock::I.color(), (3, 3, 8, 10));
    assert_eq!(TetrisBlock::J.color(), (0, 0, 9, 10));
    assert_eq!(TetrisBlock::O.color(), (0, 9, 9, 10));
    assert_eq!(TetrisBlock::S.color(), (0, 8, 0, 10));
    assert_eq!(TetrisBlock::Z.color(), (8, 0, 0, 10));
    assert_eq!(TetrisBlock::EMPTY.color(), (0, 0, 0, 0));
}

#[test]
fn index_to_kind() {
    assert_eq!(TetrisBlock::get(0), TetrisBlock::L);
    assert_eq!(TetrisBlock::get(1), TetrisBlock::T);
    assert_eq!(TetrisBlock::get(2), TetrisBlock::I);
    assert_eq!(TetrisBlock::get(3), TetrisBlock::J);
    assert_eq!(TetrisBlock::get(4), TetrisBlock::O);
    assert_eq!(TetrisBlock::get(5), TetrisBlock::S);
    assert_eq!(TetrisBlock::get(6), TetrisBlock::Z);
    assert_eq!(TetrisBlock::get(7), TetrisBlock::EMPTY);
    assert_eq!(TetrisBlock::get(99), TetrisBlock::EMPTY);
}

#[test]
fn random_never_empty() {
    for _ in 0..100 {
        assert_ne!(TetrisBlock::random(), TetrisBlock::EMPTY);
    }
}

#[test]
fn canonical_shapes() {
    let e = TetrisBlock::EMPTY;
    let i = TetrisPiece::new(0, 0, TetrisBlock::I);
    assert_eq!(i.size(), (1, 4));
    assert_eq!(
        piece_cells(&i),
        vec![
            vec![TetrisBlock::I],
            vec![TetrisBlock::I],
            vec![TetrisBlock::I],
            vec![TetrisBlock::I]
        ]
    );
    let l = TetrisPiece::new(0, 0, TetrisBlock::L);
    assert_eq!(l.size(), (2, 3));
    assert_eq!(
        piece_cells(&l),
        vec![
            vec![TetrisBlock::L, e],
            vec![TetrisBlock::L, e],
            vec![TetrisBlock::L, TetrisBlock::L]
        ]
    );
    let j = TetrisPiece::new(0, 0, TetrisBlock::J);
    assert_eq!(j.size(), (2, 3));
    assert_eq!(
        piece_cells(&j),
        vec![
            vec![e, TetrisBlock::J],
            vec![e, TetrisBlock::J],
            vec![TetrisBlock::J, TetrisBlock::J]
        ]
    );
    let s = TetrisPiece::new(0, 0, TetrisBlock::S);
    assert_eq!(s.size(), (3, 2));
    assert_eq!(
        piece_cells(&s),
        vec![
            vec![e, TetrisBlock::S, TetrisBlock::S],
            vec![TetrisBlock::S, TetrisBlock::S, e]
        ]
    );
    let z = TetrisPiece::new(0, 0, TetrisBlock::Z);
    assert_eq!(z.size(), (3, 2));
    assert_eq!(
        piece_cells(&z),
        vec![
            vec![TetrisBlock::Z, TetrisBlock::Z, e],
            vec![e, TetrisBlock::Z, TetrisBlock::Z]
        ]
    );
    let t = TetrisPiece::new(0, 0, TetrisBlock::T);
    assert_eq!(t.size(), (3, 2));
    assert_eq!(
        piece_cells(&t),
        vec![
            vec![e, TetrisBlock::T, e],
            vec![TetrisBlock::T, TetrisBlock::T, TetrisBlock::T]
        ]
    );
    let o = TetrisPiece::new(0, 0, TetrisBlock::O);
    assert_eq!(o.size(), (2, 2));
    assert_eq!(
        piece_cells(&o),
        vec![
            vec![TetrisBlock::O, TetrisBlock::O],
            vec![TetrisBlock::O, TetrisBlock::O]
        ]
    );
    let n = TetrisPiece::new(0, 0, TetrisBlock::EMPTY);
    assert_eq!(n.size(), (1, 1));
    assert_eq!(piece_cells(&n), vec![vec![e]]);
}

#[test]
fn piece_anchor_is_kept() {
    let mut p = TetrisPiece::new(5, 7, TetrisBlock::T);
    assert_eq!((p.x, p.y), (5, 7));
    p.rotate(true);
    assert_eq!((p.x, p.y), (5, 7));
    p.rotate(false);
    assert_eq!((p.x, p.y), (5, 7));
}

#[test]
fn rotate_l_clockwise_once() {
    let e = TetrisBlock::EMPTY;
    let mut l = TetrisPiece::new(0, 0, TetrisBlock::L);
    l.rotate(true);
    assert_eq!(l.size(), (3, 2));
    assert_eq!(
        piece_cells(&l),
        vec![
            vec![TetrisBlock::L, TetrisBlock::L, TetrisBlock::L],
            vec![TetrisBlock::L, e, e]
        ]
    );
}

#[test]
fn rotate_four_times_clockwise_restores() {
    let kinds = [
        TetrisBlock::L,
        TetrisBlock::T,
        TetrisBlock::S,
        TetrisBlock::I,
        TetrisBlock::O,
        TetrisBlock::Z,
        TetrisBlock::J,
    ];
    for kind in kinds {
        let mut p = TetrisPiece::new(0, 0, kind);
        let before = piece_cells(&p);
        for _ in 0..4 {
            p.rotate(true);
        }
        assert_eq!(piece_cells(&p), before);
    }
}

#[test]
fn rotate_four_times_counter_clockwise_restores() {
    let kinds = [
        TetrisBlock::L,
        TetrisBlock::T,
        TetrisBlock::S,
        TetrisBlock::I,
        TetrisBlock::O,
        TetrisBlock::Z,
        TetrisBlock::J,
    ];
    for kind in kinds {
        let mut p = TetrisPiece::new(0, 0, kind);
        let before = piece_cells(&p);
        for _ in 0..4 {
            p.rotate(false);
        }
        assert_eq!(piece_cells(&p), before);
    }
}

#[test]
fn rotate_back_and_forth_restores() {
    let mut p = TetrisPiece::new(0, 0, TetrisBlock::S);
    let before = piece_cells(&p);
    p.rotate(true);
    p.rotate(false);
    assert_eq!(piece_cells(&p), before);
}

#[test]
fn board_starts_empty() {
    let b = TetrisBoard::new(4, 5);
    assert_eq!(b.size(), (4, 5));
    for x in 0..4 {
        for y in 0..5 {
            assert_eq!(b.get(x, y), TetrisBlock::EMPTY);
        }
    }
}

#[test]
fn board_set_and_get() {
    let mut b = TetrisBoard::new(4, 5);
    b.set(2, 3, TetrisBlock::Z);
    assert_eq!(b.get(2, 3), TetrisBlock::Z);
    assert_eq!(b.get(3, 2), TetrisBlock::EMPTY);
    assert_eq!(b.get(2, 2), TetrisBlock::EMPTY);
}

#[test]
fn board_with_no_rows_reports_zero_size() {
    let b = TetrisBoard::new(4, 0);
    assert_eq!(b.size(), (0, 0));
}

#[test]
fn burn_into_writes_occupied_cells_only() {
    let mut b = TetrisBoard::new(4, 4);
    let s = TetrisPiece::new(1, 2, TetrisBlock::S);
    s.burn_into(&mut b);
    assert_eq!(b.get(1, 2), TetrisBlock::EMPTY);
    assert_eq!(b.get(2, 2), TetrisBlock::S);
    assert_eq!(b.get(3, 2), TetrisBlock::S);
    assert_eq!(b.get(1, 3), TetrisBlock::S);
    assert_eq!(b.get(2, 3), TetrisBlock::S);
    assert_eq!(b.get(3, 3), TetrisBlock::EMPTY);
    assert_eq!(b.get(0, 0), TetrisBlock::EMPTY);
}
