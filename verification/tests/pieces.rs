use tetris::{ActivePiece, Color, GameBoard, TetrominoType, GRID_HEIGHT, GRID_WIDTH};

const ALL: [TetrominoType; 7] = [
    TetrominoType::I,
    TetrominoType::O,
    TetrominoType::T,
    TetrominoType::S,
    TetrominoType::Z,
    TetrominoType::J,
    TetrominoType::L,
];

const GRAY: Color = Color { red: 50, green: 50, blue: 50 };

fn piece(tetromino_type: TetrominoType, x: i32, y: i32, rotation: u8) -> ActivePiece {
    ActivePiece { tetromino_type, x, y, rotation }
}

#[test]
fn shapes_match_the_catalog() {
    assert_eq!(TetrominoType::I.shape(), vec![(0, 0), (1, 0), (2, 0), (3, 0)]);
    assert_eq!(TetrominoType::O.shape(), vec![(0, 0), (1, 0), (0, 1), (1, 1)]);
    assert_eq!(TetrominoType::T.shape(), vec![(1, 0), (0, 1), (1, 1), (2, 1)]);
    assert_eq!(TetrominoType::S.shape(), vec![(1, 0), (2, 0), (0, 1), (1, 1)]);
    assert_eq!(TetrominoType::Z.shape(), vec![(0, 0), (1, 0), (1, 1), (2, 1)]);
    assert_eq!(TetrominoType::J.shape(), vec![(0, 0), (0, 1), (1, 1), (2, 1)]);
    assert_eq!(TetrominoType::L.shape(), vec![(2, 0), (0, 1), (1, 1), (2, 1)]);
}

#[test]
fn colors_match_the_catalog() {
    assert_eq!(TetrominoType::I.color(), Color { red: 0, green: 90, blue: 90 });
    assert_eq!(TetrominoType::O.color(), Color { red: 90, green: 90, blue: 0 });
    assert_eq!(TetrominoType::T.color(), Color { red: 70, green: 0, blue: 90 });
    assert_eq!(TetrominoType::S.color(), Color { red: 0, green: 90, blue: 0 });
    assert_eq!(TetrominoType::Z.color(), Color { red: 90, green: 0, blue: 0 });
    assert_eq!(TetrominoType::J.color(), Color { red: 0, green: 0, blue: 90 });
    assert_eq!(TetrominoType::L.color(), Color { red: 90, green: 50, blue: 0 });
}

#[test]
fn colors_are_all_different() {
    for a in 0..7 {
        for b in 0..7 {
            if a != b {
                assert_ne!(ALL[a].color(), ALL[b].color());
            }
        }
    }
}

#[test]
fn from_index_follows_the_fixed_order() {
    for i in 0..7u8 {
        assert_eq!(TetrominoType::from_index(i), ALL[i as usize]);
    }
    assert_eq!(TetrominoType::from_index(7), TetrominoType::L);
    assert_eq!(TetrominoType::from_index(255), TetrominoType::L);
}

#[test]
fn random_gives_every_type_in_time() {
    let mut seen = [false; 7];
    for _ in 0..2000 {
        let t = TetrominoType::random();
        let at = ALL.iter().position(|&k| k == t).unwrap();
        seen[at] = true;
    }
    assert_eq!(seen, [true; 7]);
}

#[test]
fn new_piece_sits_at_the_spawn_anchor() {
    for t in ALL {
        let p = ActivePiece::new(t);
        assert_eq!(p, piece(t, 3, 0, 0));
        assert_eq!(p.x, (GRID_WIDTH as i32) / 2 - 2);
    }
}

#[test]
fn rotate_point_follows_the_quarter_turn_table() {
    let p = |r: u8| piece(TetrominoType::T, 0, 0, r);
    assert_eq!(p(0).rotate_point(2, 1), (2, 1));
    assert_eq!(p(1).rotate_point(2, 1), (-1, 2));
    assert_eq!(p(2).rotate_point(2, 1), (-2, -1));
    assert_eq!(p(3).rotate_point(2, 1), (1, -2));
    assert_eq!(p(1).rotate_point(-3, 5), (-5, -3));
    assert_eq!(p(3).rotate_point(-3, 5), (5, 3));
}

#[test]
fn rotation_counts_modulo_four() {
    for r in 0..=255u8 {
        let turned = piece(TetrominoType::L, 0, 0, r).rotate_point(3, -2);
        let reduced = piece(TetrominoType::L, 0, 0, r % 4).rotate_point(3, -2);
        assert_eq!(turned, reduced);
    }
}

#[test]
fn four_quarter_turns_are_the_identity() {
    let quarter = piece(TetrominoType::I, 0, 0, 1);
    for x in -3..=3 {
        for y in -3..=3 {
            let mut p = (x, y);
            for _ in 0..4 {
                p = quarter.rotate_point(p.0, p.1);
            }
            assert_eq!(p, (x, y));
        }
    }
}

#[test]
fn rotations_compose_by_adding_turns() {
    for r in 0..4u8 {
        for s in 0..4u8 {
            for x in -3..=3 {
                for y in -3..=3 {
                    let first = piece(TetrominoType::I, 0, 0, s).rotate_point(x, y);
                    let both = piece(TetrominoType::I, 0, 0, r).rotate_point(first.0, first.1);
                    let sum = piece(TetrominoType::I, 0, 0, (r + s) % 4).rotate_point(x, y);
                    assert_eq!(both, sum);
                }
            }
        }
    }
}

#[test]
fn blocks_shift_the_shape_to_the_anchor() {
    assert_eq!(piece(TetrominoType::I, 3, 0, 0).blocks(), vec![(3, 0), (4, 0), (5, 0), (6, 0)]);
    assert_eq!(piece(TetrominoType::O, 0, 18, 0).blocks(), vec![(0, 18), (1, 18), (0, 19), (1, 19)]);
    assert_eq!(piece(TetrominoType::T, -2, 7, 0).blocks(), vec![(-1, 7), (-2, 8), (-1, 8), (0, 8)]);
}

#[test]
fn blocks_apply_the_rotation() {
    assert_eq!(piece(TetrominoType::I, 5, 5, 1).blocks(), vec![(5, 5), (5, 6), (5, 7), (5, 8)]);
    assert_eq!(piece(TetrominoType::I, 5, 5, 2).blocks(), vec![(5, 5), (4, 5), (3, 5), (2, 5)]);
    assert_eq!(piece(TetrominoType::I, 5, 5, 3).blocks(), vec![(5, 5), (5, 4), (5, 3), (5, 2)]);
    assert_eq!(piece(TetrominoType::T, 4, 4, 1).blocks(), vec![(4, 5), (3, 4), (3, 5), (3, 6)]);
    assert_eq!(piece(TetrominoType::L, 4, 4, 2).blocks(), vec![(2, 4), (4, 3), (3, 3), (2, 3)]);
    assert_eq!(piece(TetrominoType::S, 4, 4, 7).blocks(), vec![(4, 3), (4, 2), (5, 4), (5, 3)]);
}

#[test]
fn blocks_at_the_edge_of_the_range() {
    let low = piece(TetrominoType::I, i32::MIN + 3, i32::MIN + 3, 2);
    assert_eq!(low.blocks()[3], (i32::MIN, i32::MIN + 3));
    let high = piece(TetrominoType::I, i32::MAX - 3, i32::MAX - 3, 1);
    assert_eq!(high.blocks()[3], (i32::MAX - 3, i32::MAX));
}

#[test]
fn fresh_piece_fits_on_empty_board() {
    let board = GameBoard::default();
    for t in ALL {
        assert!(!ActivePiece::new(t).check_collision(0, 0, &board));
    }
}

#[test]
fn collision_left_of_the_grid() {
    let board = GameBoard::default();
    let p = piece(TetrominoType::O, 0, 5, 0);
    assert!(!p.check_collision(0, 0, &board));
    assert!(p.check_collision(-1, 0, &board));
    assert!(piece(TetrominoType::O, -1, 5, 0).check_collision(0, 0, &board));
}

#[test]
fn collision_right_of_the_grid() {
    let board = GameBoard::default();
    let p = piece(TetrominoType::O, 8, 5, 0);
    assert!(!p.check_collision(0, 0, &board));
    assert!(p.check_collision(1, 0, &board));
    assert!(piece(TetrominoType::I, 7, 5, 0).check_collision(0, 0, &board));
    assert!(!piece(TetrominoType::I, 6, 5, 0).check_collision(0, 0, &board));
}

#[test]
fn collision_below_the_grid() {
    let board = GameBoard::default();
    let p = piece(TetrominoType::O, 4, 18, 0);
    assert!(!p.check_collision(0, 0, &board));
    assert!(p.check_collision(0, 1, &board));
    assert!(piece(TetrominoType::I, 3, GRID_HEIGHT as i32, 0).check_collision(0, 0, &board));
    assert!(!piece(TetrominoType::I, 3, GRID_HEIGHT as i32 - 1, 0).check_collision(0, 0, &board));
}

#[test]
fn no_collision_above_the_grid() {
    let mut board = GameBoard::default();
    board.set_cell(5, 0, Some(GRAY));
    assert!(!piece(TetrominoType::I, 3, -1, 0).check_collision(0, 0, &board));
    assert!(!piece(TetrominoType::I, 5, 0, 3).check_collision(0, -1, &board));
    assert!(!piece(TetrominoType::O, 4, -1000, 0).check_collision(0, 0, &board));
    assert!(piece(TetrominoType::I, 3, -1, 0).check_collision(0, 1, &board));
}

#[test]
fn collision_above_the_grid_still_checks_the_sides() {
    let board = GameBoard::default();
    assert!(piece(TetrominoType::O, -1, -5, 0).check_collision(0, 0, &board));
    assert!(piece(TetrominoType::O, 9, -5, 0).check_collision(0, 0, &board));
    assert!(!piece(TetrominoType::O, 8, -5, 0).check_collision(0, 0, &board));
}

#[test]
fn collision_with_an_occupied_cell() {
    let mut board = GameBoard::default();
    board.set_cell(4, 10, Some(GRAY));
    let p = piece(TetrominoType::O, 4, 8, 0);
    assert!(!p.check_collision(0, 0, &board));
    assert!(p.check_collision(0, 1, &board));
    assert!(p.check_collision(-1, 1, &board));
    assert!(!p.check_collision(-2, 1, &board));
    assert!(!p.check_collision(1, 1, &board));
    assert!(p.check_collision(0, 2, &board));
    assert!(!p.check_collision(0, 3, &board));
}

#[test]
fn collision_is_total_on_far_away_pieces() {
    let board = GameBoard::default();
    assert!(piece(TetrominoType::I, i32::MAX, 0, 0).check_collision(i32::MAX, 0, &board));
    assert!(piece(TetrominoType::I, i32::MIN, 0, 0).check_collision(i32::MIN, 0, &board));
    assert!(piece(TetrominoType::I, 3, i32::MAX, 0).check_collision(0, i32::MAX, &board));
    assert!(!piece(TetrominoType::I, 3, i32::MIN, 0).check_collision(0, i32::MIN, &board));
}

#[test]
fn hard_drop_reaches_the_floor() {
    let board = GameBoard::default();
    let dropped = ActivePiece::new(TetrominoType::I).hard_drop(&board);
    assert_eq!(dropped, piece(TetrominoType::I, 3, 19, 0));
    let dropped = ActivePiece::new(TetrominoType::O).hard_drop(&board);
    assert_eq!(dropped, piece(TetrominoType::O, 3, 18, 0));
}

#[test]
fn hard_drop_stops_on_the_stack() {
    let mut board = GameBoard::default();
    board.set_cell(4, 12, Some(GRAY));
    let dropped = piece(TetrominoType::T, 3, 2, 0).hard_drop(&board);
    assert_eq!(dropped, piece(TetrominoType::T, 3, 10, 0));
    let beside = piece(TetrominoType::T, 5, 2, 0).hard_drop(&board);
    assert_eq!(beside, piece(TetrominoType::T, 5, 18, 0));
}

#[test]
fn hard_drop_of_a_grounded_piece_stays() {
    let board = GameBoard::default();
    let p = piece(TetrominoType::O, 0, 18, 0);
    assert_eq!(p.hard_drop(&board), p);
    let outside = piece(TetrominoType::O, -7, 3, 0);
    assert_eq!(outside.hard_drop(&board), outside);
}
