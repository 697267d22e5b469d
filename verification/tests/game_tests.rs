use dot_matrix::display::{BusEvent, Matrix, RecordingBus};
use dot_matrix::game::Game;
use dot_matrix::tetrimino::Tetrimino;

#[test]
fn tick_composites_the_piece_into_the_cache() {
    let piece = Tetrimino::new_o();
    let mut game = Game::with_piece(1, piece);
    let mut display = Matrix::new(RecordingBus::new(), 64, 1).unwrap();
    game.tick(&mut display);
    display.flush().unwrap();
    let events = display.bus().recorded();
    // The O piece at the origin fills field cells (0,0), (1,0), (0,1),
    // (1,1): chip columns 0 and 1 of rows 0 and 1, so rows 0 and 1 carry
    // 0b1100_0000 and the others are blank.
    assert_eq!(events.len(), 8 * 3);
    for row in 0..8usize {
        let frame = &events[row * 3..row * 3 + 3];
        assert_eq!(frame[0], BusEvent::Select);
        let expected = if row < 2 { 0b1100_0000 } else { 0 };
        assert_eq!(frame[1], BusEvent::Command(row as u8 + 1, expected));
        assert_eq!(frame[2], BusEvent::Deselect);
    }
}

#[test]
fn tick_advances_gravity_by_one_cell() {
    let piece = Tetrimino::new_t();
    let mut game = Game::with_piece(2, piece);
    let mut display = Matrix::new(RecordingBus::new(), 128, 2).unwrap();
    assert_eq!(game.current_piece().y, 0);
    game.tick(&mut display);
    assert_eq!(game.current_piece().y, 1);
    game.tick(&mut display);
    assert_eq!(game.current_piece().y, 2);
}

#[test]
fn piece_respawns_past_the_field() {
    let mut piece = Tetrimino::new_i();
    piece.position.y = 16;
    let mut game = Game::with_piece(2, piece);
    let mut display = Matrix::new(RecordingBus::new(), 128, 2).unwrap();
    game.tick(&mut display);
    let view = game.current_piece();
    assert_eq!(view.y, 0);
    assert!(view.x + view.width <= 8);
}

#[test]
fn out_of_field_cells_are_dropped_without_fault() {
    // A piece on the last field row draws partly past the buffer; the
    // out-of-range writes are ignored.
    let mut piece = Tetrimino::new_o();
    piece.position.y = 7;
    let mut game = Game::with_piece(1, piece);
    let mut display = Matrix::new(RecordingBus::new(), 64, 1).unwrap();
    game.tick(&mut display);
    display.flush().unwrap();
    let events = display.bus().recorded();
    // Only field row 7 (chip column 7 -> bit 0) is visible, in rows 0 and 1.
    for row in 0..8usize {
        let expected = if row < 2 { 0b0000_0001 } else { 0 };
        assert_eq!(events[row * 3 + 1], BusEvent::Command(row as u8 + 1, expected));
    }
}

#[test]
fn new_games_spawn_inside_the_field() {
    for _ in 0..100 {
        let game = Game::new(2);
        let view = game.current_piece();
        assert_eq!(view.y, 0);
        assert!(view.x + view.width <= 8);
    }
}

#[test]
fn current_piece_reports_the_constructed_piece() {
    let mut piece = Tetrimino::new_s();
    piece.position.x = 3;
    piece.position.y = 5;
    let game = Game::with_piece(2, piece);
    let view = game.current_piece();
    assert_eq!((view.width, view.height, view.x, view.y), (3, 2, 3, 5));
}
