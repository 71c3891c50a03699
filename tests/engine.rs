use tetrs::field::{Collision, Field, Square, HEIGHT, WIDTH};
use tetrs::input::Input;
use tetrs::level::Level;
use tetrs::running::Running;
use tetrs::state::GameState;
use tetrs::tetromino::{Color, Kind, Tetromino};

fn running(current: Kind, next: Kind) -> Running {
    Running { state: GameState::new(0, current, next) }
}

fn row_is_empty(field: &Field, row: usize) -> bool {
    (0..WIDTH).all(|c| field.get(row, c) == Square::Empty)
}

#[test]
fn drop_on_empty_field_settles_and_promotes_next() {
    let mut run = running(Kind::T, Kind::O);
    let before = run.state.field.clone();
    assert!(run.handle(&[Input::Drop], Kind::I).is_none());
    // The T settled on the bottom: its stem at row 18, its bar on row 19.
    assert_eq!(run.state.field.get(18, 4), Square::Occupied(Color::Magenta));
    assert_eq!(run.state.field.get(19, 3), Square::Occupied(Color::Magenta));
    assert_eq!(run.state.field.get(19, 4), Square::Occupied(Color::Magenta));
    assert_eq!(run.state.field.get(19, 5), Square::Occupied(Color::Magenta));
    assert!(row_is_empty(&before, 19));
    // No line was cleared, so nothing was scored.
    assert_eq!(run.state.level, Level { current: 0, cleared_lines: 0, score: 0 });
    assert_eq!(run.state.current, Tetromino::new(Kind::O));
    assert_eq!(run.state.next, Tetromino::new(Kind::I));
    // The gravity counter counted this tick only.
    assert_eq!(run.state.ticks, 1);
    assert_eq!(run.state.field.len(), HEIGHT);
}

#[test]
fn completing_bottom_row_clears_one_line() {
    let mut run = running(Kind::I, Kind::O);
    for c in 1..WIDTH {
        run.state.field.set(HEIGHT - 1, c, Square::Occupied(Color::Blue));
    }
    // A vertical I in column 0 fills the gap.
    run.state.current = Tetromino { kind: Kind::I, rotation: 1, x: -2, y: 0 };
    assert!(run.handle(&[Input::Drop], Kind::T).is_none());
    assert_eq!(run.state.level.cleared_lines, 1);
    assert_eq!(run.state.level.score, 40);
    assert_eq!(run.state.field.len(), HEIGHT);
    assert!(row_is_empty(&run.state.field, 0));
    // The three upper cells of the I moved down one row.
    for r in 17..HEIGHT {
        assert_eq!(run.state.field.get(r, 0), Square::Occupied(Color::Cyan));
    }
    for c in 1..WIDTH {
        assert_eq!(run.state.field.get(HEIGHT - 1, c), Square::Empty);
    }
}

#[test]
fn clear_lines_counts_the_full_row() {
    let mut field = Field::new();
    for c in 0..WIDTH {
        field.set(HEIGHT - 1, c, Square::Occupied(Color::Red));
    }
    field.set(HEIGHT - 2, 5, Square::Occupied(Color::Green));
    assert_eq!(field.clear_lines(), 1);
    assert_eq!(field.len(), HEIGHT);
    assert!(row_is_empty(&field, 0));
    assert_eq!(field.get(HEIGHT - 1, 5), Square::Occupied(Color::Green));
    assert_eq!(field.get(HEIGHT - 1, 4), Square::Empty);
    assert_eq!(field.clear_lines(), 0);
    assert_eq!(field.get(HEIGHT - 1, 5), Square::Occupied(Color::Green));
}

#[test]
fn blocked_spawn_finishes_the_game() {
    let mut run = running(Kind::O, Kind::T);
    run.state.field.set(0, 4, Square::Occupied(Color::Red));
    let finished = run.handle(&[], Kind::I).expect("the game should be over");
    assert_eq!(finished.state.current, Tetromino::new(Kind::O));
    assert_eq!(finished.state.field.get(0, 4), Square::Occupied(Color::Red));
    assert_eq!(run.state.ticks, 0);
}

#[test]
fn clear_lines_without_full_rows_changes_nothing() {
    let mut field = Field::new();
    field.set(HEIGHT - 1, 0, Square::Occupied(Color::Red));
    field.set(3, 9, Square::Occupied(Color::Cyan));
    for _ in 0..3 {
        assert_eq!(field.clear_lines(), 0);
        assert_eq!(field.len(), HEIGHT);
    }
    assert_eq!(field.get(HEIGHT - 1, 0), Square::Occupied(Color::Red));
    assert_eq!(field.get(3, 9), Square::Occupied(Color::Cyan));
    let mut empty = Field::new();
    assert_eq!(empty.clear_lines(), 0);
    assert_eq!(empty.len(), HEIGHT);
}

#[test]
fn out_of_bounds_is_reported_before_blocks() {
    let mut field = Field::new();
    for r in 0..HEIGHT {
        for c in 0..WIDTH {
            field.set(r, c, Square::Occupied(Color::Yellow));
        }
    }
    let left = Tetromino { kind: Kind::I, rotation: 0, x: -1, y: 0 };
    assert_eq!(field.check_collision(&left), Some(Collision::OutOfBounds));
    let below = Tetromino { kind: Kind::O, rotation: 0, x: 0, y: HEIGHT as i32 - 1 };
    assert_eq!(field.check_collision(&below), Some(Collision::OutOfBounds));
    let far = Tetromino { kind: Kind::T, rotation: 0, x: 1000, y: -1000 };
    assert_eq!(field.check_collision(&far), Some(Collision::OutOfBounds));
    let inside = Tetromino::new(Kind::T);
    assert_eq!(field.check_collision(&inside), Some(Collision::WithBlock));
    assert_eq!(Field::new().check_collision(&inside), None);
}

#[test]
fn blocked_moves_are_taken_back() {
    let mut run = running(Kind::O, Kind::T);
    run.state.current = Tetromino { kind: Kind::O, rotation: 0, x: -1, y: 5 };
    run.move_left();
    assert_eq!(run.state.current, Tetromino { kind: Kind::O, rotation: 0, x: -1, y: 5 });
    run.move_right();
    assert_eq!(run.state.current, Tetromino { kind: Kind::O, rotation: 0, x: 0, y: 5 });

    // A vertical I at the right wall cannot turn flat.
    run.state.current = Tetromino { kind: Kind::I, rotation: 1, x: 7, y: 5 };
    run.rotate();
    assert_eq!(run.state.current, Tetromino { kind: Kind::I, rotation: 1, x: 7, y: 5 });

    // A block to the right stops a move right.
    run.state.current = Tetromino::new(Kind::O);
    run.state.field.set(0, 6, Square::Occupied(Color::Red));
    run.move_right();
    assert_eq!(run.state.current, Tetromino::new(Kind::O));
    run.move_left();
    assert_eq!(run.state.current, Tetromino { x: 2, ..Tetromino::new(Kind::O) });
}

#[test]
fn drop_from_the_top_lands_on_the_floor() {
    let mut run = running(Kind::O, Kind::T);
    assert!(run.drop());
    // The O occupies rows 0 and 1 of its box: it rests with its anchor at row 18.
    assert_eq!(run.state.current.y, HEIGHT as i32 - 2);
    assert_eq!(run.state.field.get(HEIGHT - 1, 4), Square::Occupied(Color::Yellow));
    assert_eq!(run.state.field.get(HEIGHT - 2, 5), Square::Occupied(Color::Yellow));
}

#[test]
fn forced_step_moves_or_settles() {
    let mut run = running(Kind::O, Kind::T);
    assert!(!run.try_move_down());
    assert_eq!(run.state.current.y, 1);
    run.state.current.y = HEIGHT as i32 - 2;
    assert!(run.try_move_down());
    assert_eq!(run.state.field.get(HEIGHT - 1, 4), Square::Occupied(Color::Yellow));
}

#[test]
fn preview_sits_where_the_piece_would_land() {
    let mut run = running(Kind::O, Kind::T);
    run.state.field.set(10, 4, Square::Occupied(Color::Red));
    let preview = run.determine_preview().expect("room below");
    assert_eq!(preview, Tetromino { y: 8, ..Tetromino::new(Kind::O) });
    let mut lower = preview;
    lower.move_down();
    assert!(run.check_collision(&lower).is_some());

    run.state.current.y = 8;
    assert_eq!(run.determine_preview(), None);

    let mut run = running(Kind::T, Kind::O);
    assert!(run.handle(&[Input::Left], Kind::I).is_none());
    let preview = run.state.preview.expect("room below");
    assert_eq!(preview.x, run.state.current.x);
    assert_eq!(preview.rotation, run.state.current.rotation);
    assert_eq!(preview.y, HEIGHT as i32 - 2);
}

#[test]
fn only_the_first_command_counts() {
    let mut run = running(Kind::T, Kind::O);
    assert!(run.handle(&[Input::Left, Input::Left, Input::Left], Kind::I).is_none());
    assert_eq!(run.state.current.x, 2);
    assert!(run.handle(&[Input::Rotate, Input::Drop], Kind::I).is_none());
    assert_eq!(run.state.current, Tetromino { rotation: 1, x: 2, ..Tetromino::new(Kind::T) });
}

#[test]
fn gravity_steps_after_the_period() {
    let mut run = running(Kind::T, Kind::O);
    run.state.level = Level::new(29);
    assert!(run.handle(&[], Kind::I).is_none());
    assert_eq!(run.state.ticks, 1);
    assert_eq!(run.state.current.y, 0);
    assert!(run.handle(&[], Kind::I).is_none());
    assert_eq!(run.state.ticks, 0);
    assert_eq!(run.state.current.y, 1);
}

#[test]
fn finished_game_state_is_kept() {
    let mut run = running(Kind::I, Kind::T);
    run.state.current.y = -5;
    let finished = run.handle(&[Input::Drop], Kind::O).expect("off the field");
    assert_eq!(finished.state.current.y, -5);
    finished.handle();
    assert!(row_is_empty(&finished.state.field, HEIGHT - 1));
}

#[test]
fn collision_parts_report_separately() {
    let mut field = Field::new();
    let piece = Tetromino::new(Kind::L);
    assert!(!Field::is_out_of_bounds(&piece));
    assert!(!field.has_collision_with_block(&piece));
    field.set(1, 3, Square::Occupied(Color::Green));
    assert!(field.has_collision_with_block(&piece));
    assert!(Field::is_out_of_bounds(&Tetromino { x: 8, ..piece }));
    assert!(!Field::is_out_of_bounds(&Tetromino { x: 7, ..piece }));
}

#[test]
fn solidify_only_when_blocked_below() {
    let mut run = running(Kind::O, Kind::T);
    assert!(!run.try_solidify());
    assert_eq!(run.state.current, Tetromino::new(Kind::O));
    assert!(row_is_empty(&run.state.field, 0));
    run.state.field.set(2, 5, Square::Occupied(Color::Red));
    assert!(run.try_solidify());
    assert_eq!(run.state.field.get(0, 4), Square::Occupied(Color::Yellow));
    assert_eq!(run.state.field.get(1, 5), Square::Occupied(Color::Yellow));
    assert_eq!(run.state.current, Tetromino::new(Kind::O));
}

#[test]
fn finished_reports_a_blocked_piece() {
    let mut run = running(Kind::J, Kind::T);
    assert!(!run.is_finished());
    run.state.field.set(1, 4, Square::Occupied(Color::Red));
    assert!(run.is_finished());
}
