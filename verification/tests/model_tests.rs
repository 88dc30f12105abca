use sudoku_grid::input::{App, Key};
use sudoku_grid::model::{Colour, Message, SudokuModel, SudokuValue};

#[test]
fn blank_model_texts() {
    let m = SudokuModel::new();
    assert_eq!(m.text(0, 0), " ");
    assert_eq!(m.get(4, 7).value, 0);
    assert!(m.get(4, 7).enabled);
    let v = SudokuValue { value: 5, enabled: true };
    assert_eq!(v.text(), "5");
    let d: SudokuValue = Default::default();
    assert_eq!(d.value, 0);
    assert!(d.enabled);
}

#[test]
fn set_wraps_to_one_digit() {
    let mut m = SudokuModel::new();
    m.set(2, 3, 7);
    assert_eq!(m.get(2, 3).value, 7);
    m.set(2, 3, 12);
    assert_eq!(m.get(2, 3).value, 2);
    m.set(2, 3, 255);
    assert_eq!(m.get(2, 3).value, 9);
    assert_eq!(m.text(2, 3), "9");
}

#[test]
fn add_wraps_over_digit_range() {
    let mut m = SudokuModel::new();
    m.add(1, 1, -1);
    assert_eq!(m.get(1, 1).value, 9, "one below blank wraps to nine");
    m.add(1, 1, 1);
    assert_eq!(m.get(1, 1).value, 0, "one above nine wraps to blank");
    m.add(1, 1, 3);
    assert_eq!(m.get(1, 1).value, 3);
}

#[test]
fn get_mut_writes_through() {
    let mut m = SudokuModel::new();
    let cell = m.get_mut(8, 8);
    cell.value = 4;
    cell.enabled = false;
    assert_eq!(m.get(8, 8).value, 4);
    assert!(!m.get(8, 8).enabled);
    assert_eq!(m.get(7, 8).value, 0);
}

#[test]
fn fixed_cell_never_changes() {
    let mut m = SudokuModel::example();
    assert_eq!(m.get(0, 0).value, 1);
    assert!(!m.get(0, 0).enabled);
    m.set(0, 0, 5);
    assert_eq!(m.get(0, 0).value, 1);
    m.add(0, 0, 1);
    assert_eq!(m.get(0, 0).value, 1);
    m.add(0, 0, -1);
    assert_eq!(m.get(0, 0).value, 1);
    m.set(0, 0, 0);
    assert_eq!(m.get(0, 0).value, 1);
    m.update(Message::Click(0, 0));
    assert_eq!(m.get(0, 0).value, 1);
}

#[test]
fn fixed_cell_ignores_all_key_input() {
    let m = SudokuModel::example();
    let mut app = App::new(m);
    assert_eq!(app.cursor_x, 0);
    assert_eq!(app.cursor_y, 0);
    for key in [Key::Digit(5), Key::Increment, Key::Decrement, Key::Clear] {
        app.handle_key(key);
        assert_eq!(app.model.get(0, 0).value, 1, "{key:?} must not edit a fixed cell");
    }
}

#[test]
fn cursor_moves_saturate_at_edges() {
    let mut app = App::new(SudokuModel::new());
    app.handle_key(Key::Up);
    app.handle_key(Key::Left);
    assert_eq!((app.cursor_x, app.cursor_y), (0, 0));
    app.handle_key(Key::Right);
    app.handle_key(Key::Down);
    assert_eq!((app.cursor_x, app.cursor_y), (1, 1));
    for _ in 0..20 {
        app.handle_key(Key::Right);
        app.handle_key(Key::Down);
    }
    assert_eq!((app.cursor_x, app.cursor_y), (8, 8));
    app.handle_key(Key::Other);
    assert_eq!((app.cursor_x, app.cursor_y), (8, 8));
    assert!(!app.should_quit);
    app.handle_key(Key::Quit);
    assert!(app.should_quit);
}

#[test]
fn digit_key_edits_selected_cell() {
    let mut app = App::new(SudokuModel::new());
    app.handle_key(Key::Right);
    app.handle_key(Key::Digit(7));
    assert_eq!(app.model.get(1, 0).value, 7);
    app.handle_key(Key::Increment);
    assert_eq!(app.model.get(1, 0).value, 8);
    app.handle_key(Key::Clear);
    assert_eq!(app.model.get(1, 0).value, 0);
    app.handle_key(Key::Decrement);
    assert_eq!(app.model.get(1, 0).value, 9);
}

#[test]
fn update_click_steps_cell() {
    let mut m = SudokuModel::new();
    m.update(Message::Click(3, 4));
    assert_eq!(m.get(3, 4).value, 1);
    m.update(Message::Click(3, 4));
    assert_eq!(m.get(3, 4).value, 2);
}

#[test]
fn row_duplicate_colours_both_red_only() {
    let mut m = SudokuModel::new();
    m.set(0, 0, 5);
    assert!(matches!(m.colour(0, 0), Colour::Black));
    m.set(3, 0, 5);
    assert!(matches!(m.colour(0, 0), Colour::Red));
    assert!(matches!(m.colour(3, 0), Colour::Red));
    assert!(matches!(m.colour(5, 0), Colour::Black), "blank cell of the same row");
    assert!(matches!(m.colour(4, 4), Colour::Black), "unrelated cell");
    m.set(4, 4, 5);
    assert!(matches!(m.colour(4, 4), Colour::Black), "same digit, no shared line");
}

#[test]
fn column_and_block_duplicates_colour_red() {
    let mut m = SudokuModel::new();
    m.set(2, 1, 4);
    m.set(2, 7, 4);
    assert!(matches!(m.colour(2, 1), Colour::Red));
    assert!(matches!(m.colour(2, 7), Colour::Red));

    let mut b = SudokuModel::new();
    b.set(0, 0, 7);
    b.set(1, 2, 7);
    assert!(matches!(b.colour(0, 0), Colour::Red));
    assert!(matches!(b.colour(1, 2), Colour::Red));
    assert!(matches!(b.colour(2, 2), Colour::Black));
}

#[test]
fn complete_row_colours_green() {
    let mut m = SudokuModel::new();
    for x in 0..9 {
        m.set(x, 2, (x + 1) as u8);
    }
    for x in 0..9 {
        assert!(matches!(m.colour(x, 2), Colour::Green), "cell {x} of the full row");
    }
    assert!(matches!(m.colour(0, 3), Colour::Black));
}

#[test]
fn complete_column_and_block_colour_green() {
    let mut m = SudokuModel::new();
    for y in 0..9 {
        m.set(4, y, (y + 1) as u8);
    }
    for y in 0..9 {
        assert!(matches!(m.colour(4, y), Colour::Green));
    }

    let mut b = SudokuModel::new();
    let mut v = 1u8;
    for x in 3..6 {
        for y in 6..9 {
            b.set(x, y, v);
            v += 1;
        }
    }
    for x in 3..6 {
        for y in 6..9 {
            assert!(matches!(b.colour(x, y), Colour::Green));
        }
    }
}

#[test]
fn example_puzzle_is_fixed_where_set() {
    let m = SudokuModel::example();
    assert_eq!(m.get(0, 1).value, 6);
    assert!(!m.get(0, 1).enabled);
    assert_eq!(m.get(1, 0).value, 4);
    assert_eq!(m.get(8, 8).value, 9);
    assert_eq!(m.get(3, 3).value, 4);
    assert_eq!(m.get(1, 3).value, 0);
    assert!(m.get(1, 3).enabled);
    let mut fixed = 0;
    for x in 0..9 {
        for y in 0..9 {
            if !m.get(x, y).enabled {
                fixed += 1;
                assert_ne!(m.get(x, y).value, 0);
            }
        }
    }
    assert_eq!(fixed, 27);
}

#[test]
fn from_grid_fixes_nonzero_entries() {
    let mut grid = [[0u8; 9]; 9];
    grid[0][0] = 5;
    grid[4][7] = 9;
    grid[8][2] = 12;
    let m = SudokuModel::from_grid(&grid);
    assert_eq!(m.get(0, 0).value, 5);
    assert!(!m.get(0, 0).enabled);
    assert_eq!(m.get(4, 7).value, 9);
    assert!(!m.get(4, 7).enabled);
    assert_eq!(m.get(8, 2).value, 2, "entries wrap to one digit");
    assert!(!m.get(8, 2).enabled);
    assert_eq!(m.get(1, 1).value, 0);
    assert!(m.get(1, 1).enabled);
}
