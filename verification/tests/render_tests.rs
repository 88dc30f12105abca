use sudoku_grid::border::BorderStyle;
use sudoku_grid::frame::{frame_plan, instructions_text};
use sudoku_grid::geometry::Rect;
use sudoku_grid::input::App;
use sudoku_grid::layout::LayoutConfig;
use sudoku_grid::model::SudokuModel;
use sudoku_grid::paint::render_cell;
use sudoku_grid::render::ui;
use sudoku_grid::separator::render_separators;

#[test]
fn nine_by_nine_renders_all_cells_bare() {
    let app = App::new(SudokuModel::example());
    let plan = ui(&app, 9, 9);
    assert!(plan.frame.header.is_none(), "no header on a 9-row canvas");
    assert!(plan.frame.footer.is_none(), "no footer on a 9-row canvas");
    assert!(!plan.too_small);
    assert_eq!(plan.inner, Rect { x: 0, y: 0, width: 9, height: 9 });
    assert_eq!(plan.cells.len(), 81, "one cell per coordinate");
    assert!(plan.separators.is_empty());
    let mut seen = [[false; 9]; 9];
    for cell in &plan.cells {
        assert!(cell.x < 9 && cell.y < 9);
        assert_eq!((cell.w, cell.h), (1, 1), "minimal mode has 1x1 cells");
        assert!(!cell.has_borders(), "minimal mode has no borders");
        assert!(!seen[cell.x as usize][cell.y as usize], "no duplicate cell");
        seen[cell.x as usize][cell.y as usize] = true;
        let expected = app.model.text(cell.x as usize, cell.y as usize);
        assert_eq!(cell.text.to_string(), expected, "glyph at ({}, {})", cell.x, cell.y);
    }
}

#[test]
fn forty_by_twenty_has_plain_header_and_footer() {
    let plan = frame_plan(20);
    let header = plan.header.expect("header shown");
    let footer = plan.footer.expect("footer shown");
    assert_eq!(header.height, 1, "header without borders is one row");
    assert!(!header.bordered);
    assert_eq!(footer.height, 1, "footer without borders is one row");
    assert!(!footer.bordered);
    assert_eq!(plan.grid_y, 1);
    assert_eq!(plan.grid_height, 18, "grid region receives the remainder");
    assert_eq!(footer.y, 19);

    let app = App::new(SudokuModel::new());
    let full = ui(&app, 40, 20);
    assert_eq!(full.frame, plan);
    assert!(!full.too_small);
}

#[test]
fn frame_bands_step_with_height() {
    assert!(frame_plan(9).footer.is_none());
    let footer_only = frame_plan(10);
    assert!(footer_only.header.is_none());
    assert_eq!(footer_only.footer.unwrap().height, 1);
    let both = frame_plan(13);
    assert_eq!(both.header.unwrap().height, 1);
    assert_eq!(both.footer.unwrap().height, 1);
    let header_bordered = frame_plan(21);
    assert!(header_bordered.header.unwrap().bordered);
    assert_eq!(header_bordered.header.unwrap().height, 3);
    assert!(!header_bordered.footer.unwrap().bordered);
    let both_bordered = frame_plan(23);
    assert!(both_bordered.header.unwrap().bordered);
    assert!(both_bordered.footer.unwrap().bordered);
    assert_eq!(both_bordered.grid_height, 23 - 6);
}

#[test]
fn instructions_shrink_with_width() {
    assert_eq!(instructions_text(8), "Q");
    assert_eq!(instructions_text(9), "⇆ ⇅ 0-9 Q");
    assert_eq!(instructions_text(20), "←↓↑→ ± 0-9 ⌫ Esc/Q");
    assert_eq!(instructions_text(60), "↑↓←→/hjkl:Move 1-9:Set 0/⌫:Clear +/-:Inc/Dec ESC/q:Quit");
    assert_eq!(
        instructions_text(100),
        "Arrows/hjkl: Move | 1-9: Set value | 0/⌫: Clear | +/-: Inc/Dec | ESC/q: Quit"
    );
}

#[test]
fn too_small_canvas_falls_back() {
    let app = App::new(SudokuModel::new());
    let plan = ui(&app, 8, 8);
    assert!(plan.too_small);
    assert!(plan.cells.is_empty());
    assert!(plan.separators.is_empty());
}

#[test]
fn rendering_twice_paints_the_same() {
    let app = App::new(SudokuModel::example());
    for (w, h) in [(9u16, 9u16), (11, 11), (40, 20), (80, 40), (129, 17), (129, 21), (30, 25)] {
        let p1 = ui(&app, w, h);
        let p2 = ui(&app, w, h);
        assert_eq!(p1.frame, p2.frame);
        assert_eq!(p1.config, p2.config);
        assert_eq!(p1.grid_area, p2.grid_area);
        assert_eq!(p1.inner, p2.inner);
        assert_eq!(p1.too_small, p2.too_small);
        assert_eq!(p1.cells, p2.cells);
        assert_eq!(p1.separators, p2.separators);
    }
}

#[test]
fn selected_cell_painted_last() {
    let mut app = App::new(SudokuModel::new());
    app.cursor_x = 4;
    app.cursor_y = 5;
    let plan = ui(&app, 9, 9);
    assert_eq!(plan.cells.len(), 81);
    let last = plan.cells[80];
    assert!(last.selected);
    assert_eq!((last.x, last.y), (4, 5));
    for cell in plan.cells.iter().take(80) {
        assert!(!cell.selected);
    }
}

#[test]
fn separator_overlay_corner_glyphs() {
    let config = LayoutConfig::from_size(11, 11);
    assert!(config.separators_visible && !config.separators_collapsed);
    let inner = Rect { x: 5, y: 5, width: 11, height: 9 };
    let blocks = render_separators(&config, inner);
    assert_eq!(blocks.len(), 9);
    let first = blocks[0];
    assert_eq!((first.x, first.y), (4, 4));
    assert_eq!((first.width, first.height), (4, 4));
    assert_eq!(first.set.top_left, '╔');
    assert_eq!(first.set.bottom_right, '╬', "interior joint is a cross");
    assert!(!first.borders.left, "no outer frame, outward side suppressed");
    assert!(first.borders.right);
    let centre = blocks[4];
    assert_eq!(centre.set.top_left, '╬');
    assert_eq!(centre.set.bottom_right, '╬');
    let last = blocks[8];
    assert_eq!(last.set.bottom_right, '╝');
    assert!(!last.borders.right);
    assert!(!last.borders.bottom);
}

#[test]
fn separator_overlay_absent_when_collapsed() {
    let config = LayoutConfig::from_size(40, 18);
    assert!(config.separators_collapsed);
    let inner = Rect { x: 5, y: 5, width: 19, height: 17 };
    assert!(render_separators(&config, inner).is_empty());
}

#[test]
fn cell_paint_centres_text_inside_borders() {
    let app = App::new(SudokuModel::example());
    let plan = ui(&app, 50, 29);
    assert!(!plan.too_small);
    let cell = plan.cells.iter().find(|c| c.x >= plan.inner.x && c.y >= plan.inner.y).unwrap();
    assert_eq!(cell.left, BorderStyle::Plain);
    let paint = render_cell(*cell).expect("a visible cell paints");
    assert_eq!(paint.area.height, cell.h + 1, "borders add one row");
    let text = paint.text.expect("room for the glyph");
    assert_eq!(text.x, cell.x + 1, "text starts inside the left border");
    assert_eq!(text.width, cell.w - 2);
    let border = paint.border.expect("bordered cell paints a block");
    assert!(border.borders.left && border.borders.top);
}

#[test]
fn empty_cell_paints_nothing() {
    let app = App::new(SudokuModel::new());
    let plan = ui(&app, 9, 9);
    let mut cell = plan.cells[0];
    cell.w = 0;
    assert!(render_cell(cell).is_none());
}

#[test]
fn narrow_separated_canvas_keeps_first_column() {
    // A canvas barely wide enough for the separated minimal mode: the
    // origin shift keeps the corrected first column and row on canvas.
    let app = App::new(SudokuModel::example());
    for (w, h) in [(11u16, 14u16), (13, 13), (12, 15)] {
        let plan = ui(&app, w, h);
        assert!(!plan.too_small, "{w}x{h}");
        assert!(plan.config.separators_visible && !plan.config.separators_collapsed);
        assert_eq!(plan.cells.len(), 81, "{w}x{h}: no cell may be clipped");
        assert!(plan.cells.iter().filter(|c| c.x == plan.inner.x - 1).count() >= 9);
        assert!(plan.separators.len() == 9, "{w}x{h}: all nine separator blocks");
    }
}

#[test]
fn every_fitting_canvas_paints_all_cells() {
    let app = App::new(SudokuModel::new());
    for w in 9u16..70 {
        for h in 9u16..50 {
            let plan = ui(&app, w, h);
            if !plan.too_small {
                assert_eq!(plan.cells.len(), 81, "{w}x{h}");
            } else {
                assert!(plan.cells.is_empty());
            }
        }
    }
}
