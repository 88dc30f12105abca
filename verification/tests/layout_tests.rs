use sudoku_grid::layout::LayoutConfig;

#[test]
fn from_size_17() {
    let config = LayoutConfig::from_size(129, 17);
    assert_eq!(config.grid_height(), 17, "{config:?}");
}

#[test]
fn from_size_21() {
    let config = LayoutConfig::from_size(129, 21);
    assert_eq!(config.grid_height(), 21, "{config:?}");
}

#[test]
fn minimal_mode_at_nine_by_nine() {
    let config = LayoutConfig::from_size(9, 9);
    assert_eq!(config.cell_w, 1);
    assert_eq!(config.cell_h, 1);
    assert!(!config.cell_border);
    assert!(!config.outer_border);
    assert!(!config.separators_visible);
    assert!(config.cell_collapsed);
    assert_eq!(config.grid_width(), 9);
    assert_eq!(config.grid_height(), 9);
}

#[test]
fn separated_mode_at_eleven_by_eleven() {
    let config = LayoutConfig::from_size(11, 11);
    assert!(config.separators_visible);
    assert!(!config.separators_collapsed);
    assert_eq!(config.grid_width(), 11);
    assert_eq!(config.grid_height(), 9);
}

#[test]
fn collapsed_bordered_mode() {
    let config = LayoutConfig::from_size(40, 18);
    assert_eq!(config.cell_w, 3);
    assert_eq!(config.cell_h, 2);
    assert!(config.cell_border);
    assert!(config.cell_collapsed);
    assert!(config.separators_visible);
    assert!(config.separators_collapsed);
    assert!(!config.outer_border);
    assert_eq!(config.grid_width(), 19);
    assert_eq!(config.grid_height(), 17);
}

#[test]
fn separate_cells_mode() {
    let config = LayoutConfig::from_size(50, 29);
    assert!(!config.cell_collapsed);
    assert!(config.cell_border);
    assert!(!config.outer_border);
    assert_eq!(config.cell_w, 3, "five-wide cells engage only once they fit");
    assert_eq!(config.grid_width(), 37);
    assert_eq!(config.grid_height(), 27);

    let wide = LayoutConfig::from_size(55, 29);
    assert_eq!(wide.cell_w, 5);
    assert_eq!(wide.grid_width(), 55);
}

#[test]
fn framed_mode() {
    let config = LayoutConfig::from_size(80, 40);
    assert!(config.outer_border);
    assert!(!config.cell_collapsed);
    assert_eq!(config.grid_width(), 57);
    assert_eq!(config.grid_height(), 29);
}

#[test]
fn footprint_always_fits() {
    for w in 9u16..140 {
        for h in 9u16..60 {
            let config = LayoutConfig::from_size(w, h);
            assert!(config.grid_width() <= w, "width {w}x{h}: {config:?}");
            assert!(config.grid_height() <= h, "height {w}x{h}: {config:?}");
        }
    }
}
