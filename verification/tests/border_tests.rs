use sudoku_grid::border::{BorderStyle, Borders, Cell, State};

fn plain_cell() -> Cell {
    Cell {
        left: BorderStyle::Plain,
        right: BorderStyle::Plain,
        top: BorderStyle::Plain,
        bottom: BorderStyle::Plain,
        continued_left: false,
        continued_right: false,
        continued_up: false,
        continued_down: false,
        x: 0,
        y: 0,
        w: 3,
        h: 2,
        state: State::Neutral,
        selected: false,
        enabled: true,
        separate: true,
        text: '5',
    }
}

#[test]
fn plain_corners() {
    let set = plain_cell().get_border_set();
    assert_eq!(set.top_left, '┌');
    assert_eq!(set.top_right, '┐');
    assert_eq!(set.bottom_left, '└');
    assert_eq!(set.bottom_right, '┘');
    assert_eq!(set.vertical_left, '│');
    assert_eq!(set.vertical_right, '│');
    assert_eq!(set.horizontal_top, '─');
    assert_eq!(set.horizontal_bottom, '─');
}

#[test]
fn hybrid_corners() {
    let mut cell = plain_cell();
    cell.left = BorderStyle::Double;
    let set = cell.get_border_set();
    assert_eq!(set.top_left, '╓', "double vertical meeting plain horizontal");
    assert_eq!(set.bottom_left, '╙');
    assert_eq!(set.vertical_left, '║');
    assert_eq!(set.top_right, '┐');

    let mut cell = plain_cell();
    cell.top = BorderStyle::Double;
    let set = cell.get_border_set();
    assert_eq!(set.top_left, '╒', "plain vertical meeting double horizontal");
    assert_eq!(set.top_right, '╕');
    assert_eq!(set.horizontal_top, '═');
    assert_eq!(set.bottom_left, '└');
}

#[test]
fn continuation_turns_corners_into_joints() {
    let mut cell = plain_cell();
    cell.continued_left = true;
    cell.continued_up = true;
    let set = cell.get_border_set();
    assert_eq!(set.top_left, '┼', "continued both ways is a cross");
    assert_eq!(set.bottom_left, '┴', "continued left only is a T-junction");
    assert_eq!(set.top_right, '┤', "continued up only is a T-junction");
    assert_eq!(set.bottom_right, '┘', "not continued stays a corner");
}

#[test]
fn absent_sides_resolve_blank() {
    let mut cell = plain_cell();
    cell.left = BorderStyle::Absent;
    cell.top = BorderStyle::Absent;
    let set = cell.get_border_set();
    assert_eq!(set.top_left, ' ', "no adjacent side, no glyph");
    assert_eq!(set.vertical_left, ' ');
    assert_eq!(set.horizontal_top, ' ');
    assert_eq!(set.bottom_right, '┘');
    assert!(cell.has_borders());
    cell.right = BorderStyle::Absent;
    cell.bottom = BorderStyle::Absent;
    assert!(!cell.has_borders());
}

#[test]
fn get_borders_flags_each_side() {
    let mut cell = plain_cell();
    cell.right = BorderStyle::Absent;
    let b = cell.get_borders();
    assert_eq!(
        b,
        Borders { left: true, right: false, top: true, bottom: true },
    );
}

fn mirrored(c: &Cell) -> Cell {
    let mut m = *c;
    m.left = c.right;
    m.right = c.left;
    m.continued_left = c.continued_right;
    m.continued_right = c.continued_left;
    m
}

fn mirror_glyph(c: char) -> char {
    match c {
        '┌' => '┐',
        '┐' => '┌',
        '└' => '┘',
        '┘' => '└',
        '├' => '┤',
        '┤' => '├',
        '╔' => '╗',
        '╗' => '╔',
        '╚' => '╝',
        '╝' => '╚',
        '╠' => '╣',
        '╣' => '╠',
        '╓' => '╖',
        '╖' => '╓',
        '╙' => '╜',
        '╜' => '╙',
        '╟' => '╢',
        '╢' => '╟',
        '╒' => '╕',
        '╕' => '╒',
        '╘' => '╛',
        '╛' => '╘',
        '╞' => '╡',
        '╡' => '╞',
        other => other,
    }
}

#[test]
fn border_set_symmetric_under_mirror() {
    let styles = [BorderStyle::Absent, BorderStyle::Plain, BorderStyle::Double];
    let flags = [false, true];
    for &left in &styles {
        for &right in &styles {
            for &top in &styles {
                for &cl in &flags {
                    for &cr in &flags {
                        for &cu in &flags {
                            let mut cell = plain_cell();
                            cell.left = left;
                            cell.right = right;
                            cell.top = top;
                            cell.continued_left = cl;
                            cell.continued_right = cr;
                            cell.continued_up = cu;
                            let set = cell.get_border_set();
                            let mset = mirrored(&cell).get_border_set();
                            assert_eq!(mset.top_left, mirror_glyph(set.top_right));
                            assert_eq!(mset.top_right, mirror_glyph(set.top_left));
                            assert_eq!(mset.bottom_left, mirror_glyph(set.bottom_right));
                            assert_eq!(mset.bottom_right, mirror_glyph(set.bottom_left));
                            assert_eq!(mset.vertical_left, mirror_glyph(set.vertical_right));
                            assert_eq!(mset.vertical_right, mirror_glyph(set.vertical_left));
                        }
                    }
                }
            }
        }
    }
}
