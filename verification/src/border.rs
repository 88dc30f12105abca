//! Border-glyph compositor: resolves the four corner glyphs and four side
//! strokes of one cell from the styles of its sides and from the flags that
//! say whether a side continues into a neighbouring cell.

use vstd::prelude::*;

verus! {

/// The style of one border side.
#[derive(Debug, Clone, Copy, PartialEq, Eq, Structural)]
pub enum BorderStyle {
    Absent,
    Plain,
    Double,
}

/// Paint priority class of a cell; later classes are painted on top.
#[derive(Debug, Clone, Copy, PartialEq, Eq, Structural)]
pub enum State {
    Neutral,
    Good,
    Bad,
}

/// One family of box-drawing glyphs: all the strokes, corners, joints and
/// the cross of one (vertical style, horizontal style) combination.
#[derive(Debug, Clone, Copy, PartialEq, Eq, Structural)]
pub struct LineSet {
    pub vertical: char,
    pub horizontal: char,
    pub top_right: char,
    pub top_left: char,
    pub bottom_right: char,
    pub bottom_left: char,
    pub vertical_left: char,
    pub vertical_right: char,
    pub horizontal_down: char,
    pub horizontal_up: char,
    pub cross: char,
}

/// The eight glyphs a cell border is drawn with: one per corner, one per
/// side stroke. A blank means the glyph is not drawn.
#[derive(Debug, Clone, Copy, PartialEq, Eq, Structural)]
pub struct BorderSet {
    pub top_left: char,
    pub top_right: char,
    pub bottom_left: char,
    pub bottom_right: char,
    pub vertical_left: char,
    pub vertical_right: char,
    pub horizontal_top: char,
    pub horizontal_bottom: char,
}

/// Which sides of a cell carry a border at all.
#[derive(Debug, Clone, Copy, PartialEq, Eq, Structural)]
pub struct Borders {
    pub left: bool,
    pub right: bool,
    pub top: bool,
    pub bottom: bool,
}

/// Single-stroke glyphs in both axes.
pub open spec fn spec_line_normal() -> LineSet {
    (LineSet {
        vertical: '│',
        horizontal: '─',
        top_right: '┐',
        top_left: '┌',
        bottom_right: '┘',
        bottom_left: '└',
        vertical_left: '┤',
        vertical_right: '├',
        horizontal_down: '┬',
        horizontal_up: '┴',
        cross: '┼',
    })
}

/// Double-stroke glyphs in both axes.
pub open spec fn spec_line_double() -> LineSet {
    (LineSet {
        vertical: '║',
        horizontal: '═',
        top_right: '╗',
        top_left: '╔',
        bottom_right: '╝',
        bottom_left: '╚',
        vertical_left: '╣',
        vertical_right: '╠',
        horizontal_down: '╦',
        horizontal_up: '╩',
        cross: '╬',
    })
}

/// Hybrid glyphs: double vertical strokes joined to plain horizontal ones.
pub open spec fn spec_double_sides_plain() -> LineSet {
    (LineSet {
        vertical: '║',
        horizontal: '─',
        top_right: '╖',
        top_left: '╓',
        bottom_right: '╜',
        bottom_left: '╙',
        vertical_left: '╢',
        vertical_right: '╟',
        horizontal_down: '╥',
        horizontal_up: '╨',
        cross: '╫',
    })
}

/// Hybrid glyphs: plain vertical strokes joined to double horizontal ones.
pub open spec fn spec_plain_sides_double() -> LineSet {
    (LineSet {
        vertical: '│',
        horizontal: '═',
        top_right: '╕',
        top_left: '╒',
        bottom_right: '╛',
        bottom_left: '╘',
        vertical_left: '╡',
        vertical_right: '╞',
        horizontal_down: '╤',
        horizontal_up: '╧',
        cross: '╪',
    })
}

/// The blank family: an unmapped combination falls back to these rather
/// than failing.
pub open spec fn spec_line_empty() -> LineSet {
    (LineSet {
        vertical: ' ',
        horizontal: ' ',
        top_right: ' ',
        top_left: ' ',
        bottom_right: ' ',
        bottom_left: ' ',
        vertical_left: ' ',
        vertical_right: ' ',
        horizontal_down: ' ',
        horizontal_up: ' ',
        cross: ' ',
    })
}

/// The glyph family for one corner, chosen from the style of the vertical
/// side owning the corner and the style of the adjacent horizontal side.
pub open spec fn spec_line_set_for(side: BorderStyle, adjacent: BorderStyle) -> LineSet {
    match side {
        BorderStyle::Double => match adjacent {
            BorderStyle::Double => spec_line_double(),
            BorderStyle::Plain => spec_double_sides_plain(),
            BorderStyle::Absent => spec_line_empty(),
        },
        BorderStyle::Plain => match adjacent {
            BorderStyle::Double => spec_plain_sides_double(),
            BorderStyle::Plain => spec_line_normal(),
            BorderStyle::Absent => spec_line_empty(),
        },
        BorderStyle::Absent => spec_line_empty(),
    }
}

/// The side stroke glyph for one style, vertical axis.
pub open spec fn spec_vertical_stroke(style: BorderStyle) -> char {
    match style {
        BorderStyle::Double => '║',
        BorderStyle::Plain => '│',
        BorderStyle::Absent => ' ',
    }
}

/// The side stroke glyph for one style, horizontal axis.
pub open spec fn spec_horizontal_stroke(style: BorderStyle) -> char {
    match style {
        BorderStyle::Double => '═',
        BorderStyle::Plain => '─',
        BorderStyle::Absent => ' ',
    }
}

/// One cell as handed to the painter: border styles and continuation flags
/// for the four sides, the resolved position and size in canvas
/// coordinates, and the paint state.
#[derive(Debug, Clone, Copy, PartialEq, Eq, Structural)]
pub struct Cell {
    pub left: BorderStyle,
    pub right: BorderStyle,
    pub top: BorderStyle,
    pub bottom: BorderStyle,
    pub continued_left: bool,
    pub continued_right: bool,
    pub continued_up: bool,
    pub continued_down: bool,
    pub x: u16,
    pub y: u16,
    pub h: u16,
    pub w: u16,
    pub state: State,
    pub selected: bool,
    pub enabled: bool,
    pub separate: bool,
    pub text: char,
}

/// The resolved border glyphs of one cell. Each corner glyph is picked from
/// the family of its two adjacent sides' styles; the continuation flags
/// turn a corner into the matching T-junction or cross, so the line is seen
/// to run on into the neighbouring cell instead of terminating.
pub open spec fn spec_border_set(c: Cell) -> BorderSet {
    let tl = spec_line_set_for(c.left, c.top);
    let bl = spec_line_set_for(c.left, c.bottom);
    let tr = spec_line_set_for(c.right, c.top);
    let br = spec_line_set_for(c.right, c.bottom);
    (BorderSet {
        top_left: if c.continued_left && c.continued_up {
            tl.cross
        } else if c.continued_left {
            tl.horizontal_down
        } else if c.continued_up {
            tl.vertical_right
        } else {
            tl.top_left
        },
        bottom_left: if c.continued_left && c.continued_down {
            bl.cross
        } else if c.continued_left {
            bl.horizontal_up
        } else if c.continued_down {
            bl.vertical_right
        } else {
            bl.bottom_left
        },
        top_right: if c.continued_right && c.continued_up {
            tr.cross
        } else if c.continued_right {
            tr.horizontal_down
        } else if c.continued_up {
            tr.vertical_left
        } else {
            tr.top_right
        },
        bottom_right: if c.continued_right && c.continued_down {
            br.cross
        } else if c.continued_right {
            br.horizontal_up
        } else if c.continued_down {
            br.vertical_left
        } else {
            br.bottom_right
        },
        vertical_left: spec_vertical_stroke(c.left),
        vertical_right: spec_vertical_stroke(c.right),
        horizontal_top: spec_horizontal_stroke(c.top),
        horizontal_bottom: spec_horizontal_stroke(c.bottom),
    })
}

impl Cell {
    /// Whether any side of this cell carries a border.
    pub fn has_borders(&self) -> (r: bool)
        ensures
            r == (self.left != BorderStyle::Absent || self.right != BorderStyle::Absent
                || self.top != BorderStyle::Absent || self.bottom != BorderStyle::Absent),
    {
        self.left != BorderStyle::Absent || self.right != BorderStyle::Absent || self.top
            != BorderStyle::Absent || self.bottom != BorderStyle::Absent
    }

    /// Which sides of this cell carry a border.
    pub fn get_borders(&self) -> (r: Borders)
        ensures
            r == (Borders {
                left: self.left != BorderStyle::Absent,
                right: self.right != BorderStyle::Absent,
                top: self.top != BorderStyle::Absent,
                bottom: self.bottom != BorderStyle::Absent,
            }),
    {
        Borders {
            left: self.left != BorderStyle::Absent,
            right: self.right != BorderStyle::Absent,
            top: self.top != BorderStyle::Absent,
            bottom: self.bottom != BorderStyle::Absent,
        }
    }

    /// Resolve the eight border glyphs of this cell.
    pub fn get_border_set(&self) -> (r: BorderSet)
        ensures
            r == spec_border_set(*self),
    {
        let tl: LineSet = line_set_for(self.left, self.top);
        let bl: LineSet = line_set_for(self.left, self.bottom);
        let tr: LineSet = line_set_for(self.right, self.top);
        let br: LineSet = line_set_for(self.right, self.bottom);

        let top_left: char = if self.continued_left && self.continued_up {
            tl.cross
        } else if self.continued_left {
            tl.horizontal_down
        } else if self.continued_up {
            tl.vertical_right
        } else {
            tl.top_left
        };
        let bottom_left: char = if self.continued_left && self.continued_down {
            bl.cross
        } else if self.continued_left {
            bl.horizontal_up
        } else if self.continued_down {
            bl.vertical_right
        } else {
            bl.bottom_left
        };
        let top_right: char = if self.continued_right && self.continued_up {
            tr.cross
        } else if self.continued_right {
            tr.horizontal_down
        } else if self.continued_up {
            tr.vertical_left
        } else {
            tr.top_right
        };
        let bottom_right: char = if self.continued_right && self.continued_down {
            br.cross
        } else if self.continued_right {
            br.horizontal_up
        } else if self.continued_down {
            br.vertical_left
        } else {
            br.bottom_right
        };

        BorderSet {
            top_left,
            top_right,
            bottom_left,
            bottom_right,
            vertical_left: vertical_stroke(self.left),
            vertical_right: vertical_stroke(self.right),
            horizontal_top: horizontal_stroke(self.top),
            horizontal_bottom: horizontal_stroke(self.bottom),
        }
    }
}

/// Executable twin of [`spec_line_set_for`].
pub fn line_set_for(side: BorderStyle, adjacent: BorderStyle) -> (r: LineSet)
    ensures
        r == spec_line_set_for(side, adjacent),
{
    match side {
        BorderStyle::Double => match adjacent {
            BorderStyle::Double => LineSet {
                vertical: '║',
                horizontal: '═',
                top_right: '╗',
                top_left: '╔',
                bottom_right: '╝',
                bottom_left: '╚',
                vertical_left: '╣',
                vertical_right: '╠',
                horizontal_down: '╦',
                horizontal_up: '╩',
                cross: '╬',
            },
            BorderStyle::Plain => LineSet {
                vertical: '║',
                horizontal: '─',
                top_right: '╖',
                top_left: '╓',
                bottom_right: '╜',
                bottom_left: '╙',
                vertical_left: '╢',
                vertical_right: '╟',
                horizontal_down: '╥',
                horizontal_up: '╨',
                cross: '╫',
            },
            BorderStyle::Absent => empty_line_set(),
        },
        BorderStyle::Plain => match adjacent {
            BorderStyle::Double => LineSet {
                vertical: '│',
                horizontal: '═',
                top_right: '╕',
                top_left: '╒',
                bottom_right: '╛',
                bottom_left: '╘',
                vertical_left: '╡',
                vertical_right: '╞',
                horizontal_down: '╤',
                horizontal_up: '╧',
                cross: '╪',
            },
            BorderStyle::Plain => LineSet {
                vertical: '│',
                horizontal: '─',
                top_right: '┐',
                top_left: '┌',
                bottom_right: '┘',
                bottom_left: '└',
                vertical_left: '┤',
                vertical_right: '├',
                horizontal_down: '┬',
                horizontal_up: '┴',
                cross: '┼',
            },
            BorderStyle::Absent => empty_line_set(),
        },
        BorderStyle::Absent => empty_line_set(),
    }
}

/// Executable twin of [`spec_line_empty`].
pub fn empty_line_set() -> (r: LineSet)
    ensures
        r == spec_line_empty(),
{
    LineSet {
        vertical: ' ',
        horizontal: ' ',
        top_right: ' ',
        top_left: ' ',
        bottom_right: ' ',
        bottom_left: ' ',
        vertical_left: ' ',
        vertical_right: ' ',
        horizontal_down: ' ',
        horizontal_up: ' ',
        cross: ' ',
    }
}

/// Executable twin of [`spec_vertical_stroke`].
pub fn vertical_stroke(style: BorderStyle) -> (r: char)
    ensures
        r == spec_vertical_stroke(style),
{
    match style {
        BorderStyle::Double => '║',
        BorderStyle::Plain => '│',
        BorderStyle::Absent => ' ',
    }
}

/// Executable twin of [`spec_horizontal_stroke`].
pub fn horizontal_stroke(style: BorderStyle) -> (r: char)
    ensures
        r == spec_horizontal_stroke(style),
{
    match style {
        BorderStyle::Double => '═',
        BorderStyle::Plain => '─',
        BorderStyle::Absent => ' ',
    }
}

/// The left-right mirror image of a box-drawing glyph: corners and
/// T-junctions swap their east and west arms, symmetric glyphs stay put.
pub open spec fn mirror_glyph(c: char) -> char {
    if c == '┌' {
        '┐'
    } else if c == '┐' {
        '┌'
    } else if c == '└' {
        '┘'
    } else if c == '┘' {
        '└'
    } else if c == '├' {
        '┤'
    } else if c == '┤' {
        '├'
    } else if c == '╔' {
        '╗'
    } else if c == '╗' {
        '╔'
    } else if c == '╚' {
        '╝'
    } else if c == '╝' {
        '╚'
    } else if c == '╠' {
        '╣'
    } else if c == '╣' {
        '╠'
    } else if c == '╓' {
        '╖'
    } else if c == '╖' {
        '╓'
    } else if c == '╙' {
        '╜'
    } else if c == '╜' {
        '╙'
    } else if c == '╟' {
        '╢'
    } else if c == '╢' {
        '╟'
    } else if c == '╒' {
        '╕'
    } else if c == '╕' {
        '╒'
    } else if c == '╘' {
        '╛'
    } else if c == '╛' {
        '╘'
    } else if c == '╞' {
        '╡'
    } else if c == '╡' {
        '╞'
    } else {
        c
    }
}

/// The left-right mirror of a cell's border specification: the side styles
/// and the continuation flags swap between left and right.
pub open spec fn spec_mirror_cell(c: Cell) -> Cell {
    (Cell {
        left: c.right,
        right: c.left,
        continued_left: c.continued_right,
        continued_right: c.continued_left,
        ..c
    })
}

/// Border-glyph resolution is symmetric under a left-right mirror: the
/// glyphs resolved for the mirrored border specification are exactly the
/// mirror images of the glyphs resolved for the original, with the left and
/// right columns swapped.
pub proof fn lemma_border_set_mirror(c: Cell)
    ensures
        spec_border_set(spec_mirror_cell(c)) == (BorderSet {
            top_left: mirror_glyph(spec_border_set(c).top_right),
            top_right: mirror_glyph(spec_border_set(c).top_left),
            bottom_left: mirror_glyph(spec_border_set(c).bottom_right),
            bottom_right: mirror_glyph(spec_border_set(c).bottom_left),
            vertical_left: mirror_glyph(spec_border_set(c).vertical_right),
            vertical_right: mirror_glyph(spec_border_set(c).vertical_left),
            horizontal_top: mirror_glyph(spec_border_set(c).horizontal_top),
            horizontal_bottom: mirror_glyph(spec_border_set(c).horizontal_bottom),
        }),
{
}

} // verus!
