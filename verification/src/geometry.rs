//! Geometry calculator: the absolute position and size of each of the 81
//! cells for a given layout mode, defensive clipping against the canvas
//! bounds, and the paint order of the resulting cells.

use vstd::prelude::*;
use crate::border::{BorderStyle, Cell, State};
use crate::input::App;
use crate::layout::LayoutConfig;
use crate::model::{digit_char, digit_glyph, spec_colour, Colour};

verus! {

/// A rectangle on the character canvas.
#[derive(Debug, Clone, Copy, PartialEq, Eq, Structural)]
pub struct Rect {
    pub x: u16,
    pub y: u16,
    pub width: u16,
    pub height: u16,
}

/// Horizontal distance between the left edges of two adjacent cells: the
/// cell itself, one border column when borders are not fused, one less when
/// bordered cells overlap on a shared line.
pub open spec fn spec_stride_x(c: LayoutConfig) -> int {
    c.cell_w + (if c.cell_collapsed {
        0int
    } else {
        1int
    }) - (if c.cell_border && c.cell_collapsed {
        1int
    } else {
        0int
    })
}

/// Vertical distance between the top edges of two adjacent cells.
pub open spec fn spec_stride_y(c: LayoutConfig) -> int {
    c.cell_h + (if c.cell_collapsed {
        0int
    } else {
        1int
    })
}

/// Extra stride consumed at each block boundary by an independent
/// separator line.
pub open spec fn spec_separator_stride(c: LayoutConfig) -> int {
    if c.separators_collapsed {
        0int
    } else {
        1int
    }
}

/// The positional correction for row or column index `i`: the first
/// component shrinks the cell, the second shifts it towards the origin.
/// It compensates a one-cell coordinate drift at the grid edges when there
/// is no outer border but separators are visible.
pub open spec fn spec_correction(c: LayoutConfig, i: int) -> (int, int) {
    if !c.outer_border && c.separators_visible {
        if c.separators_collapsed {
            if i == 0 {
                (1int, 0int)
            } else if i == 8 {
                (1int, 1int)
            } else {
                (0int, 1int)
            }
        } else {
            (0int, 1int)
        }
    } else {
        (0int, 0int)
    }
}

/// Executable twin of [`spec_correction`].
pub fn get_correction(config: &LayoutConfig, x: usize) -> (r: (u16, u16))
    ensures
        (r.0 as int, r.1 as int) == spec_correction(*config, x as int),
{
    if !config.outer_border && config.separators_visible {
        if config.separators_collapsed {
            match x {
                0 => (1, 0),
                8 => (1, 1),
                _ => (0, 1),
            }
        } else {
            (0, 1)
        }
    } else {
        (0, 0)
    }
}

/// The left edge of the cell in column `i`, measured from the canvas
/// origin; may be negative when the correction overshoots the inner
/// rectangle, in which case the cell is clipped away.
pub open spec fn spec_cell_x(c: LayoutConfig, inner_x: int, i: int) -> int {
    inner_x + i * spec_stride_x(c) + (i / 3) * spec_separator_stride(c) - spec_correction(c, i).1
}

/// The top edge of the cell in row `j`.
pub open spec fn spec_cell_y(c: LayoutConfig, inner_y: int, j: int) -> int {
    inner_y + j * spec_stride_y(c) + (j / 3) * spec_separator_stride(c) - spec_correction(c, j).1
}

/// Whether the cell at `(i, j)` lands inside the canvas; cells outside are
/// dropped from the paint list rather than painted partially.
pub open spec fn spec_cell_visible(
    c: LayoutConfig,
    inner: Rect,
    max_x: u16,
    max_y: u16,
    i: int,
    j: int,
) -> bool {
    let px = spec_cell_x(c, inner.x as int, i);
    let py = spec_cell_y(c, inner.y as int, j);
    px >= 0 && py >= 0 && px + c.cell_w <= max_x && py + c.cell_h <= max_y
}

/// The border style of the left side of column `i`, equally the top side
/// of row `j`: none without cell borders or on the outermost side when
/// there is no frame to join, double on fused block boundaries, else plain.
pub open spec fn spec_border_low(c: LayoutConfig, i: int) -> BorderStyle {
    if !c.cell_border {
        BorderStyle::Absent
    } else if i == 0 && !c.outer_border && c.separators_collapsed {
        BorderStyle::Absent
    } else if i % 3 == 0 && c.separators_visible && c.separators_collapsed {
        BorderStyle::Double
    } else {
        BorderStyle::Plain
    }
}

/// The border style of the right side of column `i`, equally the bottom
/// side of row `j`.
pub open spec fn spec_border_high(c: LayoutConfig, i: int) -> BorderStyle {
    if !c.cell_border {
        BorderStyle::Absent
    } else if i == 8 && !c.outer_border && c.separators_collapsed {
        BorderStyle::Absent
    } else if i % 3 == 2 && c.separators_visible && c.separators_collapsed {
        BorderStyle::Double
    } else {
        BorderStyle::Plain
    }
}

/// Whether the left side of column `i` (or top side of row `j`) continues
/// into the previous cell's border: only fused borders continue, and never
/// across an unfused block boundary.
pub open spec fn spec_continued_low(c: LayoutConfig, i: int) -> bool {
    i > 0 && c.cell_collapsed && (c.separators_collapsed || i % 3 != 0)
}

/// Whether the right side of column `i` (or bottom side of row `j`)
/// continues into the next cell's border.
pub open spec fn spec_continued_high(c: LayoutConfig, i: int) -> bool {
    i < 8 && c.cell_collapsed && (c.separators_collapsed || i % 3 != 2)
}

/// The paint class of a colour.
pub open spec fn spec_state_of(col: Colour) -> State {
    match col {
        Colour::Black => State::Neutral,
        Colour::Red => State::Bad,
        Colour::Green => State::Good,
    }
}

/// The fully resolved paint cell for grid coordinate `(i, j)`.
pub open spec fn spec_cell(app: App, c: LayoutConfig, inner: Rect, i: int, j: int) -> Cell {
    (Cell {
        left: spec_border_low(c, i),
        right: spec_border_high(c, i),
        top: spec_border_low(c, j),
        bottom: spec_border_high(c, j),
        continued_left: spec_continued_low(c, i),
        continued_right: spec_continued_high(c, i),
        continued_up: spec_continued_low(c, j),
        continued_down: spec_continued_high(c, j),
        x: spec_cell_x(c, inner.x as int, i) as u16,
        y: spec_cell_y(c, inner.y as int, j) as u16,
        w: (c.cell_w - spec_correction(c, i).0) as u16,
        h: (c.cell_h - spec_correction(c, j).0) as u16,
        state: spec_state_of(spec_colour(app.model, i, j)),
        selected: app.cursor_x == i && app.cursor_y == j,
        enabled: app.model.enabled_at(i, j),
        separate: !c.cell_collapsed,
        text: digit_char(app.model.val(i, j)),
    })
}

/// The first `k` cells (in row-major order, rows outermost) that survive
/// clipping, fully resolved.
pub open spec fn spec_grid_cells_prefix(
    app: App,
    c: LayoutConfig,
    inner: Rect,
    max_x: u16,
    max_y: u16,
    k: int,
) -> Seq<Cell>
    decreases k,
{
    if k <= 0 {
        Seq::empty()
    } else {
        let prev = spec_grid_cells_prefix(app, c, inner, max_x, max_y, k - 1);
        let i = (k - 1) % 9;
        let j = (k - 1) / 9;
        if spec_cell_visible(c, inner, max_x, max_y, i, j) {
            prev.push(spec_cell(app, c, inner, i, j))
        } else {
            prev
        }
    }
}

/// All 81 cells of the grid in row-major order, minus those clipped away.
pub open spec fn spec_grid_cells(
    app: App,
    c: LayoutConfig,
    inner: Rect,
    max_x: u16,
    max_y: u16,
) -> Seq<Cell> {
    spec_grid_cells_prefix(app, c, inner, max_x, max_y, 81)
}

/// Resolve every cell of the grid: position, size, border styles,
/// continuation flags and paint state, dropping cells that fall outside
/// the canvas.
#[verifier::rlimit(60)]
pub fn render_sudoku_grid(
    app: &App,
    config: &LayoutConfig,
    inner: Rect,
    max_x: u16,
    max_y: u16,
) -> (r: Vec<Cell>)
    requires
        app.wf(),
        config.wf(),
    ensures
        r@ == spec_grid_cells(*app, *config, inner, max_x, max_y),
{
    let cell_stride_y: u16 = config.cell_h + if config.cell_collapsed {
        0
    } else {
        1
    };
    let cell_stride_x: u16 = config.cell_w + (if config.cell_collapsed {
        0
    } else {
        1
    }) - (if config.cell_border && config.cell_collapsed {
        1
    } else {
        0
    });
    let separator_stride: u16 = if config.separators_collapsed {
        0
    } else {
        1
    };

    let mut cells: Vec<Cell> = Vec::new();

    for y in 0..9usize
        invariant
            app.wf(),
            config.wf(),
            cell_stride_y == spec_stride_y(*config),
            cell_stride_x == spec_stride_x(*config),
            separator_stride == spec_separator_stride(*config),
            cells@ == spec_grid_cells_prefix(*app, *config, inner, max_x, max_y, 9 * y),
    {
        for x in 0..9usize
            invariant
                app.wf(),
                config.wf(),
                y < 9,
                cell_stride_y == spec_stride_y(*config),
                cell_stride_x == spec_stride_x(*config),
                separator_stride == spec_separator_stride(*config),
                cells@ == spec_grid_cells_prefix(*app, *config, inner, max_x, max_y, 9 * y + x),
        {
            let (correction_w, correction_x) = get_correction(config, x);
            let (correction_h, correction_y) = get_correction(config, y);
            proof {
                assert(cell_stride_x <= 6 && cell_stride_y <= 3 && separator_stride <= 1);
                assert(0 <= (x as i64) * (cell_stride_x as i64) <= 54) by (nonlinear_arith)
                    requires
                        x < 9,
                        cell_stride_x <= 6,
                ;
                assert(0 <= (y as i64) * (cell_stride_y as i64) <= 27) by (nonlinear_arith)
                    requires
                        y < 9,
                        cell_stride_y <= 3,
                ;
                assert(0 <= ((x / 3) as i64) * (separator_stride as i64) <= 2) by (nonlinear_arith)
                    requires
                        x < 9,
                        separator_stride <= 1,
                ;
                assert(0 <= ((y / 3) as i64) * (separator_stride as i64) <= 2) by (nonlinear_arith)
                    requires
                        y < 9,
                        separator_stride <= 1,
                ;
            }
            let cell_x: i64 = inner.x as i64 + (x as i64) * (cell_stride_x as i64) + ((x / 3)
                as i64) * (separator_stride as i64) - correction_x as i64;
            let cell_y: i64 = inner.y as i64 + (y as i64) * (cell_stride_y as i64) + ((y / 3)
                as i64) * (separator_stride as i64) - correction_y as i64;

            if cell_x >= 0 && cell_y >= 0 && cell_x + config.cell_w as i64 <= max_x as i64 && cell_y
                + config.cell_h as i64 <= max_y as i64 {
                let cell_w: u16 = config.cell_w - correction_w;
                let cell_h: u16 = config.cell_h - correction_h;

                let enabled = app.model.get(x, y).enabled;
                let selected = app.cursor_x == x && app.cursor_y == y;
                let state = match app.model.colour(x, y) {
                    Colour::Black => State::Neutral,
                    Colour::Red => State::Bad,
                    Colour::Green => State::Good,
                };
                let value: char = digit_glyph(app.model.get(x, y).value);
                let border_left = if config.cell_border {
                    if x == 0 && !config.outer_border && config.separators_collapsed {
                        BorderStyle::Absent
                    } else if x % 3 == 0 && config.separators_visible
                        && config.separators_collapsed {
                        BorderStyle::Double
                    } else {
                        BorderStyle::Plain
                    }
                } else {
                    BorderStyle::Absent
                };
                let border_right = if config.cell_border {
                    if x == 8 && !config.outer_border && config.separators_collapsed {
                        BorderStyle::Absent
                    } else if x % 3 == 2 && config.separators_visible
                        && config.separators_collapsed {
                        BorderStyle::Double
                    } else {
                        BorderStyle::Plain
                    }
                } else {
                    BorderStyle::Absent
                };
                let border_top = if config.cell_border {
                    if y == 0 && !config.outer_border && config.separators_collapsed {
                        BorderStyle::Absent
                    } else if y % 3 == 0 && config.separators_visible
                        && config.separators_collapsed {
                        BorderStyle::Double
                    } else {
                        BorderStyle::Plain
                    }
                } else {
                    BorderStyle::Absent
                };
                let border_bottom = if config.cell_border {
                    if y == 8 && !config.outer_border && config.separators_collapsed {
                        BorderStyle::Absent
                    } else if y % 3 == 2 && config.separators_visible
                        && config.separators_collapsed {
                        BorderStyle::Double
                    } else {
                        BorderStyle::Plain
                    }
                } else {
                    BorderStyle::Absent
                };

                let cell = Cell {
                    left: border_left,
                    right: border_right,
                    top: border_top,
                    bottom: border_bottom,
                    continued_left: x > 0 && config.cell_collapsed && (config.separators_collapsed
                        || x % 3 != 0),
                    continued_right: x < 8 && config.cell_collapsed
                        && (config.separators_collapsed || x % 3 != 2),
                    continued_up: y > 0 && config.cell_collapsed && (config.separators_collapsed
                        || y % 3 != 0),
                    continued_down: y < 8 && config.cell_collapsed && (config.separators_collapsed
                        || y % 3 != 2),
                    x: cell_x as u16,
                    y: cell_y as u16,
                    w: cell_w,
                    h: cell_h,
                    state,
                    selected,
                    enabled,
                    separate: !config.cell_collapsed,
                    text: value,
                };
                proof {
                    assert(cell == spec_cell(*app, *config, inner, x as int, y as int));
                }
                cells.push(cell);
            }
        }
    }
    cells
}

/// The number of coordinates among the first `k` (in row-major order)
/// that survive clipping.
pub open spec fn spec_visible_count(
    c: LayoutConfig,
    inner: Rect,
    max_x: u16,
    max_y: u16,
    k: int,
) -> int
    decreases k,
{
    if k <= 0 {
        0int
    } else {
        spec_visible_count(c, inner, max_x, max_y, k - 1) + (if spec_cell_visible(
            c,
            inner,
            max_x,
            max_y,
            (k - 1) % 9,
            (k - 1) / 9,
        ) {
            1int
        } else {
            0int
        })
    }
}

/// The count of visible coordinates never decreases, and grows strictly
/// past a visible coordinate: distinct visible coordinates therefore get
/// distinct positions in the cell list.
pub proof fn lemma_visible_count_monotonic(
    c: LayoutConfig,
    inner: Rect,
    max_x: u16,
    max_y: u16,
    k1: int,
    k2: int,
)
    requires
        0 <= k1 <= k2,
    ensures
        spec_visible_count(c, inner, max_x, max_y, k1) <= spec_visible_count(
            c,
            inner,
            max_x,
            max_y,
            k2,
        ),
        k1 < k2 && spec_cell_visible(c, inner, max_x, max_y, k1 % 9, k1 / 9)
            ==> spec_visible_count(c, inner, max_x, max_y, k1) < spec_visible_count(
            c,
            inner,
            max_x,
            max_y,
            k2,
        ),
    decreases k2 - k1,
{
    if k1 < k2 {
        lemma_visible_count_monotonic(c, inner, max_x, max_y, k1, k2 - 1);
    }
}

/// The cell list, clipping allowed, characterised exactly: its length is
/// the number of coordinates that survive clipping, and each surviving
/// coordinate `m = x + 9 * y` contributes exactly one entry — the fully
/// resolved cell for `(x, y)` — at the index counting the survivors
/// before `m`. A clipped coordinate contributes no entry. With
/// [`lemma_visible_count_monotonic`], those indices are strictly
/// increasing, so no coordinate appears twice and every entry is
/// accounted for.
pub proof fn lemma_cells_exact(app: App, c: LayoutConfig, inner: Rect, max_x: u16, max_y: u16)
    ensures
        spec_grid_cells(app, c, inner, max_x, max_y).len() == spec_visible_count(
            c,
            inner,
            max_x,
            max_y,
            81,
        ),
        forall|m: int|
            0 <= m < 81 && spec_cell_visible(c, inner, max_x, max_y, m % 9, m / 9)
                ==> spec_grid_cells(app, c, inner, max_x, max_y)[spec_visible_count(
                c,
                inner,
                max_x,
                max_y,
                m,
            )] == spec_cell(app, c, inner, m % 9, m / 9),
{
    lemma_cells_exact_prefix(app, c, inner, max_x, max_y, 81);
}

#[verifier::rlimit(60)]
proof fn lemma_cells_exact_prefix(
    app: App,
    c: LayoutConfig,
    inner: Rect,
    max_x: u16,
    max_y: u16,
    k: int,
)
    requires
        0 <= k <= 81,
    ensures
        spec_grid_cells_prefix(app, c, inner, max_x, max_y, k).len() == spec_visible_count(
            c,
            inner,
            max_x,
            max_y,
            k,
        ),
        forall|m: int|
            0 <= m < k && spec_cell_visible(c, inner, max_x, max_y, m % 9, m / 9)
                ==> spec_grid_cells_prefix(app, c, inner, max_x, max_y, k)[spec_visible_count(
                c,
                inner,
                max_x,
                max_y,
                m,
            )] == spec_cell(app, c, inner, m % 9, m / 9),
    decreases k,
{
    if k > 0 {
        lemma_cells_exact_prefix(app, c, inner, max_x, max_y, k - 1);
        let prev = spec_grid_cells_prefix(app, c, inner, max_x, max_y, k - 1);
        let cur = spec_grid_cells_prefix(app, c, inner, max_x, max_y, k);
        assert forall|m: int|
            0 <= m < k && spec_cell_visible(c, inner, max_x, max_y, m % 9, m / 9) implies
            cur[spec_visible_count(c, inner, max_x, max_y, m)] == spec_cell(
            app,
            c,
            inner,
            m % 9,
            m / 9,
        ) by {
            let pos = spec_visible_count(c, inner, max_x, max_y, m);
            if m == k - 1 {
                assert(cur == prev.push(spec_cell(app, c, inner, m % 9, m / 9)));
                assert(pos == prev.len() as int);
            } else {
                lemma_visible_count_monotonic(c, inner, max_x, max_y, 0, m);
                lemma_visible_count_monotonic(c, inner, max_x, max_y, m, k - 1);
                assert(0 <= pos < prev.len());
                assert(prev[pos] == spec_cell(app, c, inner, m % 9, m / 9));
                if spec_cell_visible(c, inner, max_x, max_y, (k - 1) % 9, (k - 1) / 9) {
                    assert(cur == prev.push(spec_cell(app, c, inner, (k - 1) % 9, (k - 1) / 9)));
                    assert(cur[pos] == prev[pos]);
                } else {
                    assert(cur == prev);
                }
            }
        }
    }
}

/// The paint priority class of a cell: unselected before selected, then
/// editable before fixed, then neutral before complete before conflicting.
/// Cells of a later class are painted after (on top of) earlier ones, so
/// their shared border lines win.
pub open spec fn spec_paint_class(c: Cell) -> int {
    (if c.selected {
        6int
    } else {
        0int
    }) + (if !c.enabled {
        3int
    } else {
        0int
    }) + (match c.state {
        State::Neutral => 0int,
        State::Good => 1int,
        State::Bad => 2int,
    })
}

/// Executable twin of [`spec_paint_class`].
pub fn paint_class(c: &Cell) -> (k: usize)
    ensures
        k == spec_paint_class(*c),
{
    (if c.selected {
        6
    } else {
        0
    }) + (if !c.enabled {
        3
    } else {
        0
    }) + (match c.state {
        State::Neutral => 0usize,
        State::Good => 1usize,
        State::Bad => 2usize,
    })
}

/// The cells of `s` whose paint class is `k`, in their original order.
pub open spec fn spec_filter_class(s: Seq<Cell>, k: int) -> Seq<Cell>
    decreases s.len(),
{
    if s.len() == 0 {
        Seq::empty()
    } else {
        let prev = spec_filter_class(s.drop_last(), k);
        if spec_paint_class(s.last()) == k {
            prev.push(s.last())
        } else {
            prev
        }
    }
}

/// The cells of classes `0 .. k` of `s`, class by class.
pub open spec fn spec_classes_up_to(s: Seq<Cell>, k: int) -> Seq<Cell>
    decreases k,
{
    if k <= 0 {
        Seq::empty()
    } else {
        spec_classes_up_to(s, k - 1) + spec_filter_class(s, k - 1)
    }
}

/// The paint order of a cell list: stable by class, classes ascending.
pub open spec fn spec_paint_order(s: Seq<Cell>) -> Seq<Cell> {
    spec_classes_up_to(s, 12)
}

/// Arrange the cells in paint order, keeping the relative order of cells
/// of equal class.
pub fn sort_cells(cells: &Vec<Cell>) -> (r: Vec<Cell>)
    ensures
        r@ == spec_paint_order(cells@),
{
    let mut out: Vec<Cell> = Vec::new();
    for k in 0..12usize
        invariant
            out@ == spec_classes_up_to(cells@, k as int),
    {
        for idx in 0..cells.len()
            invariant
                out@ == spec_classes_up_to(cells@, k as int) + spec_filter_class(
                    cells@.take(idx as int),
                    k as int,
                ),
        {
            let c = cells[idx];
            proof {
                assert(cells@.take(idx as int + 1).drop_last() =~= cells@.take(idx as int));
                assert(cells@.take(idx as int + 1).last() == cells@[idx as int]);
            }
            if paint_class(&c) == k {
                out.push(c);
            }
        }
        proof {
            assert(cells@.take(cells@.len() as int) =~= cells@);
        }
    }
    out
}

} // verus!
