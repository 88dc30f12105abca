//! The full render pass: allocate the frame bands, classify the grid
//! band into a mode, compute and order the cell rectangles and the
//! separator overlay — or fall back to a "too small" notice when the
//! classified mode does not fit the band it was classified for.
//!
//! A pass is a pure function of the canvas size and the session state:
//! nothing persists between passes.

use vstd::prelude::*;
use crate::border::Cell;
use crate::frame::{frame_plan, spec_frame_plan, FramePlan};
use crate::geometry::{
    render_sudoku_grid, sort_cells, spec_cell, spec_cell_visible, spec_grid_cells,
    spec_grid_cells_prefix, spec_paint_order, Rect,
};
use crate::input::App;
use crate::layout::LayoutConfig;
use crate::separator::{render_separators, spec_separators, SeparatorBlock};

verus! {

/// Everything one render pass paints, in paint order.
#[derive(Debug, Clone)]
pub struct RenderPlan {
    pub frame: FramePlan,
    pub config: LayoutConfig,
    pub grid_area: Rect,
    pub inner: Rect,
    pub too_small: bool,
    pub cells: Vec<Cell>,
    pub separators: Vec<SeparatorBlock>,
}

/// The band the grid may use: the full width, the rows left between
/// header and footer.
pub open spec fn spec_grid_area(width: u16, height: u16) -> Rect {
    (Rect {
        x: 0,
        y: spec_frame_plan(height).grid_y,
        width,
        height: spec_frame_plan(height).grid_height,
    })
}

/// The mode the grid band is classified into.
pub open spec fn spec_grid_config(width: u16, height: u16) -> LayoutConfig {
    LayoutConfig::spec_from_size(width, spec_grid_area(width, height).height)
}

/// Whether the classified mode overshoots its band, so that the pass must
/// fall back to the "too small" notice instead of a partial grid.
pub open spec fn spec_too_small(width: u16, height: u16) -> bool {
    let area = spec_grid_area(width, height);
    let c = spec_grid_config(width, height);
    c.spec_grid_height() > area.height || c.spec_grid_width() > area.width
}

/// The one-cell shift applied to the grid origin in the modes whose cells
/// and separator blocks all carry a correction toward the origin (no outer
/// frame, separators visible and independent): without it the corrected
/// first column and row would land one cell before the footprint — off the
/// canvas entirely when the footprint starts at its very edge.
pub open spec fn spec_origin_shift(c: LayoutConfig) -> int {
    if !c.outer_border && c.separators_visible && !c.separators_collapsed {
        1int
    } else {
        0int
    }
}

/// The grid's footprint rectangle, centred in its band.
pub open spec fn spec_inner(width: u16, height: u16) -> Rect {
    let area = spec_grid_area(width, height);
    let c = spec_grid_config(width, height);
    (Rect {
        x: (area.x + (area.width - c.spec_grid_width()) / 2 + spec_origin_shift(c)) as u16,
        y: (area.y + (area.height - c.spec_grid_height()) / 2 + spec_origin_shift(c)) as u16,
        width: c.spec_grid_width() as u16,
        height: c.spec_grid_height() as u16,
    })
}

/// What one render pass produces, as a function of the canvas size and
/// the session state alone.
pub open spec fn spec_plan_of(p: RenderPlan, app: App, width: u16, height: u16) -> bool {
    &&& p.frame == spec_frame_plan(height)
    &&& p.config == spec_grid_config(width, height)
    &&& p.grid_area == spec_grid_area(width, height)
    &&& p.too_small == spec_too_small(width, height)
    &&& p.too_small ==> p.cells@ == Seq::<Cell>::empty() && p.separators@ == Seq::<
        SeparatorBlock,
    >::empty() && p.inner == spec_grid_area(width, height)
    &&& !p.too_small ==> {
        &&& p.inner == spec_inner(width, height)
        &&& p.cells@ == spec_paint_order(
            spec_grid_cells(app, p.config, p.inner, width, height),
        )
        &&& p.separators@ == spec_separators(p.config, p.inner)
    }
}

/// One render pass.
pub fn ui(app: &App, width: u16, height: u16) -> (r: RenderPlan)
    requires
        app.wf(),
    ensures
        spec_plan_of(r, *app, width, height),
{
    let frame = frame_plan(height);
    let area = Rect { x: 0, y: frame.grid_y, width, height: frame.grid_height };
    let config = LayoutConfig::from_size(area.width, area.height);
    let grid_width = config.grid_width();
    let grid_height = config.grid_height();

    if grid_height > area.height || grid_width > area.width {
        return RenderPlan {
            frame,
            config,
            grid_area: area,
            inner: area,
            too_small: true,
            cells: Vec::new(),
            separators: Vec::new(),
        };
    }

    let shift: u16 = if !config.outer_border && config.separators_visible
        && !config.separators_collapsed {
        1
    } else {
        0
    };
    let inner = Rect {
        x: area.x + (area.width - grid_width) / 2 + shift,
        y: area.y + (area.height - grid_height) / 2 + shift,
        width: grid_width,
        height: grid_height,
    };
    let cells = render_sudoku_grid(app, &config, inner, width, height);
    let sorted = sort_cells(&cells);
    let separators = render_separators(&config, inner);
    RenderPlan {
        frame,
        config,
        grid_area: area,
        inner,
        too_small: false,
        cells: sorted,
        separators,
    }
}

/// Rendering is idempotent: two passes over the same canvas size and the
/// same session state paint exactly the same things — no state hides
/// between frames.
pub proof fn lemma_render_idempotent(
    p1: RenderPlan,
    p2: RenderPlan,
    app: App,
    width: u16,
    height: u16,
)
    requires
        spec_plan_of(p1, app, width, height),
        spec_plan_of(p2, app, width, height),
    ensures
        p1.frame == p2.frame,
        p1.config == p2.config,
        p1.grid_area == p2.grid_area,
        p1.inner == p2.inner,
        p1.too_small == p2.too_small,
        p1.cells@ == p2.cells@,
        p1.separators@ == p2.separators@,
{
}

proof fn lemma_prefix_full(
    app: App,
    c: LayoutConfig,
    inner: Rect,
    max_x: u16,
    max_y: u16,
    k: int,
)
    requires
        0 <= k <= 81,
        forall|i: int, j: int|
            0 <= i < 9 && 0 <= j < 9 ==> spec_cell_visible(c, inner, max_x, max_y, i, j),
    ensures
        spec_grid_cells_prefix(app, c, inner, max_x, max_y, k).len() == k,
        forall|m: int|
            0 <= m < k ==> spec_grid_cells_prefix(app, c, inner, max_x, max_y, k)[m] == spec_cell(
                app,
                c,
                inner,
                m % 9,
                m / 9,
            ),
    decreases k,
{
    if k > 0 {
        lemma_prefix_full(app, c, inner, max_x, max_y, k - 1);
        assert(spec_cell_visible(c, inner, max_x, max_y, (k - 1) % 9, (k - 1) / 9));
    }
}

/// When no cell is clipped by the canvas, the pass produces exactly one
/// cell rectangle per grid coordinate: the list has 81 entries, and entry
/// `m` is the fully resolved cell for column `m % 9` of row `m / 9` — no
/// coordinate is missing and none appears twice.
pub proof fn lemma_cells_cover(app: App, c: LayoutConfig, inner: Rect, max_x: u16, max_y: u16)
    requires
        forall|i: int, j: int|
            0 <= i < 9 && 0 <= j < 9 ==> spec_cell_visible(c, inner, max_x, max_y, i, j),
    ensures
        spec_grid_cells(app, c, inner, max_x, max_y).len() == 81,
        forall|m: int|
            0 <= m < 81 ==> spec_grid_cells(app, c, inner, max_x, max_y)[m] == spec_cell(
                app,
                c,
                inner,
                m % 9,
                m / 9,
            ),
{
    lemma_prefix_full(app, c, inner, max_x, max_y, 81);
}

} // verus!
