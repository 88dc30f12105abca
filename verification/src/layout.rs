//! Mode classifier: picks one discrete layout mode for the 9x9 grid from the
//! width and height (in character cells) of the region the grid may use, and
//! computes the total footprint that mode occupies.

use vstd::prelude::*;

verus! {

/// One discrete density mode of the grid renderer.
///
/// `cell_w` and `cell_h` are the inner size of one cell in character cells.
/// `cell_collapsed` means adjacent cells share one border line instead of
/// each drawing its own; `separators_collapsed` means the 3x3 block
/// separators are fused into the cell borders rather than drawn as
/// independent lines.
#[derive(Debug, Clone, Copy, PartialEq, Eq, Structural)]
pub struct LayoutConfig {
    pub cell_h: u16,
    pub cell_w: u16,
    pub outer_border: bool,
    pub cell_border: bool,
    pub cell_collapsed: bool,
    pub separators_visible: bool,
    pub separators_collapsed: bool,
}

impl LayoutConfig {
    /// The internal consistency every classified mode satisfies: cell sizes
    /// come from the fixed menu, and cell borders only appear on cells large
    /// enough to carry them.
    pub open spec fn wf(self) -> bool {
        &&& (self.cell_h == 1 || self.cell_h == 2)
        &&& (self.cell_w == 1 || self.cell_w == 2 || self.cell_w == 3 || self.cell_w == 5)
        &&& (self.cell_border ==> self.cell_w > 2 && self.cell_h > 1)
    }

    /// The decision table of the classifier, as a function of the available
    /// width and height.
    pub open spec fn spec_from_size(width: u16, height: u16) -> LayoutConfig {
        (LayoutConfig {
            cell_h: if height < 17 { 1u16 } else { 2u16 },
            cell_w: if width < 23 { 1u16 } else if width < 32 { 2u16 } else if width < 55 {
                3u16
            } else {
                5u16
            },
            outer_border: (height > 18 && height < 29 && width > 9) || (width > 60 && height > 30),
            cell_border: (if width < 23 { 1u16 } else if width < 32 { 2u16 } else if width < 55 {
                3u16
            } else {
                5u16
            }) > 2 && (if height < 17 { 1u16 } else { 2u16 }) > 1,
            cell_collapsed: width < 39 || height < 29,
            separators_visible: width > 10 && height > 10 && !((width > 20 && width < 29) || (
            height > 20 && height < 29)),
            separators_collapsed: height < 11 || width < 11 || (width > 16 && width < 21) || (
            height > 16 && height < 21),
        })
    }

    /// Classify an available grid region into a layout mode.
    pub fn from_size(width: u16, height: u16) -> (r: LayoutConfig)
        ensures
            r == Self::spec_from_size(width, height),
            r.wf(),
    {
        let cell_h: u16 = if height < 17 {
            1
        } else {
            2
        };
        let cell_w: u16 = if width < 23 {
            1
        } else if width < 32 {
            2
        } else if width < 55 {
            3
        } else {
            5
        };
        let cell_border = cell_w > 2 && cell_h > 1;
        let cell_collapsed = width < 39 || height < 29;
        let separators_collapsed = height < 11 || width < 11 || width > 16 && width < 21 || height
            > 16 && height < 21;
        let separators_visible = width > 10 && height > 10 && !(width > 20 && width < 29 || height
            > 20 && height < 29);
        let outer_border = height > 18 && height < 29 && width > 9 || width > 60 && height > 30;
        LayoutConfig {
            cell_h,
            cell_w,
            outer_border,
            cell_border,
            cell_collapsed,
            separators_visible,
            separators_collapsed,
        }
    }

    /// The footprint along one axis for a given inner cell size: nine cells,
    /// plus one dedicated border line per cell when borders are not fused,
    /// minus the eight shared interior lines when they are, plus or minus the
    /// outer frame line, plus the two independent separator lines when those
    /// are visible and not fused.
    pub open spec fn spec_grid_size(self, cell_size: u16) -> int {
        (9 * cell_size as int) + (if !self.cell_collapsed {
            9int
        } else if self.cell_border {
            -7int
        } else {
            0int
        }) + (if self.outer_border {
            1int
        } else if cell_size > 1 {
            -1int
        } else {
            0int
        }) + (if self.separators_visible && !self.separators_collapsed {
            2int
        } else {
            0int
        })
    }

    /// Footprint along one axis; `cell_size` is the inner size of one cell,
    /// from the fixed menu of the classifier.
    pub fn grid_size(&self, cell_size: u16) -> (r: u16)
        requires
            1 <= cell_size <= 5,
        ensures
            r == self.spec_grid_size(cell_size),
    {
        let mut result: u16 = 9 * cell_size;
        if !self.cell_collapsed {
            result += 9;
        } else if self.cell_border {
            result -= 7;
        }

        if self.outer_border {
            result += 1;
        } else if cell_size > 1 {
            result -= 1;
        }
        if self.separators_visible && !self.separators_collapsed {
            result += 2;
        }

        result
    }

    /// The width of the whole grid in this mode.
    pub open spec fn spec_grid_width(self) -> int {
        self.spec_grid_size(self.cell_w)
    }

    /// The height of the whole grid in this mode. A handful of modes override
    /// the general formula, whose correction terms drift along this axis.
    pub open spec fn spec_grid_height(self) -> int {
        if self.cell_h == 2 && self.outer_border && self.cell_border && !self.cell_collapsed
            && self.separators_visible && !self.separators_collapsed {
            29int
        } else if self.cell_h == 2 && !self.outer_border && self.cell_border
            && !self.cell_collapsed && self.separators_visible && !self.separators_collapsed {
            27int
        } else if self.cell_h == 2 && self.outer_border && self.cell_border && self.cell_collapsed
            && !self.separators_visible && !self.separators_collapsed {
            21int
        } else if self.cell_h == 2 && self.outer_border && self.cell_border && self.cell_collapsed
            && self.separators_visible && self.separators_collapsed {
            19int
        } else if self.cell_h == 2 && !self.outer_border && self.cell_border && self.cell_collapsed
            && self.separators_visible && self.separators_collapsed {
            17int
        } else if self.cell_h == 1 && !self.outer_border && !self.cell_border
            && self.cell_collapsed && self.separators_visible && !self.separators_collapsed {
            9int
        } else if self.cell_h == 1 && !self.outer_border && !self.cell_border
            && self.cell_collapsed && !self.separators_visible && self.separators_collapsed {
            9int
        } else {
            self.spec_grid_size(self.cell_h)
        }
    }

    /// Total grid width in this mode.
    pub fn grid_width(&self) -> (r: u16)
        requires
            self.wf(),
        ensures
            r == self.spec_grid_width(),
    {
        self.grid_size(self.cell_w)
    }

    /// Total grid height in this mode.
    pub fn grid_height(&self) -> (r: u16)
        requires
            self.wf(),
        ensures
            r == self.spec_grid_height(),
    {
        if self.cell_h == 2 && self.outer_border && self.cell_border && !self.cell_collapsed
            && self.separators_visible && !self.separators_collapsed {
            return 29;
        }
        if self.cell_h == 2 && !self.outer_border && self.cell_border && !self.cell_collapsed
            && self.separators_visible && !self.separators_collapsed {
            return 27;
        }
        if self.cell_h == 2 && self.outer_border && self.cell_border && self.cell_collapsed
            && !self.separators_visible && !self.separators_collapsed {
            return 21;
        }
        if self.cell_h == 2 && self.outer_border && self.cell_border && self.cell_collapsed
            && self.separators_visible && self.separators_collapsed {
            return 19;
        }
        if self.cell_h == 2 && !self.outer_border && self.cell_border && self.cell_collapsed
            && self.separators_visible && self.separators_collapsed {
            return 17;
        }
        if self.cell_h == 1 && !self.outer_border && !self.cell_border && self.cell_collapsed
            && self.separators_visible && !self.separators_collapsed {
            return 9;
        }
        if self.cell_h == 1 && !self.outer_border && !self.cell_border && self.cell_collapsed
            && !self.separators_visible && self.separators_collapsed {
            return 9;
        }

        self.grid_size(self.cell_h)
    }
}

/// For every region of at least 9x9 the classifier yields exactly one mode
/// (it is a function of width and height alone), and the footprint of that
/// mode fits the region it was classified for: the caller that centres the
/// grid never has to shrink it.
pub proof fn lemma_mode_fits(width: u16, height: u16)
    requires
        9 <= width,
        9 <= height,
    ensures
        LayoutConfig::spec_from_size(width, height).spec_grid_width() <= width,
        LayoutConfig::spec_from_size(width, height).spec_grid_height() <= height,
{
}

} // verus!
