//! Separator overlay: when the 3x3 block boundaries are drawn as
//! independent lines rather than fused cell borders, this computes the 3x3
//! arrangement of bordered blocks whose shared edges form the separator
//! grid, with the correct corner, T-junction and cross glyph at each joint.

use vstd::prelude::*;
use crate::border::{Borders, BorderSet};
use crate::geometry::{spec_stride_x, spec_stride_y, Rect};
use crate::layout::LayoutConfig;

verus! {

/// One of the nine blocks whose borders together draw the separator grid.
#[derive(Debug, Clone, Copy, PartialEq, Eq, Structural)]
pub struct SeparatorBlock {
    pub x: u16,
    pub y: u16,
    pub width: u16,
    pub height: u16,
    pub borders: Borders,
    pub set: BorderSet,
}

/// The four corner glyphs of the block at macro-grid position
/// `(sx, sy)`: edge blocks end in corners or T-junctions, interior joints
/// are crosses, so every shared joint is drawn as a through glyph.
pub open spec fn spec_separator_set(sx: int, sy: int) -> BorderSet {
    (BorderSet {
        top_left: if sx == 0 {
            if sy == 0 {
                '╔'
            } else {
                '╠'
            }
        } else {
            if sy == 0 {
                '╦'
            } else {
                '╬'
            }
        },
        top_right: if sx < 2 {
            if sy == 0 {
                '╦'
            } else {
                '╬'
            }
        } else {
            if sy == 0 {
                '╗'
            } else {
                '╣'
            }
        },
        bottom_left: if sx == 0 {
            if sy < 2 {
                '╠'
            } else {
                '╚'
            }
        } else {
            if sy < 2 {
                '╬'
            } else {
                '╩'
            }
        },
        bottom_right: if sx < 2 {
            if sy < 2 {
                '╬'
            } else {
                '╩'
            }
        } else {
            if sy < 2 {
                '╣'
            } else {
                '╝'
            }
        },
        vertical_left: '║',
        vertical_right: '║',
        horizontal_top: '═',
        horizontal_bottom: '═',
    })
}

/// Which sides of the block at `(sx, sy)` are drawn: without an outer
/// frame the outward-facing sides of edge blocks are suppressed.
pub open spec fn spec_separator_borders(c: LayoutConfig, sx: int, sy: int) -> Borders {
    (Borders {
        left: c.outer_border || sx != 0,
        right: c.outer_border || sx != 2,
        top: c.outer_border || sy != 0,
        bottom: c.outer_border || sy != 2,
    })
}

/// The rectangle of the block at `(sx, sy)`, as `(x, y, width, height)` in
/// unbounded coordinates; a negative position means the block falls off
/// the canvas and is dropped.
pub open spec fn spec_separator_rect(c: LayoutConfig, inner: Rect, sx: int, sy: int) -> (
    int,
    int,
    int,
    int,
) {
    let csx = spec_stride_x(c);
    let csy = spec_stride_y(c);
    let offset: int = if c.outer_border {
        if !c.cell_collapsed {
            1int
        } else {
            0int
        }
    } else {
        1int
    };
    if c.outer_border && !c.cell_collapsed && !c.separators_collapsed {
        (
            inner.x + sx * (3 * csx + 1) - 1 - (if sx == 0 {
                1int
            } else {
                0int
            }),
            inner.y + sy * (3 * csy + 1) - 1,
            3 * csx + (if sx == 0 {
                3int
            } else {
                2int
            }),
            3 * csy + 2,
        )
    } else {
        (
            inner.x + sx * (3 * csx) - offset,
            inner.y + sy * (3 * csy) - offset + (if sy == 2 {
                1int
            } else {
                0int
            }),
            3 * csx + 1,
            3 * csy + 1 + (if sy == 1 {
                1int
            } else {
                0int
            }),
        )
    }
}

/// Whether the block at `(sx, sy)` lands on the canvas coordinate range.
pub open spec fn spec_separator_visible(c: LayoutConfig, inner: Rect, sx: int, sy: int) -> bool {
    let (x, y, w, h) = spec_separator_rect(c, inner, sx, sy);
    0 <= x <= u16::MAX && 0 <= y <= u16::MAX
}

/// The block at `(sx, sy)`, fully resolved.
pub open spec fn spec_separator_block(c: LayoutConfig, inner: Rect, sx: int, sy: int)
    -> SeparatorBlock {
    let (x, y, w, h) = spec_separator_rect(c, inner, sx, sy);
    (SeparatorBlock {
        x: x as u16,
        y: y as u16,
        width: w as u16,
        height: h as u16,
        borders: spec_separator_borders(c, sx, sy),
        set: spec_separator_set(sx, sy),
    })
}

/// The first `k` of the nine blocks (rows outermost) that land on the
/// canvas.
pub open spec fn spec_separators_prefix(c: LayoutConfig, inner: Rect, k: int) -> Seq<
    SeparatorBlock,
>
    decreases k,
{
    if k <= 0 {
        Seq::empty()
    } else {
        let prev = spec_separators_prefix(c, inner, k - 1);
        let sx = (k - 1) % 3;
        let sy = (k - 1) / 3;
        if spec_separator_visible(c, inner, sx, sy) {
            prev.push(spec_separator_block(c, inner, sx, sy))
        } else {
            prev
        }
    }
}

/// The separator overlay of a mode: empty unless separators are visible
/// and independent, else the nine blocks minus any that fall off the
/// canvas.
pub open spec fn spec_separators(c: LayoutConfig, inner: Rect) -> Seq<SeparatorBlock> {
    if !c.separators_collapsed && c.separators_visible {
        spec_separators_prefix(c, inner, 9)
    } else {
        Seq::empty()
    }
}

/// Compute the separator overlay for a mode.
pub fn render_separators(config: &LayoutConfig, inner: Rect) -> (r: Vec<SeparatorBlock>)
    requires
        config.wf(),
    ensures
        r@ == spec_separators(*config, inner),
{
    let mut blocks: Vec<SeparatorBlock> = Vec::new();
    if !config.separators_collapsed && config.separators_visible {
        let csx: u16 = config.cell_w + (if config.cell_collapsed {
            0
        } else {
            1
        }) - (if config.cell_border && config.cell_collapsed {
            1
        } else {
            0
        });
        let csy: u16 = config.cell_h + if config.cell_collapsed {
            0
        } else {
            1
        };
        let offset: u16 = if config.outer_border {
            if !config.cell_collapsed {
                1
            } else {
                0
            }
        } else {
            1
        };
        for sy in 0..3usize
            invariant
                config.wf(),
                !config.separators_collapsed && config.separators_visible,
                csx == spec_stride_x(*config),
                csy == spec_stride_y(*config),
                csx <= 6,
                csy <= 3,
                offset == (if config.outer_border {
                    if !config.cell_collapsed {
                        1int
                    } else {
                        0int
                    }
                } else {
                    1int
                }),
                blocks@ == spec_separators_prefix(*config, inner, 3 * sy),
        {
            for sx in 0..3usize
                invariant
                    config.wf(),
                    !config.separators_collapsed && config.separators_visible,
                    sy < 3,
                    csx == spec_stride_x(*config),
                    csy == spec_stride_y(*config),
                    csx <= 6,
                    csy <= 3,
                    offset == (if config.outer_border {
                        if !config.cell_collapsed {
                            1int
                        } else {
                            0int
                        }
                    } else {
                        1int
                    }),
                    blocks@ == spec_separators_prefix(*config, inner, 3 * sy + sx),
            {
                proof {
                    assert(0 <= (sx as i64) * ((3 * csx + 1) as i64) <= 38) by (nonlinear_arith)
                        requires
                            sx < 3,
                            csx <= 6,
                    ;
                    assert(0 <= (sy as i64) * ((3 * csy + 1) as i64) <= 20) by (nonlinear_arith)
                        requires
                            sy < 3,
                            csy <= 3,
                    ;
                    assert(0 <= (sx as i64) * ((3 * csx) as i64) <= 36) by (nonlinear_arith)
                        requires
                            sx < 3,
                            csx <= 6,
                    ;
                    assert(0 <= (sy as i64) * ((3 * csy) as i64) <= 18) by (nonlinear_arith)
                        requires
                            sy < 3,
                            csy <= 3,
                    ;
                }
                let (bx, by, bw, bh): (i64, i64, u16, u16) = if config.outer_border
                    && !config.cell_collapsed && !config.separators_collapsed {
                    (
                        inner.x as i64 + (sx as i64) * (3 * csx + 1) as i64 - 1 - (if sx == 0 {
                            1
                        } else {
                            0
                        }),
                        inner.y as i64 + (sy as i64) * (3 * csy + 1) as i64 - 1,
                        3 * csx + (if sx == 0 {
                            3
                        } else {
                            2
                        }),
                        3 * csy + 2,
                    )
                } else {
                    (
                        inner.x as i64 + (sx as i64) * (3 * csx) as i64 - offset as i64,
                        inner.y as i64 + (sy as i64) * (3 * csy) as i64 - offset as i64 + (if sy
                            == 2 {
                            1
                        } else {
                            0
                        }),
                        3 * csx + 1,
                        3 * csy + 1 + (if sy == 1 {
                            1
                        } else {
                            0
                        }),
                    )
                };
                if bx >= 0 && bx <= u16::MAX as i64 && by >= 0 && by <= u16::MAX as i64 {
                    let set = separator_set(sx, sy);
                    let borders = Borders {
                        left: config.outer_border || sx != 0,
                        right: config.outer_border || sx != 2,
                        top: config.outer_border || sy != 0,
                        bottom: config.outer_border || sy != 2,
                    };
                    let block = SeparatorBlock {
                        x: bx as u16,
                        y: by as u16,
                        width: bw,
                        height: bh,
                        borders,
                        set,
                    };
                    proof {
                        assert(block == spec_separator_block(
                            *config,
                            inner,
                            sx as int,
                            sy as int,
                        ));
                    }
                    blocks.push(block);
                }
            }
        }
    }
    blocks
}

/// Executable twin of [`spec_separator_set`].
pub fn separator_set(sx: usize, sy: usize) -> (r: BorderSet)
    ensures
        r == spec_separator_set(sx as int, sy as int),
{
    BorderSet {
        top_left: if sx == 0 {
            if sy == 0 {
                '╔'
            } else {
                '╠'
            }
        } else {
            if sy == 0 {
                '╦'
            } else {
                '╬'
            }
        },
        top_right: if sx < 2 {
            if sy == 0 {
                '╦'
            } else {
                '╬'
            }
        } else {
            if sy == 0 {
                '╗'
            } else {
                '╣'
            }
        },
        bottom_left: if sx == 0 {
            if sy < 2 {
                '╠'
            } else {
                '╚'
            }
        } else {
            if sy < 2 {
                '╬'
            } else {
                '╩'
            }
        },
        bottom_right: if sx < 2 {
            if sy < 2 {
                '╬'
            } else {
                '╩'
            }
        } else {
            if sy < 2 {
                '╣'
            } else {
                '╝'
            }
        },
        vertical_left: '║',
        vertical_right: '║',
        horizontal_top: '═',
        horizontal_bottom: '═',
    }
}

} // verus!
