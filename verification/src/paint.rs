//! Per-cell paint resolution: turns one resolved [`Cell`] into the
//! primitive paint operations a canvas back-end performs for it — an
//! optional bordered block and an optional one-row glyph run.

use vstd::prelude::*;
use crate::border::{BorderSet, BorderStyle, Borders, Cell, State, spec_border_set};
use crate::geometry::Rect;

verus! {

/// The semantic colours the renderer paints with; a back-end maps them to
/// whatever its palette offers.
#[derive(Debug, Clone, Copy, PartialEq, Eq, Structural)]
pub enum PaintColor {
    White,
    Red,
    Green,
    Yellow,
    Cyan,
    DarkGray,
}

/// The border part of one cell's paint: which sides, with which glyphs,
/// in which colour.
#[derive(Debug, Clone, Copy, PartialEq, Eq, Structural)]
pub struct BorderPaint {
    pub borders: Borders,
    pub set: BorderSet,
    pub colour: PaintColor,
}

/// One centred glyph run, a single row tall.
#[derive(Debug, Clone, Copy, PartialEq, Eq, Structural)]
pub struct TextPaint {
    pub x: u16,
    pub y: u16,
    pub width: u16,
    pub glyph: char,
}

/// Everything painted for one cell.
#[derive(Debug, Clone, Copy, PartialEq, Eq)]
pub struct CellPaint {
    pub area: Rect,
    pub fg: PaintColor,
    pub bold: bool,
    pub highlighted: bool,
    pub border: Option<BorderPaint>,
    pub text: Option<TextPaint>,
}

/// Whether any side of the cell carries a border.
pub open spec fn spec_has_borders(c: Cell) -> bool {
    c.left != BorderStyle::Absent || c.right != BorderStyle::Absent || c.top
        != BorderStyle::Absent || c.bottom != BorderStyle::Absent
}

/// Which sides of the cell carry a border.
pub open spec fn spec_borders_of(c: Cell) -> Borders {
    (Borders {
        left: c.left != BorderStyle::Absent,
        right: c.right != BorderStyle::Absent,
        top: c.top != BorderStyle::Absent,
        bottom: c.bottom != BorderStyle::Absent,
    })
}

/// The text colour for a cell's paint class.
pub open spec fn spec_cell_fg(s: State) -> PaintColor {
    match s {
        State::Neutral => PaintColor::White,
        State::Bad => PaintColor::Red,
        State::Good => PaintColor::Green,
    }
}

/// The border colour: separated cells highlight selection and fixed
/// cells, fused borders stay uniformly dim so shared lines agree.
pub open spec fn spec_border_colour(c: Cell) -> PaintColor {
    if c.separate {
        if c.selected {
            PaintColor::Yellow
        } else if !c.enabled {
            PaintColor::Cyan
        } else {
            PaintColor::DarkGray
        }
    } else {
        PaintColor::DarkGray
    }
}

/// The area inside `area` that remains once the given border sides are
/// drawn, as `(x, y, width, height)`; the sizes saturate at zero.
pub open spec fn spec_inner_rect(area: Rect, b: Borders) -> (int, int, int, int) {
    let lr: int = (if b.left {
        1int
    } else {
        0int
    }) + (if b.right {
        1int
    } else {
        0int
    });
    let tb: int = (if b.top {
        1int
    } else {
        0int
    }) + (if b.bottom {
        1int
    } else {
        0int
    });
    (
        area.x + (if b.left {
            1int
        } else {
            0int
        }),
        area.y + (if b.top {
            1int
        } else {
            0int
        }),
        if area.width >= lr {
            area.width - lr
        } else {
            0int
        },
        if area.height >= tb {
            area.height - tb
        } else {
            0int
        },
    )
}

/// The full paint of one cell: nothing for an empty area; otherwise the
/// bordered block when any side has a border, and the cell's glyph centred
/// on the middle row of whatever area remains inside.
pub open spec fn spec_render_cell(c: Cell) -> Option<CellPaint> {
    let height: int = c.h + (if spec_has_borders(c) {
        1int
    } else {
        0int
    });
    if c.w == 0 || height == 0 {
        None
    } else {
        let area = Rect { x: c.x, y: c.y, width: c.w, height: height as u16 };
        let fg = spec_cell_fg(c.state);
        let bold = !c.enabled || c.selected;
        if spec_has_borders(c) {
            let b = spec_borders_of(c);
            let (ix, iy, iw, ih) = spec_inner_rect(area, b);
            Some(
                CellPaint {
                    area,
                    fg,
                    bold,
                    highlighted: c.selected,
                    border: Some(
                        BorderPaint {
                            borders: b,
                            set: spec_border_set(c),
                            colour: spec_border_colour(c),
                        },
                    ),
                    text: if iw > 0 && ih > 0 {
                        Some(
                            TextPaint {
                                x: ix as u16,
                                y: (iy + if ih > 1 {
                                    ih / 2
                                } else {
                                    0int
                                }) as u16,
                                width: iw as u16,
                                glyph: c.text,
                            },
                        )
                    } else {
                        None
                    },
                },
            )
        } else {
            Some(
                CellPaint {
                    area,
                    fg,
                    bold,
                    highlighted: c.selected,
                    border: None,
                    text: Some(
                        TextPaint {
                            x: c.x,
                            y: (c.y + if c.h > 1 {
                                height / 2
                            } else {
                                0int
                            }) as u16,
                            width: c.w,
                            glyph: c.text,
                        },
                    ),
                },
            )
        }
    }
}

/// Resolve the paint operations for one cell.
pub fn render_cell(cell: Cell) -> (r: Option<CellPaint>)
    requires
        cell.x + cell.w <= u16::MAX,
        cell.y + cell.h < u16::MAX,
    ensures
        r == spec_render_cell(cell),
{
    let bordered = cell.has_borders();
    let height: u16 = cell.h + if bordered {
        1
    } else {
        0
    };
    if cell.w == 0 || height == 0 {
        return None;
    }
    let area = Rect { x: cell.x, y: cell.y, width: cell.w, height };
    let fg = match cell.state {
        State::Neutral => PaintColor::White,
        State::Bad => PaintColor::Red,
        State::Good => PaintColor::Green,
    };
    let bold = !cell.enabled || cell.selected;
    if bordered {
        let borders = cell.get_borders();
        let set = cell.get_border_set();
        let colour = if cell.separate {
            if cell.selected {
                PaintColor::Yellow
            } else if !cell.enabled {
                PaintColor::Cyan
            } else {
                PaintColor::DarkGray
            }
        } else {
            PaintColor::DarkGray
        };
        let lr: u16 = (if borders.left {
            1
        } else {
            0
        }) + (if borders.right {
            1
        } else {
            0
        });
        let tb: u16 = (if borders.top {
            1
        } else {
            0
        }) + (if borders.bottom {
            1
        } else {
            0
        });
        let ix: u16 = area.x + if borders.left {
            1
        } else {
            0
        };
        let iy: u16 = area.y + if borders.top {
            1
        } else {
            0
        };
        let iw: u16 = if area.width >= lr {
            area.width - lr
        } else {
            0
        };
        let ih: u16 = if area.height >= tb {
            area.height - tb
        } else {
            0
        };
        let text = if iw > 0 && ih > 0 {
            Some(
                TextPaint {
                    x: ix,
                    y: iy + if ih > 1 {
                        ih / 2
                    } else {
                        0
                    },
                    width: iw,
                    glyph: cell.text,
                },
            )
        } else {
            None
        };
        Some(
            CellPaint {
                area,
                fg,
                bold,
                highlighted: cell.selected,
                border: Some(BorderPaint { borders, set, colour }),
                text,
            },
        )
    } else {
        Some(
            CellPaint {
                area,
                fg,
                bold,
                highlighted: cell.selected,
                border: None,
                text: Some(
                    TextPaint {
                        x: cell.x,
                        y: cell.y + if cell.h > 1 {
                            height / 2
                        } else {
                            0
                        },
                        width: cell.w,
                        glyph: cell.text,
                    },
                ),
            },
        )
    }
}

} // verus!
