//! Frame allocator: carves the whole canvas into an optional header band, a
//! grid band and an optional footer band, and picks the footer text.
//!
//! The priority order is a fixed policy: the footer appears before the
//! header as the canvas grows, and the header gains its border before the
//! footer does. The grid band absorbs all leftover height; it never shrinks
//! the header or footer.

use vstd::prelude::*;

verus! {

/// One horizontal band of the canvas: its top row, its height, and whether
/// it is drawn with its own border (a bordered band is three rows tall, a
/// plain one a single row).
#[derive(Debug, Clone, Copy, PartialEq, Eq, Structural)]
pub struct Band {
    pub y: u16,
    pub height: u16,
    pub bordered: bool,
}

/// The division of the whole canvas into bands.
#[derive(Debug, Clone, Copy, PartialEq, Eq)]
pub struct FramePlan {
    pub header: Option<Band>,
    pub grid_y: u16,
    pub grid_height: u16,
    pub footer: Option<Band>,
}

/// The footer is shown on any canvas taller than nine rows.
pub open spec fn spec_show_footer(height: u16) -> bool {
    height > 9
}

/// The header is shown later than the footer as the canvas grows.
pub open spec fn spec_show_header(height: u16) -> bool {
    height > 12
}

/// The header gains its border first.
pub open spec fn spec_header_bordered(height: u16) -> bool {
    height > 20
}

/// The footer gains its border last.
pub open spec fn spec_footer_bordered(height: u16) -> bool {
    height > 22
}

/// Rows taken by the header band.
pub open spec fn spec_header_height(height: u16) -> int {
    if !spec_show_header(height) {
        0int
    } else if spec_header_bordered(height) {
        3int
    } else {
        1int
    }
}

/// Rows taken by the footer band.
pub open spec fn spec_footer_height(height: u16) -> int {
    if !spec_show_footer(height) {
        0int
    } else if spec_footer_bordered(height) {
        3int
    } else {
        1int
    }
}

/// The whole band division as a function of the canvas height.
pub open spec fn spec_frame_plan(height: u16) -> FramePlan {
    (FramePlan {
        header: if spec_show_header(height) {
            Some(
                Band {
                    y: 0,
                    height: spec_header_height(height) as u16,
                    bordered: spec_header_bordered(height),
                },
            )
        } else {
            None
        },
        grid_y: spec_header_height(height) as u16,
        grid_height: (height - spec_header_height(height) - spec_footer_height(height)) as u16,
        footer: if spec_show_footer(height) {
            Some(
                Band {
                    y: (height - spec_footer_height(height)) as u16,
                    height: spec_footer_height(height) as u16,
                    bordered: spec_footer_bordered(height),
                },
            )
        } else {
            None
        },
    })
}

/// Allocate the canvas: header and footer get their fixed heights, the
/// grid band takes every remaining row in between.
pub fn frame_plan(height: u16) -> (r: FramePlan)
    ensures
        r == spec_frame_plan(height),
        r.grid_y + r.grid_height <= height,
{
    let show_footer = height > 9;
    let show_header = height > 12;
    let header_bordered = height > 20;
    let footer_bordered = height > 22;
    let header_height: u16 = if !show_header {
        0
    } else if header_bordered {
        3
    } else {
        1
    };
    let footer_height: u16 = if !show_footer {
        0
    } else if footer_bordered {
        3
    } else {
        1
    };
    FramePlan {
        header: if show_header {
            Some(Band { y: 0, height: header_height, bordered: header_bordered })
        } else {
            None
        },
        grid_y: header_height,
        grid_height: height - header_height - footer_height,
        footer: if show_footer {
            Some(
                Band {
                    y: height - footer_height,
                    height: footer_height,
                    bordered: footer_bordered,
                },
            )
        } else {
            None
        },
    }
}

/// The footer text, stepped down word by word as the canvas narrows.
pub fn instructions_text(width: u16) -> (r: &'static str)
    ensures
        width < 9 ==> r@ == "Q"@,
        9 <= width < 12 ==> r@ == "⇆ ⇅ 0-9 Q"@,
        12 <= width < 14 ==> r@ == "⇆ ⇅ 0-9 ⌫ Q"@,
        14 <= width < 16 ==> r@ == "⇆ ⇅ ± 0-9 ⌫ Q"@,
        16 <= width < 17 ==> r@ == "⇆ ⇅ ± 0-9 ⌫ ␛ Q"@,
        17 <= width < 19 ==> r@ == "←↓↑→ ± 0-9 ⌫ ␛ Q"@,
        19 <= width < 24 ==> r@ == "←↓↑→ ± 0-9 ⌫ Esc/Q"@,
        24 <= width < 26 ==> r@ == "←↓↑→/hjkl ± 0-9 ⌫ Esc/Q"@,
        26 <= width < 56 ==> r@ == "←↓↑→/hjkl -/+ 0-9 ⌫ Esc/Q"@,
        56 <= width < 76 ==> r@ == "↑↓←→/hjkl:Move 1-9:Set 0/⌫:Clear +/-:Inc/Dec ESC/q:Quit"@,
        76 <= width ==> r@ == "Arrows/hjkl: Move | 1-9: Set value | 0/⌫: Clear | +/-: Inc/Dec | ESC/q: Quit"@,
{
    if width < 9 {
        "Q"
    } else if width < 12 {
        "⇆ ⇅ 0-9 Q"
    } else if width < 14 {
        "⇆ ⇅ 0-9 ⌫ Q"
    } else if width < 16 {
        "⇆ ⇅ ± 0-9 ⌫ Q"
    } else if width < 17 {
        "⇆ ⇅ ± 0-9 ⌫ ␛ Q"
    } else if width < 19 {
        "←↓↑→ ± 0-9 ⌫ ␛ Q"
    } else if width < 24 {
        "←↓↑→ ± 0-9 ⌫ Esc/Q"
    } else if width < 26 {
        "←↓↑→/hjkl ± 0-9 ⌫ Esc/Q"
    } else if width < 56 {
        "←↓↑→/hjkl -/+ 0-9 ⌫ Esc/Q"
    } else if width < 76 {
        "↑↓←→/hjkl:Move 1-9:Set 0/⌫:Clear +/-:Inc/Dec ESC/q:Quit"
    } else {
        "Arrows/hjkl: Move | 1-9: Set value | 0/⌫: Clear | +/-: Inc/Dec | ESC/q: Quit"
    }
}

} // verus!
