//! The interactive session state: the puzzle model, the selection cursor,
//! and the transition applied for each input event.

use vstd::prelude::*;
use crate::model::{spec_add_result, wrap_digit, SudokuModel, SudokuValue};

verus! {

/// One discrete input event, already decoded from whatever input source the
/// front-end reads. Unrecognised input maps to `Other` and is a no-op.
#[derive(Debug, Clone, Copy, PartialEq, Eq, Structural)]
pub enum Key {
    Up,
    Down,
    Left,
    Right,
    Digit(u8),
    Clear,
    Increment,
    Decrement,
    Quit,
    ToggleDebug,
    Other,
}

/// The state owned by the interactive render loop.
#[derive(Debug, Clone)]
pub struct App {
    pub model: SudokuModel,
    pub cursor_x: usize,
    pub cursor_y: usize,
    pub should_quit: bool,
    pub debug: bool,
}

impl App {
    /// The session invariant: a well-formed grid and a cursor on it.
    pub open spec fn wf(self) -> bool {
        &&& self.model.wf()
        &&& self.cursor_x < 9
        &&& self.cursor_y < 9
    }

    /// A fresh session over `model`, cursor at the top-left corner.
    pub fn new(model: SudokuModel) -> (a: App)
        ensures
            a == (App {
                model: model,
                cursor_x: 0,
                cursor_y: 0,
                should_quit: false,
                debug: false,
            }),
    {
        App { model, cursor_x: 0, cursor_y: 0, should_quit: false, debug: false }
    }

    /// Apply one input event: move the cursor (saturating at the edges),
    /// edit the selected cell, toggle the debug overlay, or ask to quit.
    /// A digit key carries the digit itself.
    pub fn handle_key(&mut self, key: Key)
        requires
            old(self).wf(),
            key matches Key::Digit(d) ==> d <= 9,
        ensures
            final(self).wf(),
            key == Key::ToggleDebug ==> *final(self) == (App {
                debug: !old(self).debug,
                ..*old(self)
            }),
            key == Key::Quit ==> *final(self) == (App { should_quit: true, ..*old(self) }),
            key == Key::Up ==> *final(self) == (App {
                cursor_y: if old(self).cursor_y > 0 {
                    (old(self).cursor_y - 1) as usize
                } else {
                    0
                },
                ..*old(self)
            }),
            key == Key::Down ==> *final(self) == (App {
                cursor_y: if old(self).cursor_y < 8 {
                    (old(self).cursor_y + 1) as usize
                } else {
                    old(self).cursor_y
                },
                ..*old(self)
            }),
            key == Key::Left ==> *final(self) == (App {
                cursor_x: if old(self).cursor_x > 0 {
                    (old(self).cursor_x - 1) as usize
                } else {
                    0
                },
                ..*old(self)
            }),
            key == Key::Right ==> *final(self) == (App {
                cursor_x: if old(self).cursor_x < 8 {
                    (old(self).cursor_x + 1) as usize
                } else {
                    old(self).cursor_x
                },
                ..*old(self)
            }),
            key matches Key::Digit(d) ==> spec_edit_result(*old(self), *final(self), d),
            key == Key::Clear ==> spec_edit_result(*old(self), *final(self), 0),
            key == Key::Increment ==> spec_step_result(*old(self), *final(self), 1),
            key == Key::Decrement ==> spec_step_result(*old(self), *final(self), -1i8),
            key == Key::Other ==> *final(self) == *old(self),
    {
        match key {
            Key::ToggleDebug => {
                self.debug = !self.debug;
            },
            Key::Quit => {
                self.should_quit = true;
            },
            Key::Up => {
                if self.cursor_y > 0 {
                    self.cursor_y -= 1;
                }
            },
            Key::Down => {
                if self.cursor_y < 8 {
                    self.cursor_y += 1;
                }
            },
            Key::Left => {
                if self.cursor_x > 0 {
                    self.cursor_x -= 1;
                }
            },
            Key::Right => {
                if self.cursor_x < 8 {
                    self.cursor_x += 1;
                }
            },
            Key::Digit(d) => {
                if self.model.get(self.cursor_x, self.cursor_y).enabled {
                    self.model.set(self.cursor_x, self.cursor_y, d);
                }
            },
            Key::Clear => {
                if self.model.get(self.cursor_x, self.cursor_y).enabled {
                    self.model.set(self.cursor_x, self.cursor_y, 0);
                }
            },
            Key::Increment => {
                if self.model.get(self.cursor_x, self.cursor_y).enabled {
                    self.model.add(self.cursor_x, self.cursor_y, 1);
                }
            },
            Key::Decrement => {
                if self.model.get(self.cursor_x, self.cursor_y).enabled {
                    self.model.add(self.cursor_x, self.cursor_y, -1);
                }
            },
            Key::Other => {},
        }
    }
}

/// How a digit or clear key relates the session after the event to the one
/// before it: only the selected cell changes, only when it is editable, and
/// the cursor and flags stay put.
pub open spec fn spec_edit_result(pre: App, post: App, digit: u8) -> bool {
    &&& post.cursor_x == pre.cursor_x
    &&& post.cursor_y == pre.cursor_y
    &&& post.should_quit == pre.should_quit
    &&& post.debug == pre.debug
    &&& forall|i: int, j: int|
        0 <= i < 9 && 0 <= j < 9 && !(i == pre.cursor_x && j == pre.cursor_y)
            ==> post.model.cell_at(i, j) == pre.model.cell_at(i, j)
    &&& pre.model.enabled_at(pre.cursor_x as int, pre.cursor_y as int) ==> post.model.cell_at(
        pre.cursor_x as int,
        pre.cursor_y as int,
    ) == (SudokuValue { value: wrap_digit(digit), enabled: true })
    &&& !pre.model.enabled_at(pre.cursor_x as int, pre.cursor_y as int) ==> post.model
        == pre.model
}

/// How an increment or decrement key relates the session after the event to
/// the one before it.
pub open spec fn spec_step_result(pre: App, post: App, delta: i8) -> bool {
    &&& post.cursor_x == pre.cursor_x
    &&& post.cursor_y == pre.cursor_y
    &&& post.should_quit == pre.should_quit
    &&& post.debug == pre.debug
    &&& spec_add_result(pre.model, post.model, pre.cursor_x as int, pre.cursor_y as int, delta)
    &&& !pre.model.enabled_at(pre.cursor_x as int, pre.cursor_y as int) ==> post.model
        == pre.model
}

} // verus!
