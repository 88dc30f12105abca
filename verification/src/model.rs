//! The puzzle model: a 9x9 grid of digit cells grouped into 3x3 blocks,
//! with per-cell edit locking and conflict / completion feedback.

use vstd::prelude::*;
use vstd::relations::injective_on;
use vstd::set_lib::{lemma_int_range, lemma_len_subset, lemma_map_size, set_int_range};
use vstd::wrapping::u8_specs;

verus! {

/// Feedback class for one cell: `Red` marks a conflict, `Green` a completed
/// row, column or block, `Black` anything else.
#[derive(Debug, Clone, Copy, PartialEq, Eq, Structural)]
pub enum Colour {
    Black,
    Red,
    Green,
}

/// One cell's value (0 for blank, 1 to 9 for a digit) and whether the cell
/// may still be edited; `enabled` is false for the fixed cells supplied at
/// puzzle creation.
#[derive(Debug, Clone, Copy, PartialEq, Eq, Structural)]
pub struct SudokuValue {
    pub value: u8,
    pub enabled: bool,
}

/// The single character shown for a cell value: blank for 0 or any
/// out-of-range value, the digit itself for 1 to 9.
pub open spec fn digit_char(v: u8) -> char {
    if v == 1 {
        '1'
    } else if v == 2 {
        '2'
    } else if v == 3 {
        '3'
    } else if v == 4 {
        '4'
    } else if v == 5 {
        '5'
    } else if v == 6 {
        '6'
    } else if v == 7 {
        '7'
    } else if v == 8 {
        '8'
    } else if v == 9 {
        '9'
    } else {
        ' '
    }
}

impl SudokuValue {
    /// The one-character label for this value.
    pub fn text(&self) -> (r: &'static str)
        ensures
            r@.len() == 1,
            r@[0] == digit_char(self.value),
    {
        proof {
            reveal_strlit(" ");
            reveal_strlit("1");
            reveal_strlit("2");
            reveal_strlit("3");
            reveal_strlit("4");
            reveal_strlit("5");
            reveal_strlit("6");
            reveal_strlit("7");
            reveal_strlit("8");
            reveal_strlit("9");
        }
        match self.value {
            1 => "1",
            2 => "2",
            3 => "3",
            4 => "4",
            5 => "5",
            6 => "6",
            7 => "7",
            8 => "8",
            9 => "9",
            _ => " ",
        }
    }
}

impl Default for SudokuValue {
    /// A blank, editable cell.
    fn default() -> (r: Self)
        ensures
            r == (SudokuValue { value: 0, enabled: true }),
    {
        Self { value: 0, enabled: true }
    }
}

/// One 3x3 block of cells.
#[derive(Debug, Clone)]
pub struct SudokuCell {
    values: Vec<SudokuValue>,
}

impl SudokuCell {
    /// The nine cells of the block, in block-local order.
    pub closed spec fn spec_values(self) -> Seq<SudokuValue> {
        self.values@
    }

    /// A block of nine blank, editable cells.
    pub fn new() -> (c: SudokuCell)
        ensures
            c.spec_values().len() == 9,
            forall|i: int|
                0 <= i < 9 ==> c.spec_values()[i] == (SudokuValue { value: 0, enabled: true }),
    {
        let mut values: Vec<SudokuValue> = Vec::new();
        for k in 0..9
            invariant
                values@.len() == k,
                forall|i: int|
                    0 <= i < k ==> values@[i] == (SudokuValue { value: 0, enabled: true }),
        {
            values.push(SudokuValue { value: 0, enabled: true });
        }
        SudokuCell { values }
    }
}

impl Default for SudokuCell {
    /// Same as [`SudokuCell::new`].
    fn default() -> (c: Self)
        ensures
            c.spec_values().len() == 9,
            forall|i: int|
                0 <= i < 9 ==> c.spec_values()[i] == (SudokuValue { value: 0, enabled: true }),
    {
        Self::new()
    }
}

/// The whole 9x9 grid, stored as nine 3x3 blocks.
#[derive(Debug, Clone)]
pub struct SudokuModel {
    cells: Vec<SudokuCell>,
}

impl SudokuModel {
    /// The fixed shape of the store: nine blocks of nine cells each.
    pub closed spec fn dims(self) -> bool {
        &&& self.cells@.len() == 9
        &&& forall|b: int| 0 <= b < 9 ==> (#[trigger] self.cells@[b]).spec_values().len() == 9
    }

    /// The cell at grid coordinates `(x, y)`, both in 0..9.
    pub closed spec fn cell_at(self, x: int, y: int) -> SudokuValue {
        self.cells@[(x / 3) * 3 + (y / 3)].spec_values()[(x % 3) * 3 + (y % 3)]
    }

    /// The digit stored at `(x, y)`; 0 means blank.
    pub open spec fn val(self, x: int, y: int) -> u8 {
        self.cell_at(x, y).value
    }

    /// Whether the cell at `(x, y)` may still be edited.
    pub open spec fn enabled_at(self, x: int, y: int) -> bool {
        self.cell_at(x, y).enabled
    }

    /// Well-formed: right shape, and every stored value is 0 to 9.
    pub open spec fn wf(self) -> bool {
        &&& self.dims()
        &&& forall|x: int, y: int| 0 <= x < 9 && 0 <= y < 9 ==> #[trigger] self.val(x, y) <= 9
    }

    /// An empty grid: every cell blank and editable.
    pub fn new() -> (m: Self)
        ensures
            m.wf(),
            forall|x: int, y: int|
                0 <= x < 9 && 0 <= y < 9 ==> #[trigger] m.cell_at(x, y) == (SudokuValue {
                    value: 0,
                    enabled: true,
                }),
    {
        let mut cells: Vec<SudokuCell> = Vec::new();
        for k in 0..9
            invariant
                cells@.len() == k,
                forall|b: int| 0 <= b < k ==> (#[trigger] cells@[b]).spec_values().len() == 9,
                forall|b: int, i: int|
                    0 <= b < k && 0 <= i < 9 ==> #[trigger] cells@[b].spec_values()[i]
                        == (SudokuValue { value: 0, enabled: true }),
        {
            cells.push(SudokuCell::new());
        }
        SudokuModel { cells }
    }

    /// Shared access to the cell at `(x, y)`.
    pub fn get(&self, x: usize, y: usize) -> (r: &SudokuValue)
        requires
            self.dims(),
            x < 9,
            y < 9,
        ensures
            *r == self.cell_at(x as int, y as int),
    {
        let top_x: usize = x / 3;
        let top_y: usize = y / 3;
        let cell_x: usize = x % 3;
        let cell_y: usize = y % 3;
        &self.cells[top_x * 3 + top_y].values[cell_x * 3 + cell_y]
    }

    /// Exclusive access to the cell at `(x, y)`. The caller may write any
    /// cell value through the returned reference; well-formedness holds
    /// afterwards exactly when the written value is in range.
    pub fn get_mut(&mut self, x: usize, y: usize) -> (r: &mut SudokuValue)
        requires
            old(self).dims(),
            x < 9,
            y < 9,
        ensures
            *r == old(self).cell_at(x as int, y as int),
            final(self).dims(),
            final(self).cell_at(x as int, y as int) == *final(r),
            forall|i: int, j: int|
                0 <= i < 9 && 0 <= j < 9 && !(i == x && j == y) ==> final(self).cell_at(i, j)
                    == old(self).cell_at(i, j),
    {
        let top_x: usize = x / 3;
        let top_y: usize = y / 3;
        let cell_x: usize = x % 3;
        let cell_y: usize = y % 3;
        &mut self.cells[top_x * 3 + top_y].values[cell_x * 3 + cell_y]
    }

    /// The one-character label for the cell at `(x, y)`.
    pub fn text(&self, x: usize, y: usize) -> (r: &str)
        requires
            self.dims(),
            x < 9,
            y < 9,
        ensures
            r@.len() == 1,
            r@[0] == digit_char(self.val(x as int, y as int)),
    {
        self.get(x, y).text()
    }

    /// Write `value` into the cell at `(x, y)`, reduced to one digit: values
    /// wrap modulo 10, except that 255 (one step below 0) lands on 9. A
    /// fixed cell is left untouched.
    pub fn set(&mut self, x: usize, y: usize, value: u8)
        requires
            old(self).dims(),
            x < 9,
            y < 9,
        ensures
            final(self).dims(),
            old(self).wf() ==> final(self).wf(),
            forall|i: int, j: int|
                0 <= i < 9 && 0 <= j < 9 && !(i == x && j == y) ==> final(self).cell_at(i, j)
                    == old(self).cell_at(i, j),
            old(self).enabled_at(x as int, y as int) ==> final(self).cell_at(x as int, y as int)
                == (SudokuValue { value: wrap_digit(value), enabled: true }),
            !old(self).enabled_at(x as int, y as int) ==> final(self).cell_at(x as int, y as int)
                == old(self).cell_at(x as int, y as int),
    {
        let target = self.get_mut(x, y);
        if target.enabled {
            target.value = if value == 255 {
                9
            } else {
                value % 10
            };
        }
        proof {
            if old(self).wf() {
                assert forall|i: int, j: int| 0 <= i < 9 && 0 <= j < 9 implies #[trigger] self.val(
                    i,
                    j,
                ) <= 9 by {
                    if !(i == x as int && j == y as int) {
                        assert(self.cell_at(i, j) == old(self).cell_at(i, j));
                        assert(old(self).val(i, j) <= 9);
                    }
                }
            }
        }
    }

    /// Set whether the cell at `(x, y)` may be edited.
    pub fn set_enabled(&mut self, x: usize, y: usize, enabled: bool)
        requires
            old(self).dims(),
            x < 9,
            y < 9,
        ensures
            final(self).dims(),
            old(self).wf() ==> final(self).wf(),
            forall|i: int, j: int|
                0 <= i < 9 && 0 <= j < 9 && !(i == x && j == y) ==> final(self).cell_at(i, j)
                    == old(self).cell_at(i, j),
            final(self).cell_at(x as int, y as int) == (SudokuValue {
                value: old(self).val(x as int, y as int),
                enabled: enabled,
            }),
    {
        let target = self.get_mut(x, y);
        target.enabled = enabled;
        proof {
            if old(self).wf() {
                assert forall|i: int, j: int| 0 <= i < 9 && 0 <= j < 9 implies #[trigger] self.val(
                    i,
                    j,
                ) <= 9 by {
                    if !(i == x as int && j == y as int) {
                        assert(self.cell_at(i, j) == old(self).cell_at(i, j));
                    }
                    assert(old(self).val(i, j) <= 9);
                }
            }
        }
    }

    /// Step the cell at `(x, y)` by `value`, wrapping over the digit range
    /// 0 to 9 (one below 0 is 9, one above 9 is 0). A fixed cell is left
    /// untouched.
    pub fn add(&mut self, x: usize, y: usize, value: i8)
        requires
            old(self).dims(),
            x < 9,
            y < 9,
        ensures
            old(self).wf() ==> final(self).wf(),
            spec_add_result(*old(self), *final(self), x as int, y as int, value),
    {
        let v: u8 = self.get(x, y).value;
        self.set(x, y, v.wrapping_add_signed(value));
    }

    /// React to a front-end message: a click on a cell advances its digit
    /// by one.
    pub fn update(&mut self, message: Message)
        requires
            old(self).dims(),
            message matches Message::Click(x, y) ==> x < 9 && y < 9,
        ensures
            old(self).wf() ==> final(self).wf(),
            message matches Message::Click(x, y) ==> spec_add_result(
                *old(self),
                *final(self),
                x as int,
                y as int,
                1,
            ),
    {
        match message {
            Message::Click(x, y) => self.add(x, y, 1),
        }
    }

    /// Write a fixed clue into a blank, still-editable cell.
    fn preset(&mut self, x: usize, y: usize, value: u8)
        requires
            old(self).wf(),
            x < 9,
            y < 9,
            1 <= value <= 9,
            old(self).enabled_at(x as int, y as int),
        ensures
            final(self).wf(),
            forall|i: int, j: int|
                0 <= i < 9 && 0 <= j < 9 && !(i == x && j == y) ==> final(self).cell_at(i, j)
                    == old(self).cell_at(i, j),
            final(self).cell_at(x as int, y as int) == (SudokuValue {
                value: value,
                enabled: false,
            }),
    {
        self.set(x, y, value);
        self.set_enabled(x, y, false);
    }

    /// The grid read from a 9x9 array of digits, indexed as `grid[x][y]`:
    /// a zero leaves the cell blank and editable, any other entry is
    /// reduced to one digit and fixed.
    pub fn from_grid(grid: &[[u8; 9]; 9]) -> (m: Self)
        ensures
            m.wf(),
            forall|x: int, y: int|
                0 <= x < 9 && 0 <= y < 9 ==> #[trigger] m.cell_at(x, y) == spec_grid_cell(
                    *grid,
                    x,
                    y,
                ),
    {
        let mut m = Self::new();
        for x in 0..9usize
            invariant
                m.wf(),
                forall|i: int, j: int|
                    0 <= i < x && 0 <= j < 9 ==> #[trigger] m.cell_at(i, j) == spec_grid_cell(
                        *grid,
                        i,
                        j,
                    ),
                forall|i: int, j: int|
                    x <= i < 9 && 0 <= j < 9 ==> #[trigger] m.cell_at(i, j) == (SudokuValue {
                        value: 0,
                        enabled: true,
                    }),
        {
            for y in 0..9usize
                invariant
                    x < 9,
                    m.wf(),
                    forall|i: int, j: int|
                        0 <= i < x && 0 <= j < 9 ==> #[trigger] m.cell_at(i, j) == spec_grid_cell(
                            *grid,
                            i,
                            j,
                        ),
                    forall|j: int|
                        0 <= j < y ==> #[trigger] m.cell_at(x as int, j) == spec_grid_cell(
                            *grid,
                            x as int,
                            j,
                        ),
                    forall|j: int|
                        y <= j < 9 ==> #[trigger] m.cell_at(x as int, j) == (SudokuValue {
                            value: 0,
                            enabled: true,
                        }),
                    forall|i: int, j: int|
                        x < i < 9 && 0 <= j < 9 ==> #[trigger] m.cell_at(i, j) == (SudokuValue {
                            value: 0,
                            enabled: true,
                        }),
            {
                let num: u8 = grid[x][y];
                if num != 0 {
                    m.set(x, y, num);
                    m.set_enabled(x, y, false);
                }
            }
        }
        m
    }

    /// The example puzzle: the clue cells of [`example_digit`] are filled
    /// in and fixed, every other cell is blank and editable.
    pub fn example() -> (m: Self)
        ensures
            m.wf(),
            forall|x: int, y: int|
                0 <= x < 9 && 0 <= y < 9 ==> #[trigger] m.cell_at(x, y) == (SudokuValue {
                    value: example_digit(x, y),
                    enabled: example_digit(x, y) == 0,
                }),
    {
        let mut m = Self::new();
        m.preset(0, 0, 1);
        m.preset(0, 1, 6);
        m.preset(0, 2, 7);
        m.preset(0, 3, 8);
        m.preset(0, 4, 9);
        m.preset(0, 5, 2);
        m.preset(0, 6, 3);
        m.preset(0, 7, 4);
        m.preset(0, 8, 5);
        m.preset(1, 0, 4);
        m.preset(1, 1, 2);
        m.preset(1, 2, 8);
        m.preset(2, 0, 5);
        m.preset(2, 1, 9);
        m.preset(2, 2, 3);
        m.preset(3, 0, 6);
        m.preset(3, 3, 4);
        m.preset(4, 0, 7);
        m.preset(4, 4, 5);
        m.preset(5, 0, 8);
        m.preset(5, 5, 6);
        m.preset(6, 0, 9);
        m.preset(6, 6, 7);
        m.preset(7, 0, 2);
        m.preset(7, 7, 8);
        m.preset(8, 0, 3);
        m.preset(8, 8, 9);
        m
    }
}

/// A message from a pointer-driven front-end.
#[derive(Debug, Clone, Copy, PartialEq, Eq, Structural)]
pub enum Message {
    Click(usize, usize),
}

/// How [`SudokuModel::add`] relates the grid after the call to the grid
/// before it: only the stepped cell changes, and only when it is editable.
pub open spec fn spec_add_result(
    pre: SudokuModel,
    post: SudokuModel,
    x: int,
    y: int,
    delta: i8,
) -> bool {
    &&& post.dims()
    &&& forall|i: int, j: int|
        0 <= i < 9 && 0 <= j < 9 && !(i == x && j == y) ==> post.cell_at(i, j) == pre.cell_at(i, j)
    &&& pre.enabled_at(x, y) ==> post.cell_at(x, y) == (SudokuValue {
        value: wrap_digit(u8_specs::wrapping_add_signed(pre.val(x, y), delta)),
        enabled: true,
    })
    &&& !pre.enabled_at(x, y) ==> post.cell_at(x, y) == pre.cell_at(x, y)
}

/// The cell that [`SudokuModel::from_grid`] builds from one entry of its
/// input array.
pub open spec fn spec_grid_cell(grid: [[u8; 9]; 9], x: int, y: int) -> SudokuValue {
    if grid@[x]@[y] == 0 {
        (SudokuValue { value: 0, enabled: true })
    } else {
        (SudokuValue { value: wrap_digit(grid@[x]@[y]), enabled: false })
    }
}

/// The clue layout of the example puzzle, indexed as `(x, y)`; 0 marks a
/// cell left blank.
pub open spec fn example_digit(x: int, y: int) -> u8 {
    if x == 0 {
        if y == 0 { 1 } else if y == 1 { 6 } else if y == 2 { 7 } else if y == 3 { 8 }
        else if y == 4 { 9 } else if y == 5 { 2 } else if y == 6 { 3 } else if y == 7 { 4 }
        else { 5 }
    } else if x == 1 {
        if y == 0 { 4 } else if y == 1 { 2 } else if y == 2 { 8 } else { 0 }
    } else if x == 2 {
        if y == 0 { 5 } else if y == 1 { 9 } else if y == 2 { 3 } else { 0 }
    } else if x == 3 {
        if y == 0 { 6 } else if y == 3 { 4 } else { 0 }
    } else if x == 4 {
        if y == 0 { 7 } else if y == 4 { 5 } else { 0 }
    } else if x == 5 {
        if y == 0 { 8 } else if y == 5 { 6 } else { 0 }
    } else if x == 6 {
        if y == 0 { 9 } else if y == 6 { 7 } else { 0 }
    } else if x == 7 {
        if y == 0 { 2 } else if y == 7 { 8 } else { 0 }
    } else {
        if y == 0 { 3 } else if y == 8 { 9 } else { 0 }
    }
}

/// Executable twin of [`digit_char`].
pub fn digit_glyph(v: u8) -> (c: char)
    ensures
        c == digit_char(v),
{
    match v {
        1 => '1',
        2 => '2',
        3 => '3',
        4 => '4',
        5 => '5',
        6 => '6',
        7 => '7',
        8 => '8',
        9 => '9',
        _ => ' ',
    }
}

/// How [`SudokuModel::set`] reduces an arbitrary byte to one digit.
pub open spec fn wrap_digit(v: u8) -> u8 {
    if v == 255 {
        9
    } else {
        (v % 10) as u8
    }
}

/// Whether `(x, y)` and `(i, j)` lie in the same 3x3 block.
pub open spec fn same_block(x: int, y: int, i: int, j: int) -> bool {
    x / 3 == i / 3 && y / 3 == j / 3
}

/// Whether the cell at `(x, y)` reads the cell at `(i, j)` when its colour
/// is computed: they share a row, a column or a block.
pub open spec fn sees(x: int, y: int, i: int, j: int) -> bool {
    j == y || i == x || same_block(x, y, i, j)
}

/// Another cell of the same block holds the same digit as `(x, y)`.
pub open spec fn spec_block_dup(m: SudokuModel, x: int, y: int) -> bool {
    exists|i: int, j: int|
        0 <= i < 9 && 0 <= j < 9 && same_block(x, y, i, j) && !(i == x && j == y) && (
        #[trigger] m.val(i, j)) == m.val(x, y)
}

/// Another cell of the same row holds the same digit as `(x, y)`.
pub open spec fn spec_row_dup(m: SudokuModel, x: int, y: int) -> bool {
    exists|i: int| 0 <= i < 9 && i != x && (#[trigger] m.val(i, y)) == m.val(x, y)
}

/// Another cell of the same column holds the same digit as `(x, y)`.
pub open spec fn spec_col_dup(m: SudokuModel, x: int, y: int) -> bool {
    exists|j: int| 0 <= j < 9 && j != y && (#[trigger] m.val(x, j)) == m.val(x, y)
}

/// The digit at `(x, y)` also stands elsewhere in its row, column or block.
pub open spec fn spec_conflict(m: SudokuModel, x: int, y: int) -> bool {
    spec_block_dup(m, x, y) || spec_row_dup(m, x, y) || spec_col_dup(m, x, y)
}

/// Row `y` contains the digit `v` somewhere.
pub open spec fn spec_row_has(m: SudokuModel, y: int, v: u8) -> bool {
    exists|i: int| 0 <= i < 9 && (#[trigger] m.val(i, y)) == v
}

/// Column `x` contains the digit `v` somewhere.
pub open spec fn spec_col_has(m: SudokuModel, x: int, v: u8) -> bool {
    exists|j: int| 0 <= j < 9 && (#[trigger] m.val(x, j)) == v
}

/// The block of `(x, y)` contains the digit `v` somewhere.
pub open spec fn spec_block_has(m: SudokuModel, x: int, y: int, v: u8) -> bool {
    exists|i: int, j: int|
        0 <= i < 9 && 0 <= j < 9 && same_block(x, y, i, j) && (#[trigger] m.val(i, j)) == v
}

/// Row `y` contains every digit 1 to 9.
pub open spec fn spec_row_complete(m: SudokuModel, y: int) -> bool {
    forall|v: u8| 1 <= v <= 9 ==> #[trigger] spec_row_has(m, y, v)
}

/// Column `x` contains every digit 1 to 9.
pub open spec fn spec_col_complete(m: SudokuModel, x: int) -> bool {
    forall|v: u8| 1 <= v <= 9 ==> #[trigger] spec_col_has(m, x, v)
}

/// The block of `(x, y)` contains every digit 1 to 9.
pub open spec fn spec_block_complete(m: SudokuModel, x: int, y: int) -> bool {
    forall|v: u8| 1 <= v <= 9 ==> #[trigger] spec_block_has(m, x, y, v)
}

/// The feedback colour of the cell at `(x, y)`: blank cells are neutral, a
/// duplicated digit is a conflict, a cell of a completed row, column or
/// block is complete, anything else is neutral.
pub open spec fn spec_colour(m: SudokuModel, x: int, y: int) -> Colour {
    if m.val(x, y) == 0 {
        Colour::Black
    } else if spec_conflict(m, x, y) {
        Colour::Red
    } else if spec_block_complete(m, x, y) || spec_row_complete(m, y) || spec_col_complete(m, x) {
        Colour::Green
    } else {
        Colour::Black
    }
}

impl SudokuModel {
    fn block_dup(&self, x: usize, y: usize) -> (r: bool)
        requires
            self.dims(),
            x < 9,
            y < 9,
        ensures
            r == spec_block_dup(*self, x as int, y as int),
    {
        let t: u8 = self.get(x, y).value;
        let bx: usize = (x / 3) * 3;
        let by: usize = (y / 3) * 3;
        for a in 0..3
            invariant
                self.dims(),
                x < 9,
                y < 9,
                t == self.val(x as int, y as int),
                bx == (x as int / 3) * 3,
                by == (y as int / 3) * 3,
                forall|i: int, j: int|
                    bx <= i < bx + a && by <= j < by + 3 && !(i == x && j == y) ==> (
                    #[trigger] self.val(i, j)) != t,
        {
            for b in 0..3
                invariant
                    self.dims(),
                    x < 9,
                    y < 9,
                    a < 3,
                    t == self.val(x as int, y as int),
                    bx == (x as int / 3) * 3,
                    by == (y as int / 3) * 3,
                    forall|i: int, j: int|
                        bx <= i < bx + a && by <= j < by + 3 && !(i == x && j == y) ==> (
                        #[trigger] self.val(i, j)) != t,
                    forall|j: int|
                        by <= j < by + b && !(bx + a == x && j == y) ==> (#[trigger] self.val(
                            bx + a,
                            j,
                        )) != t,
            {
                let i: usize = bx + a;
                let j: usize = by + b;
                if !(i == x && j == y) && self.get(i, j).value == t {
                    assert(self.val(i as int, j as int) == t);
                    return true;
                }
            }
        }
        false
    }

    fn row_dup(&self, x: usize, y: usize) -> (r: bool)
        requires
            self.dims(),
            x < 9,
            y < 9,
        ensures
            r == spec_row_dup(*self, x as int, y as int),
    {
        let t: u8 = self.get(x, y).value;
        for i in 0..9
            invariant
                self.dims(),
                x < 9,
                y < 9,
                t == self.val(x as int, y as int),
                forall|k: int| 0 <= k < i && k != x ==> (#[trigger] self.val(k, y as int)) != t,
        {
            if i != x && self.get(i, y).value == t {
                assert(self.val(i as int, y as int) == t);
                return true;
            }
        }
        false
    }

    fn col_dup(&self, x: usize, y: usize) -> (r: bool)
        requires
            self.dims(),
            x < 9,
            y < 9,
        ensures
            r == spec_col_dup(*self, x as int, y as int),
    {
        let t: u8 = self.get(x, y).value;
        for j in 0..9
            invariant
                self.dims(),
                x < 9,
                y < 9,
                t == self.val(x as int, y as int),
                forall|k: int| 0 <= k < j && k != y ==> (#[trigger] self.val(x as int, k)) != t,
        {
            if j != y && self.get(x, j).value == t {
                assert(self.val(x as int, j as int) == t);
                return true;
            }
        }
        false
    }

    fn row_has(&self, y: usize, v: u8) -> (r: bool)
        requires
            self.dims(),
            y < 9,
        ensures
            r == spec_row_has(*self, y as int, v),
    {
        for i in 0..9
            invariant
                self.dims(),
                y < 9,
                forall|k: int| 0 <= k < i ==> (#[trigger] self.val(k, y as int)) != v,
        {
            if self.get(i, y).value == v {
                assert(self.val(i as int, y as int) == v);
                return true;
            }
        }
        false
    }

    fn col_has(&self, x: usize, v: u8) -> (r: bool)
        requires
            self.dims(),
            x < 9,
        ensures
            r == spec_col_has(*self, x as int, v),
    {
        for j in 0..9
            invariant
                self.dims(),
                x < 9,
                forall|k: int| 0 <= k < j ==> (#[trigger] self.val(x as int, k)) != v,
        {
            if self.get(x, j).value == v {
                assert(self.val(x as int, j as int) == v);
                return true;
            }
        }
        false
    }

    fn block_has(&self, x: usize, y: usize, v: u8) -> (r: bool)
        requires
            self.dims(),
            x < 9,
            y < 9,
        ensures
            r == spec_block_has(*self, x as int, y as int, v),
    {
        let bx: usize = (x / 3) * 3;
        let by: usize = (y / 3) * 3;
        for a in 0..3
            invariant
                self.dims(),
                x < 9,
                y < 9,
                bx == (x as int / 3) * 3,
                by == (y as int / 3) * 3,
                forall|i: int, j: int|
                    bx <= i < bx + a && by <= j < by + 3 ==> (#[trigger] self.val(i, j)) != v,
        {
            for b in 0..3
                invariant
                    self.dims(),
                    x < 9,
                    y < 9,
                    a < 3,
                    bx == (x as int / 3) * 3,
                    by == (y as int / 3) * 3,
                    forall|i: int, j: int|
                        bx <= i < bx + a && by <= j < by + 3 ==> (#[trigger] self.val(i, j)) != v,
                    forall|j: int| by <= j < by + b ==> (#[trigger] self.val(bx + a, j)) != v,
            {
                if self.get(bx + a, by + b).value == v {
                    assert(self.val((bx + a) as int, (by + b) as int) == v);
                    return true;
                }
            }
        }
        false
    }

    fn row_complete(&self, y: usize) -> (r: bool)
        requires
            self.dims(),
            y < 9,
        ensures
            r == spec_row_complete(*self, y as int),
    {
        for v in 1..10u8
            invariant
                self.dims(),
                y < 9,
                forall|w: u8| 1 <= w < v ==> #[trigger] spec_row_has(*self, y as int, w),
        {
            if !self.row_has(y, v) {
                return false;
            }
        }
        true
    }

    fn col_complete(&self, x: usize) -> (r: bool)
        requires
            self.dims(),
            x < 9,
        ensures
            r == spec_col_complete(*self, x as int),
    {
        for v in 1..10u8
            invariant
                self.dims(),
                x < 9,
                forall|w: u8| 1 <= w < v ==> #[trigger] spec_col_has(*self, x as int, w),
        {
            if !self.col_has(x, v) {
                return false;
            }
        }
        true
    }

    fn block_complete(&self, x: usize, y: usize) -> (r: bool)
        requires
            self.dims(),
            x < 9,
            y < 9,
        ensures
            r == spec_block_complete(*self, x as int, y as int),
    {
        for v in 1..10u8
            invariant
                self.dims(),
                x < 9,
                y < 9,
                forall|w: u8| 1 <= w < v ==> #[trigger] spec_block_has(*self, x as int, y as int, w),
        {
            if !self.block_has(x, y, v) {
                return false;
            }
        }
        true
    }

    /// The feedback colour for the cell at `(x, y)`.
    pub fn colour(&self, x: usize, y: usize) -> (c: Colour)
        requires
            self.dims(),
            x < 9,
            y < 9,
        ensures
            c == spec_colour(*self, x as int, y as int),
    {
        let target: u8 = self.get(x, y).value;
        if target == 0 {
            return Colour::Black;
        }
        if self.block_dup(x, y) {
            return Colour::Red;
        }
        if self.row_dup(x, y) {
            return Colour::Red;
        }
        if self.col_dup(x, y) {
            return Colour::Red;
        }
        if self.block_complete(x, y) || self.row_complete(y) || self.col_complete(x) {
            Colour::Green
        } else {
            Colour::Black
        }
    }
}

/// Two cells that share a row, a column or a block and hold the same
/// nonzero digit are both flagged as conflicts.
pub proof fn lemma_duplicate_pair_red(m: SudokuModel, x: int, y: int, i: int, j: int)
    requires
        0 <= x < 9,
        0 <= y < 9,
        0 <= i < 9,
        0 <= j < 9,
        !(i == x && j == y),
        sees(x, y, i, j),
        m.val(i, j) == m.val(x, y),
        m.val(x, y) != 0,
    ensures
        spec_colour(m, x, y) == Colour::Red,
        spec_colour(m, i, j) == Colour::Red,
{
    if j == y {
        assert(spec_row_dup(m, x, y)) by {
            assert(0 <= i < 9 && i != x && m.val(i, y) == m.val(x, y));
        }
        assert(spec_row_dup(m, i, j)) by {
            assert(0 <= x < 9 && x != i && m.val(x, j) == m.val(i, j));
        }
    } else if i == x {
        assert(spec_col_dup(m, x, y)) by {
            assert(0 <= j < 9 && j != y && m.val(x, j) == m.val(x, y));
        }
        assert(spec_col_dup(m, i, j)) by {
            assert(0 <= y < 9 && y != j && m.val(i, y) == m.val(i, j));
        }
    } else {
        assert(spec_block_dup(m, x, y)) by {
            assert(same_block(x, y, i, j) && m.val(i, j) == m.val(x, y));
        }
        assert(spec_block_dup(m, i, j)) by {
            assert(same_block(i, j, x, y) && m.val(x, y) == m.val(i, j));
        }
    }
}

/// The colour of a cell depends only on the values in its own row, column
/// and block: two models that agree on every cell the coordinate sees give
/// it the same colour.
pub proof fn lemma_colour_local(m1: SudokuModel, m2: SudokuModel, x: int, y: int)
    requires
        0 <= x < 9,
        0 <= y < 9,
        forall|i: int, j: int|
            0 <= i < 9 && 0 <= j < 9 && sees(x, y, i, j) ==> (#[trigger] m1.val(i, j)) == m2.val(
                i,
                j,
            ),
    ensures
        spec_colour(m1, x, y) == spec_colour(m2, x, y),
{
    assert(m1.val(x, y) == m2.val(x, y));
    assert(spec_row_dup(m1, x, y) == spec_row_dup(m2, x, y)) by {
        if spec_row_dup(m1, x, y) {
            let i = choose|i: int| 0 <= i < 9 && i != x && (#[trigger] m1.val(i, y)) == m1.val(
                x,
                y,
            );
            assert(m1.val(i, y) == m2.val(i, y));
            assert(spec_row_dup(m2, x, y));
        }
        if spec_row_dup(m2, x, y) {
            let i = choose|i: int| 0 <= i < 9 && i != x && (#[trigger] m2.val(i, y)) == m2.val(
                x,
                y,
            );
            assert(m1.val(i, y) == m2.val(i, y));
            assert(spec_row_dup(m1, x, y));
        }
    }
    assert(spec_col_dup(m1, x, y) == spec_col_dup(m2, x, y)) by {
        if spec_col_dup(m1, x, y) {
            let j = choose|j: int| 0 <= j < 9 && j != y && (#[trigger] m1.val(x, j)) == m1.val(
                x,
                y,
            );
            assert(m1.val(x, j) == m2.val(x, j));
            assert(spec_col_dup(m2, x, y));
        }
        if spec_col_dup(m2, x, y) {
            let j = choose|j: int| 0 <= j < 9 && j != y && (#[trigger] m2.val(x, j)) == m2.val(
                x,
                y,
            );
            assert(m1.val(x, j) == m2.val(x, j));
            assert(spec_col_dup(m1, x, y));
        }
    }
    assert(spec_block_dup(m1, x, y) == spec_block_dup(m2, x, y)) by {
        if spec_block_dup(m1, x, y) {
            let (i, j) = choose|i: int, j: int|
                0 <= i < 9 && 0 <= j < 9 && same_block(x, y, i, j) && !(i == x && j == y) && (
                #[trigger] m1.val(i, j)) == m1.val(x, y);
            assert(m1.val(i, j) == m2.val(i, j));
            assert(spec_block_dup(m2, x, y));
        }
        if spec_block_dup(m2, x, y) {
            let (i, j) = choose|i: int, j: int|
                0 <= i < 9 && 0 <= j < 9 && same_block(x, y, i, j) && !(i == x && j == y) && (
                #[trigger] m2.val(i, j)) == m2.val(x, y);
            assert(m1.val(i, j) == m2.val(i, j));
            assert(spec_block_dup(m1, x, y));
        }
    }
    assert forall|v: u8| spec_row_has(m1, y, v) == spec_row_has(m2, y, v) by {
        if spec_row_has(m1, y, v) {
            let i = choose|i: int| 0 <= i < 9 && (#[trigger] m1.val(i, y)) == v;
            assert(m1.val(i, y) == m2.val(i, y));
            assert(spec_row_has(m2, y, v));
        }
        if spec_row_has(m2, y, v) {
            let i = choose|i: int| 0 <= i < 9 && (#[trigger] m2.val(i, y)) == v;
            assert(m1.val(i, y) == m2.val(i, y));
            assert(spec_row_has(m1, y, v));
        }
    }
    assert forall|v: u8| spec_col_has(m1, x, v) == spec_col_has(m2, x, v) by {
        if spec_col_has(m1, x, v) {
            let j = choose|j: int| 0 <= j < 9 && (#[trigger] m1.val(x, j)) == v;
            assert(m1.val(x, j) == m2.val(x, j));
            assert(spec_col_has(m2, x, v));
        }
        if spec_col_has(m2, x, v) {
            let j = choose|j: int| 0 <= j < 9 && (#[trigger] m2.val(x, j)) == v;
            assert(m1.val(x, j) == m2.val(x, j));
            assert(spec_col_has(m1, x, v));
        }
    }
    assert forall|v: u8| spec_block_has(m1, x, y, v) == spec_block_has(m2, x, y, v) by {
        if spec_block_has(m1, x, y, v) {
            let (i, j) = choose|i: int, j: int|
                0 <= i < 9 && 0 <= j < 9 && same_block(x, y, i, j) && (#[trigger] m1.val(i, j))
                    == v;
            assert(m1.val(i, j) == m2.val(i, j));
            assert(spec_block_has(m2, x, y, v));
        }
        if spec_block_has(m2, x, y, v) {
            let (i, j) = choose|i: int, j: int|
                0 <= i < 9 && 0 <= j < 9 && same_block(x, y, i, j) && (#[trigger] m2.val(i, j))
                    == v;
            assert(m1.val(i, j) == m2.val(i, j));
            assert(spec_block_has(m1, x, y, v));
        }
    }
    assert(spec_row_complete(m1, y) == spec_row_complete(m2, y));
    assert(spec_col_complete(m1, x) == spec_col_complete(m2, x));
    assert(spec_block_complete(m1, x, y) == spec_block_complete(m2, x, y));
}

/// A row that contains every digit 1 to 9 holds no blank cell: the nine
/// distinct digits need nine distinct cells, and the row has only nine.
pub proof fn lemma_complete_row_no_blank(m: SudokuModel, x: int, y: int)
    requires
        0 <= x < 9,
        0 <= y < 9,
        spec_row_complete(m, y),
    ensures
        m.val(x, y) != 0,
{
    broadcast use vstd::set::group_set_axioms;

    if m.val(x, y) == 0 {
        let f = |v: int| choose|i: int| 0 <= i < 9 && (#[trigger] m.val(i, y)) == v as u8;
        let digits = set_int_range(1, 10);
        let cols = digits.map(f);
        lemma_int_range(1, 10);
        lemma_int_range(0, 9);
        assert forall|v: int| digits.contains(v) implies 0 <= #[trigger] f(v) < 9 && m.val(
            f(v),
            y,
        ) == v as u8 by {
            assert(spec_row_has(m, y, v as u8));
        }
        assert(injective_on(f, digits)) by {
            assert forall|v1: int, v2: int|
                digits.contains(v1) && digits.contains(v2) && #[trigger] f(v1) == #[trigger] f(
                    v2,
                ) implies v1 == v2 by {
                assert(m.val(f(v1), y) == v1 as u8);
                assert(m.val(f(v2), y) == v2 as u8);
            }
        }
        lemma_map_size(digits, cols, f);
        let avail = set_int_range(0, 9).remove(x);
        assert(cols.subset_of(avail)) by {
            assert forall|c: int| cols.contains(c) implies avail.contains(c) by {
                let v = choose|v: int| digits.contains(v) && c == f(v);
                assert(m.val(f(v), y) == v as u8);
            }
        }
        lemma_len_subset(cols, avail);
        assert(false);
    }
}

/// A column that contains every digit 1 to 9 holds no blank cell.
pub proof fn lemma_complete_col_no_blank(m: SudokuModel, x: int, y: int)
    requires
        0 <= x < 9,
        0 <= y < 9,
        spec_col_complete(m, x),
    ensures
        m.val(x, y) != 0,
{
    broadcast use vstd::set::group_set_axioms;

    if m.val(x, y) == 0 {
        let f = |v: int| choose|j: int| 0 <= j < 9 && (#[trigger] m.val(x, j)) == v as u8;
        let digits = set_int_range(1, 10);
        let rows = digits.map(f);
        lemma_int_range(1, 10);
        lemma_int_range(0, 9);
        assert forall|v: int| digits.contains(v) implies 0 <= #[trigger] f(v) < 9 && m.val(
            x,
            f(v),
        ) == v as u8 by {
            assert(spec_col_has(m, x, v as u8));
        }
        assert(injective_on(f, digits)) by {
            assert forall|v1: int, v2: int|
                digits.contains(v1) && digits.contains(v2) && #[trigger] f(v1) == #[trigger] f(
                    v2,
                ) implies v1 == v2 by {
                assert(m.val(x, f(v1)) == v1 as u8);
                assert(m.val(x, f(v2)) == v2 as u8);
            }
        }
        lemma_map_size(digits, rows, f);
        let avail = set_int_range(0, 9).remove(y);
        assert(rows.subset_of(avail)) by {
            assert forall|c: int| rows.contains(c) implies avail.contains(c) by {
                let v = choose|v: int| digits.contains(v) && c == f(v);
                assert(m.val(x, f(v)) == v as u8);
            }
        }
        lemma_len_subset(rows, avail);
        assert(false);
    }
}

/// A block that contains every digit 1 to 9 holds no blank cell.
pub proof fn lemma_complete_block_no_blank(m: SudokuModel, x: int, y: int)
    requires
        0 <= x < 9,
        0 <= y < 9,
        spec_block_complete(m, x, y),
    ensures
        m.val(x, y) != 0,
{
    broadcast use vstd::set::group_set_axioms;

    if m.val(x, y) == 0 {
        let bx = (x / 3) * 3;
        let by = (y / 3) * 3;
        let f = |v: int|
            {
                let (i, j) = choose|i: int, j: int|
                    0 <= i < 9 && 0 <= j < 9 && same_block(x, y, i, j) && (#[trigger] m.val(
                        i,
                        j,
                    )) == v as u8;
                (i - bx) * 3 + (j - by)
            };
        let digits = set_int_range(1, 10);
        let locals = digits.map(f);
        lemma_int_range(1, 10);
        lemma_int_range(0, 9);
        assert forall|v: int| digits.contains(v) implies 0 <= #[trigger] f(v) < 9 && m.val(
            bx + f(v) / 3,
            by + f(v) % 3,
        ) == v as u8 by {
            assert(spec_block_has(m, x, y, v as u8));
            let (i, j) = choose|i: int, j: int|
                0 <= i < 9 && 0 <= j < 9 && same_block(x, y, i, j) && (#[trigger] m.val(i, j))
                    == v as u8;
            assert(bx <= i < bx + 3 && by <= j < by + 3);
            assert(f(v) == (i - bx) * 3 + (j - by));
        }
        assert(injective_on(f, digits)) by {
            assert forall|v1: int, v2: int|
                digits.contains(v1) && digits.contains(v2) && #[trigger] f(v1) == #[trigger] f(
                    v2,
                ) implies v1 == v2 by {
                assert(m.val(bx + f(v1) / 3, by + f(v1) % 3) == v1 as u8);
                assert(m.val(bx + f(v2) / 3, by + f(v2) % 3) == v2 as u8);
            }
        }
        lemma_map_size(digits, locals, f);
        let avail = set_int_range(0, 9).remove((x - bx) * 3 + (y - by));
        assert(locals.subset_of(avail)) by {
            assert forall|c: int| locals.contains(c) implies avail.contains(c) by {
                let v = choose|v: int| digits.contains(v) && c == f(v);
                assert(m.val(bx + f(v) / 3, by + f(v) % 3) == v as u8);
                assert(bx + ((x - bx) * 3 + (y - by)) / 3 == x && by + ((x - bx) * 3 + (y - by))
                    % 3 == y);
            }
        }
        lemma_len_subset(locals, avail);
        assert(false);
    }
}

/// Every cell of a fully and validly filled row, column or block is
/// coloured as complete, and no other conflict-free cell is: given the
/// cell takes part in no conflict, its colour is exactly Complete when its
/// row, its column or its block contains every digit 1 to 9, and Neutral
/// otherwise. A blank cell needs no separate case: a line with a blank
/// cell is never complete, as the nine digits would need nine distinct
/// cells besides it.
pub proof fn lemma_complete_line_green(m: SudokuModel, x: int, y: int)
    requires
        0 <= x < 9,
        0 <= y < 9,
        !spec_conflict(m, x, y),
    ensures
        spec_colour(m, x, y) == (if spec_block_complete(m, x, y) || spec_row_complete(m, y)
            || spec_col_complete(m, x) {
            Colour::Green
        } else {
            Colour::Black
        }),
{
    if m.val(x, y) == 0 {
        if spec_row_complete(m, y) {
            lemma_complete_row_no_blank(m, x, y);
        }
        if spec_col_complete(m, x) {
            lemma_complete_col_no_blank(m, x, y);
        }
        if spec_block_complete(m, x, y) {
            lemma_complete_block_no_blank(m, x, y);
        }
    }
}

} // verus!
