//! Where the grid stands on the terminal: the footprint of the whole grid, the
//! region of each cell, the divider lines between the boxes, and the rows
//! that are left for the mode line and the help panel.

use crate::geometry::Rect;
use ratatui::layout::{Constraint, Direction, Layout};
use vstd::prelude::*;

verus! {

/// Width of one cell in characters.
pub const CELL_WIDTH: u16 = 8;

/// Height of one cell in characters.
pub const CELL_HEIGHT: u16 = 5;

/// Width of the grid: nine cells and two dividers.
pub const GRID_WIDTH: u16 = 74;

/// Height of the grid: nine cells and two dividers.
pub const GRID_HEIGHT: u16 = 47;

/// Height of the line that names the input mode.
pub const MODE_HEIGHT: u16 = 1;

/// Height of the help panel.
pub const HELP_HEIGHT: u16 = 12;

/// The grid's footprint on a terminal `width` characters wide: centred
/// between left and right, an odd rest leaving the smaller margin on the
/// left, and starting in the top row. A terminal that is narrower than the
/// grid shows it from its left edge.
pub open spec fn footprint(width: u16) -> Rect {
    Rect {
        x: if width > GRID_WIDTH {
            ((width - GRID_WIDTH) / 2) as u16
        } else {
            0
        },
        y: 0,
        width: GRID_WIDTH,
        height: GRID_HEIGHT,
    }
}

/// Whether a grid of full size at this place ends within the coordinates
/// that a `u16` can hold.
pub open spec fn has_room(grid: Rect) -> bool {
    grid.x + GRID_WIDTH <= u16::MAX && grid.y + GRID_HEIGHT <= u16::MAX
}

/// The region of the cell in column `x` of row `y` of a grid whose top left
/// corner is that of `grid`. Each divider that lies before the cell moves it
/// by one character.
pub open spec fn cell_region(grid: Rect, x: int, y: int) -> Rect {
    Rect {
        x: (grid.x + x * CELL_WIDTH + x / 3) as u16,
        y: (grid.y + y * CELL_HEIGHT + y / 3) as u16,
        width: CELL_WIDTH,
        height: CELL_HEIGHT,
    }
}

/// Whether the cells of column `x` have a box boundary on their right.
pub open spec fn right_thick(x: int) -> bool {
    x % 3 == 2
}

/// Whether the cells of row `y` have a box boundary below them.
pub open spec fn bottom_thick(y: int) -> bool {
    y % 3 == 2
}

/// The column of divider line `d` (1 or 2) that runs from top to bottom: the
/// free column between box `d` and the box right of it. Three cells and the
/// dividers before them lie in front of each line.
pub open spec fn divider_column(grid: Rect, d: int) -> int {
    grid.x + d * 3 * CELL_WIDTH + (d - 1)
}

/// The row of divider line `d` (1 or 2) that runs from left to right: the
/// free row between box `d` and the box below it.
pub open spec fn divider_row(grid: Rect, d: int) -> int {
    grid.y + d * 3 * CELL_HEIGHT + (d - 1)
}

/// The region of one cell, and whether a box boundary runs along its right
/// and its lower side.
#[derive(Clone, Copy, Debug, PartialEq, Eq, Structural)]
pub struct Placement {
    pub area: Rect,
    pub right_thick: bool,
    pub bottom_thick: bool,
}

/// The placement of the cell in column `x` of row `y` within `grid`.
pub open spec fn placement(grid: Rect, x: int, y: int) -> Placement {
    Placement {
        area: cell_region(grid, x, y),
        right_thick: right_thick(x),
        bottom_thick: bottom_thick(y),
    }
}

/// The grid's footprint on a terminal `width` characters wide.
pub fn grid_area(width: u16) -> (grid: Rect)
    ensures
        grid == footprint(width),
        grid.valid(),
        has_room(grid),
{
    let spare = if width > GRID_WIDTH {
        width - GRID_WIDTH
    } else {
        0
    };
    Rect::new(spare / 2, 0, GRID_WIDTH, GRID_HEIGHT)
}

/// The region of the cell in column `x` of row `y`.
pub fn cell_area(grid: Rect, x: usize, y: usize) -> (area: Rect)
    requires
        has_room(grid),
        x < 9,
        y < 9,
    ensures
        area == cell_region(grid, x as int, y as int),
        area.valid(),
        area.x >= grid.x,
        area.y >= grid.y,
        area.right() <= grid.x + GRID_WIDTH,
        area.bottom() <= grid.y + GRID_HEIGHT,
{
    let column = x as u16;
    let row = y as u16;
    Rect::new(
        grid.x + column * CELL_WIDTH + column / 3,
        grid.y + row * CELL_HEIGHT + row / 3,
        CELL_WIDTH,
        CELL_HEIGHT,
    )
}

/// Whether the cells of column `x` have a box boundary on their right.
pub fn is_right_thick(x: usize) -> (thick: bool)
    ensures
        thick == right_thick(x as int),
{
    x % 3 == 2
}

/// Whether the cells of row `y` have a box boundary below them.
pub fn is_bottom_thick(y: usize) -> (thick: bool)
    ensures
        thick == bottom_thick(y as int),
{
    y % 3 == 2
}

/// The column of divider line `d` that runs from top to bottom.
pub fn divider_x(grid: Rect, d: u16) -> (column: u16)
    requires
        has_room(grid),
        1 <= d <= 2,
    ensures
        column == divider_column(grid, d as int),
        grid.x <= column < grid.x + GRID_WIDTH,
{
    grid.x + d * 3 * CELL_WIDTH + (d - 1)
}

/// The row of divider line `d` that runs from left to right.
pub fn divider_y(grid: Rect, d: u16) -> (row: u16)
    requires
        has_room(grid),
        1 <= d <= 2,
    ensures
        row == divider_row(grid, d as int),
        grid.y <= row < grid.y + GRID_HEIGHT,
{
    grid.y + d * 3 * CELL_HEIGHT + (d - 1)
}

/// Where the cell in column `x` of row `y` stands within `grid`, and which
/// of its sides are box boundaries.
pub fn place_cell(grid: Rect, x: usize, y: usize) -> (placed: Placement)
    requires
        has_room(grid),
        x < 9,
        y < 9,
    ensures
        placed == placement(grid, x as int, y as int),
        placed.area.valid(),
        placed.area.width == CELL_WIDTH,
        placed.area.height == CELL_HEIGHT,
        placed.area.x >= grid.x,
        placed.area.y >= grid.y,
        placed.area.right() <= grid.x + GRID_WIDTH,
        placed.area.bottom() <= grid.y + GRID_HEIGHT,
{
    Placement {
        area: cell_area(grid, x, y),
        right_thick: is_right_thick(x),
        bottom_thick: is_bottom_thick(y),
    }
}

/// Two different cells share no character.
pub proof fn lemma_cells_apart(grid: Rect, x1: int, y1: int, x2: int, y2: int)
    requires
        has_room(grid),
        0 <= x1 < 9 && 0 <= y1 < 9,
        0 <= x2 < 9 && 0 <= y2 < 9,
        x1 != x2 || y1 != y2,
    ensures
        cell_region(grid, x1, y1).disjoint(cell_region(grid, x2, y2)),
{
}

/// The divider lines run between the cells: no cell covers a character of
/// the column of a line from top to bottom, nor of the row of a line from
/// left to right. Each line stands just right of, or just below, the cells
/// whose side towards it is thick.
pub proof fn lemma_dividers_between_cells(grid: Rect, d: int, x: int, y: int)
    requires
        has_room(grid),
        1 <= d <= 2,
        0 <= x < 9 && 0 <= y < 9,
    ensures
        forall|py: int| !cell_region(grid, x, y).covers(divider_column(grid, d), py),
        forall|px: int| !cell_region(grid, x, y).covers(px, divider_row(grid, d)),
        right_thick(x) && x < 8 ==> cell_region(grid, x, y).right() == divider_column(
            grid,
            x / 3 + 1,
        ),
        bottom_thick(y) && y < 8 ==> cell_region(grid, x, y).bottom() == divider_row(
            grid,
            y / 3 + 1,
        ),
{
}

/// `Layout::split` of ratatui, for a layout that stacks three rows from top
/// to bottom: two of fixed height and a last one of at least `rest_min`
/// lines.
///
/// There is one rectangle for each row. Each spans the area from left to
/// right and lies within it from top to bottom: the solver is required to
/// keep every row between the area's ends. Where the area is high enough for
/// all three, the rows stand one below the other from the area's top, the
/// first two as high as asked and the last down to the area's end. This is
/// the one best answer to the constraints that the layout hands to its
/// solver, whose strengths put an empty gap before and between the rows
/// above the fixed heights, and those above the growing of the last row. On
/// a lower area the solver decides, and nothing more is said.
#[verifier::external_body]
fn split_rows(area: Rect, first: u16, second: u16, rest_min: u16) -> (rows: Vec<Rect>)
    requires
        area.valid(),
    ensures
        rows@.len() == 3,
        forall|i: int|
            0 <= i < 3 ==> (#[trigger] rows@[i]).x == area.x && rows@[i].width == area.width,
        forall|i: int|
            0 <= i < 3 ==> area.y <= (#[trigger] rows@[i]).y && rows@[i].bottom()
                <= area.bottom(),
        first + second + rest_min <= area.height ==> rows@[0].y == area.y && rows@[0].height
            == first && rows@[1].y == area.y + first && rows@[1].height == second
            && rows@[2].y == area.y + first + second && rows@[2].bottom() == area.bottom(),
{
    let parts = Layout::default()
        .direction(Direction::Vertical)
        .constraints([
            Constraint::Length(first),
            Constraint::Length(second),
            Constraint::Min(rest_min),
        ])
        .split(ratatui::layout::Rect::new(area.x, area.y, area.width, area.height));
    parts.iter().map(|p| Rect { x: p.x, y: p.y, width: p.width, height: p.height }).collect()
}

/// The rows below the grid: the region of the mode line, and the row in
/// which the help panel begins.
#[derive(Clone, Copy, Debug, PartialEq, Eq, Structural)]
pub struct Rows {
    pub mode_area: Rect,
    pub help_top: u16,
}

impl Rows {
    /// The rows on a terminal that is high enough for grid, mode line and
    /// help panel: the mode line in the row below the grid, the help panel
    /// from the row below the mode line.
    pub open spec fn stacked(width: u16) -> Rows {
        Rows {
            mode_area: Rect { x: 0, y: GRID_HEIGHT, width, height: MODE_HEIGHT },
            help_top: (GRID_HEIGHT + MODE_HEIGHT) as u16,
        }
    }

    /// Whether a terminal of this height has room for grid, mode line and
    /// help panel below each other.
    pub open spec fn has_room_for_all(height: u16) -> bool {
        height >= GRID_HEIGHT + MODE_HEIGHT + HELP_HEIGHT
    }

    /// What holds of the rows on a terminal of the given size: the mode line
    /// spans the terminal from left to right and ends on it, the help panel
    /// begins on it or just below it, and where the terminal has room for
    /// all, the rows are the stacked ones.
    pub open spec fn fit(self, width: u16, height: u16) -> bool {
        &&& self.mode_area.x == 0
        &&& self.mode_area.width == width
        &&& self.mode_area.bottom() <= height
        &&& self.help_top <= height
        &&& Rows::has_room_for_all(height) ==> self == Rows::stacked(width)
    }
}

/// Divides the terminal into the grid's rows, one row for the mode line, and
/// the rest for the help panel, and hands back the last two. On a terminal
/// with room for all three they stand below the grid. On a lower terminal
/// the layout solver decides where they stand.
pub fn screen_rows(width: u16, height: u16) -> (rows: Rows)
    ensures
        rows.fit(width, height),
{
    let screen = Rect::new(0, 0, width, height);
    let parts = split_rows(screen, GRID_HEIGHT, MODE_HEIGHT, HELP_HEIGHT);
    Rows { mode_area: parts[1], help_top: parts[2].y }
}

} // verus!
