//! The drawing plan of one whole frame: divider lines, the 81 cells, the mode
//! line and the help panel, each cut to what the terminal shows.

use crate::geometry::Rect;
use crate::input::InputMode;
use crate::layout::{
    divider_column, divider_row, divider_x, divider_y, footprint, grid_area, has_room,
    place_cell, placement, screen_rows, Rows, GRID_HEIGHT, GRID_WIDTH, HELP_HEIGHT,
};
use crate::render::{
    block, cell_ops, draw_cell, lemma_views_push, views, Color, DrawOp, DrawOpView, Edges, Paint,
};
use crate::session::{App, AppView};
use vstd::prelude::*;

verus! {

/// One character of a divider line that runs from left to right. The
/// characters are numbered along the first line, then along the second.
pub open spec fn horizontal_divider(grid: Rect, k: int) -> DrawOpView {
    block(
        Rect {
            x: (grid.x + k % (GRID_WIDTH as int)) as u16,
            y: divider_row(grid, k / (GRID_WIDTH as int) + 1) as u16,
            width: 1,
            height: 1,
        },
        Edges::Top,
        Some(Color::White),
        None,
    )
}

/// One character of a divider line that runs from top to bottom. The
/// characters are numbered down the first line, then down the second.
pub open spec fn vertical_divider(grid: Rect, k: int) -> DrawOpView {
    block(
        Rect {
            x: divider_column(grid, k / (GRID_HEIGHT as int) + 1) as u16,
            y: (grid.y + k % (GRID_HEIGHT as int)) as u16,
            width: 1,
            height: 1,
        },
        Edges::Left,
        Some(Color::White),
        None,
    )
}

/// The first `n` characters of the divider lines from left to right.
pub open spec fn horizontal_dividers(grid: Rect, n: int) -> Seq<DrawOpView> {
    Seq::new(n as nat, |k: int| horizontal_divider(grid, k))
}

/// The first `n` characters of the divider lines from top to bottom.
pub open spec fn vertical_dividers(grid: Rect, n: int) -> Seq<DrawOpView> {
    Seq::new(n as nat, |k: int| vertical_divider(grid, k))
}

/// The divider lines, character by character: the two from left to right
/// across the grid's width, then the two from top to bottom over its height.
pub open spec fn dividers(grid: Rect) -> Seq<DrawOpView> {
    horizontal_dividers(grid, 2 * GRID_WIDTH) + vertical_dividers(grid, 2 * GRID_HEIGHT)
}

/// The instructions for cell number `k`, counting along the rows from the
/// top left: the cell's content in its region, highlighted if the cursor is
/// on it, with the box boundaries of its column and row.
pub open spec fn numbered_cell_ops(app: AppView, grid: Rect, k: int) -> Seq<DrawOpView> {
    let x = k % 9;
    let y = k / 9;
    let placed = placement(grid, x, y);
    cell_ops(
        app.cell(x, y),
        placed.area,
        x == app.cursor_x && y == app.cursor_y,
        placed.right_thick,
        placed.bottom_thick,
    )
}

/// The instructions for the first `n` cells, row after row.
pub open spec fn grid_ops(app: AppView, grid: Rect, n: int) -> Seq<DrawOpView>
    decreases n,
{
    if n <= 0 {
        Seq::empty()
    } else {
        grid_ops(app, grid, n - 1) + numbered_cell_ops(app, grid, n - 1)
    }
}

/// The line that names the input mode, in white.
pub open spec fn mode_op(area: Rect, mode: InputMode) -> DrawOpView {
    DrawOpView {
        area: Rect::clamped(area.x, area.y, area.width, area.height),
        paint: Paint::ModeLine(mode),
        fg: Some(Color::White),
        bg: None,
        digits: Seq::empty(),
    }
}

/// The help panel: as wide as the grid and below it, from row `top` on.
pub open spec fn help_op(grid: Rect, top: u16) -> DrawOpView {
    DrawOpView {
        area: Rect::clamped(grid.x, top, GRID_WIDTH, HELP_HEIGHT),
        paint: Paint::HelpPanel,
        fg: None,
        bg: None,
        digits: Seq::empty(),
    }
}

/// Everything that is drawn for one frame, in drawing order and before it is
/// cut to the terminal: the divider lines, the cells, the mode line and the
/// help panel.
pub open spec fn full_plan(width: u16, rows: Rows, app: AppView) -> Seq<DrawOpView> {
    let grid = footprint(width);
    dividers(grid) + grid_ops(app, grid, 81) + seq![
        mode_op(rows.mode_area, app.input_mode),
        help_op(grid, rows.help_top),
    ]
}

/// The terminal as a rectangle.
pub open spec fn screen(width: u16, height: u16) -> Rect {
    Rect { x: 0, y: 0, width, height }
}

/// The list with every region cut to the part that lies on `screen`.
pub open spec fn clipped(ops: Seq<DrawOpView>, screen: Rect) -> Seq<DrawOpView> {
    Seq::new(ops.len(), |i: int| DrawOpView { area: ops[i].area.common(screen), ..ops[i] })
}

/// Cuts the region of every instruction to the part that lies on `screen`.
pub fn clip_to(ops: &mut Vec<DrawOp>, screen: Rect)
    requires
        screen.valid(),
        forall|i: int| 0 <= i < old(ops)@.len() ==> (#[trigger] old(ops)@[i]).area.valid(),
    ensures
        views(final(ops)@) == clipped(views(old(ops)@), screen),
        forall|i: int|
            0 <= i < final(ops)@.len() ==> (#[trigger] final(ops)@[i]).area.within(screen),
{
    let mut i: usize = 0;
    while i < ops.len()
        invariant
            screen.valid(),
            i <= ops@.len(),
            ops@.len() == old(ops)@.len(),
            forall|k: int| 0 <= k < old(ops)@.len() ==> (#[trigger] old(ops)@[k]).area.valid(),
            forall|k: int|
                0 <= k < i ==> (#[trigger] ops@[k])@ == clipped(views(old(ops)@), screen)[k],
            forall|k: int| 0 <= k < i ==> (#[trigger] ops@[k]).area.within(screen),
            forall|k: int| i <= k < ops@.len() ==> (#[trigger] ops@[k]) == old(ops)@[k],
        decreases ops@.len() - i,
    {
        let cut = ops[i].area.intersection(screen);
        ops[i].area = cut;
        i += 1;
    }
}

/// The views of two lists put together.
pub proof fn lemma_views_add(front: Seq<DrawOp>, back: Seq<DrawOp>)
    ensures
        views(front + back) == views(front) + views(back),
{
    assert(views(front + back) =~= views(front) + views(back));
}

/// Appends the divider lines of a grid to `ops`.
fn push_dividers(ops: &mut Vec<DrawOp>, grid: Rect)
    requires
        has_room(grid),
        old(ops)@.len() == 0,
    ensures
        views(final(ops)@) == dividers(grid),
        forall|i: int| 0 <= i < final(ops)@.len() ==> (#[trigger] final(ops)@[i]).area.valid(),
{
    let mut d: u16 = 1;
    while d <= 2
        invariant
            has_room(grid),
            1 <= d <= 3,
            views(ops@) =~= horizontal_dividers(grid, (d - 1) * GRID_WIDTH),
            forall|i: int| 0 <= i < ops@.len() ==> (#[trigger] ops@[i]).area.valid(),
        decreases 3 - d,
    {
        let y_pos = divider_y(grid, d);
        let mut x: u16 = 0;
        while x < GRID_WIDTH
            invariant
                has_room(grid),
                1 <= d <= 2,
                x <= GRID_WIDTH,
                y_pos == divider_row(grid, d as int),
                views(ops@) =~= horizontal_dividers(grid, (d - 1) * GRID_WIDTH + x),
                forall|i: int| 0 <= i < ops@.len() ==> (#[trigger] ops@[i]).area.valid(),
            decreases GRID_WIDTH - x,
        {
            let op = DrawOp::block(
                Rect::new(grid.x + x, y_pos, 1, 1),
                Edges::Top,
                Some(Color::White),
                None,
            );
            proof {
                let k = (d - 1) * GRID_WIDTH + x;
                assert(k % (GRID_WIDTH as int) == x && k / (GRID_WIDTH as int) == d - 1);
                lemma_views_push(ops@, op);
            }
            ops.push(op);
            x += 1;
        }
        d += 1;
    }
    let ghost across = views(ops@);
    let mut d: u16 = 1;
    while d <= 2
        invariant
            has_room(grid),
            1 <= d <= 3,
            across == horizontal_dividers(grid, 2 * GRID_WIDTH),
            views(ops@) =~= across + vertical_dividers(grid, (d - 1) * GRID_HEIGHT),
            forall|i: int| 0 <= i < ops@.len() ==> (#[trigger] ops@[i]).area.valid(),
        decreases 3 - d,
    {
        let x_pos = divider_x(grid, d);
        let mut y: u16 = 0;
        while y < GRID_HEIGHT
            invariant
                has_room(grid),
                1 <= d <= 2,
                y <= GRID_HEIGHT,
                x_pos == divider_column(grid, d as int),
                across == horizontal_dividers(grid, 2 * GRID_WIDTH),
                views(ops@) =~= across + vertical_dividers(grid, (d - 1) * GRID_HEIGHT + y),
                forall|i: int| 0 <= i < ops@.len() ==> (#[trigger] ops@[i]).area.valid(),
            decreases GRID_HEIGHT - y,
        {
            let op = DrawOp::block(
                Rect::new(x_pos, grid.y + y, 1, 1),
                Edges::Left,
                Some(Color::White),
                None,
            );
            proof {
                let k = (d - 1) * GRID_HEIGHT + y;
                assert(k % (GRID_HEIGHT as int) == y && k / (GRID_HEIGHT as int) == d - 1);
                lemma_views_push(ops@, op);
            }
            ops.push(op);
            y += 1;
        }
        d += 1;
    }
}

/// Appends the instructions for all cells of the grid to `ops`.
fn push_cells(ops: &mut Vec<DrawOp>, grid: Rect, app: &App)
    requires
        has_room(grid),
        app.wf(),
        forall|i: int| 0 <= i < old(ops)@.len() ==> (#[trigger] old(ops)@[i]).area.valid(),
    ensures
        views(final(ops)@) == views(old(ops)@) + grid_ops(app@, grid, 81),
        forall|i: int| 0 <= i < final(ops)@.len() ==> (#[trigger] final(ops)@[i]).area.valid(),
{
    let ghost before = views(ops@);
    let mut y: usize = 0;
    while y < 9
        invariant
            has_room(grid),
            app.wf(),
            y <= 9,
            views(ops@) =~= before + grid_ops(app@, grid, y * 9),
            forall|i: int| 0 <= i < ops@.len() ==> (#[trigger] ops@[i]).area.valid(),
        decreases 9 - y,
    {
        let mut x: usize = 0;
        while x < 9
            invariant
                has_room(grid),
                app.wf(),
                y < 9,
                x <= 9,
                views(ops@) =~= before + grid_ops(app@, grid, y * 9 + x),
                forall|i: int| 0 <= i < ops@.len() ==> (#[trigger] ops@[i]).area.valid(),
            decreases 9 - x,
        {
            let placed = place_cell(grid, x, y);
            let mut cell_list = draw_cell(
                app.cell(x, y),
                placed.area,
                x == app.cursor_x() && y == app.cursor_y(),
                placed.right_thick,
                placed.bottom_thick,
            );
            proof {
                let k = y * 9 + x;
                assert(k % 9 == x && k / 9 == y);
                lemma_views_add(ops@, cell_list@);
            }
            ops.append(&mut cell_list);
            x += 1;
        }
        y += 1;
    }
}

/// The drawing plan of one frame on a terminal of the given size, with the
/// mode line and the help panel in the given rows.
///
/// In drawing order: the divider lines, the 81 cells row after row as
/// `draw_cell` draws them, the cell under the cursor highlighted, then the
/// mode line and the help panel. The grid stands at `footprint(width)`. Every
/// region is cut to the part of it that the terminal shows.
pub fn compose(width: u16, height: u16, rows: Rows, app: &App) -> (plan: Vec<DrawOp>)
    requires
        app.wf(),
    ensures
        views(plan@) == clipped(full_plan(width, rows, app@), screen(width, height)),
        forall|i: int|
            0 <= i < plan@.len() ==> (#[trigger] plan@[i]).area.within(screen(width, height)),
{
    let grid = grid_area(width);
    let mut plan: Vec<DrawOp> = Vec::new();
    push_dividers(&mut plan, grid);
    push_cells(&mut plan, grid, app);
    let mode = DrawOp {
        area: Rect::new(
            rows.mode_area.x,
            rows.mode_area.y,
            rows.mode_area.width,
            rows.mode_area.height,
        ),
        paint: Paint::ModeLine(app.input_mode()),
        fg: Some(Color::White),
        bg: None,
        digits: Vec::new(),
    };
    let help = DrawOp {
        area: Rect::new(grid.x, rows.help_top, GRID_WIDTH, HELP_HEIGHT),
        paint: Paint::HelpPanel,
        fg: None,
        bg: None,
        digits: Vec::new(),
    };
    proof {
        lemma_views_push(plan@, mode);
        lemma_views_push(plan@.push(mode), help);
    }
    plan.push(mode);
    plan.push(help);
    clip_to(&mut plan, Rect::new(0, 0, width, height));
    plan
}

/// The drawing plan of one frame on a terminal of the given size.
///
/// On a terminal with room for grid, mode line and help panel below each
/// other, the plan is what `compose` makes of the stacked rows. On a lower
/// terminal the rows for the mode line and the help panel are those that the
/// layout solver hands out, and the plan is what `compose` makes of them.
pub fn ui(width: u16, height: u16, app: &App) -> (plan: Vec<DrawOp>)
    requires
        app.wf(),
    ensures
        exists|rows: Rows|
            rows.fit(width, height) && views(plan@) == clipped(
                full_plan(width, rows, app@),
                screen(width, height),
            ),
        Rows::has_room_for_all(height) ==> views(plan@) == clipped(
            full_plan(width, Rows::stacked(width), app@),
            screen(width, height),
        ),
        forall|i: int|
            0 <= i < plan@.len() ==> (#[trigger] plan@[i]).area.within(screen(width, height)),
{
    let rows = screen_rows(width, height);
    compose(width, height, rows, app)
}

} // verus!
