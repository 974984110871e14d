//! What is drawn: the instructions for one cell, and for one whole frame. An
//! instruction names a region, what is painted there and in which colours;
//! painting it is left to the program that owns the terminal.

use crate::cell::{Cell, CellView};
use crate::geometry::{centred, centred_rect, Rect};
use crate::input::InputMode;
use crate::marks::lemma_at_most_nine;
use vstd::prelude::*;

verus! {

/// The colours of the grid.
#[derive(Clone, Copy, Debug, PartialEq, Eq, Structural)]
pub enum Color {
    Black,
    DarkGray,
    Green,
    White,
    Yellow,
    Blue,
}

/// The sides of a region along which a block draws its border.
#[derive(Clone, Copy, Debug, PartialEq, Eq, Structural)]
pub enum Edges {
    All,
    Top,
    Left,
}

/// What an instruction paints into its region.
#[derive(Clone, Copy, Debug, PartialEq, Eq, Structural)]
pub enum Paint {
    /// A block: the region takes the instruction's colours, and a border is
    /// drawn along the given sides.
    Block(Edges),
    /// The instruction's digits, written from the region's top left corner.
    Digits,
    /// The line that names the input mode, centred in the region.
    ModeLine(InputMode),
    /// The help panel with its frame and title.
    HelpPanel,
}

/// One drawing instruction.
#[derive(Debug, PartialEq, Eq)]
pub struct DrawOp {
    /// The region that is painted.
    pub area: Rect,
    pub paint: Paint,
    /// The colour of what is written or drawn; `None` leaves it as it is.
    pub fg: Option<Color>,
    /// The colour behind it; `None` leaves it as it is.
    pub bg: Option<Color>,
    /// The digits to write, for `Paint::Digits`; empty otherwise.
    pub digits: Vec<u8>,
}

/// A drawing instruction as plain values.
pub struct DrawOpView {
    pub area: Rect,
    pub paint: Paint,
    pub fg: Option<Color>,
    pub bg: Option<Color>,
    pub digits: Seq<u8>,
}

impl View for DrawOp {
    type V = DrawOpView;

    open spec fn view(&self) -> DrawOpView {
        DrawOpView {
            area: self.area,
            paint: self.paint,
            fg: self.fg,
            bg: self.bg,
            digits: self.digits@,
        }
    }
}

impl Clone for DrawOp {
    fn clone(&self) -> (op: DrawOp)
        ensures
            op@ == self@,
    {
        DrawOp {
            area: self.area,
            paint: self.paint,
            fg: self.fg,
            bg: self.bg,
            digits: self.digits.clone(),
        }
    }
}

/// The instructions of a list, as plain values.
pub open spec fn views(ops: Seq<DrawOp>) -> Seq<DrawOpView> {
    ops.map_values(|op: DrawOp| op@)
}

/// The instruction for a block.
pub open spec fn block(area: Rect, edges: Edges, fg: Option<Color>, bg: Option<Color>)
    -> DrawOpView {
    DrawOpView { area, paint: Paint::Block(edges), fg, bg, digits: Seq::empty() }
}

/// The instruction that writes `digits` in one colour.
pub open spec fn glyphs(area: Rect, digits: Seq<u8>, fg: Color) -> DrawOpView {
    DrawOpView { area, paint: Paint::Digits, fg: Some(fg), bg: None, digits }
}

/// The block behind a cell: bordered on all sides, highlighted if the cursor
/// is on the cell.
pub open spec fn background(area: Rect, is_selected: bool) -> DrawOpView {
    block(
        area,
        Edges::All,
        None,
        Some(
            if is_selected {
                Color::DarkGray
            } else {
                Color::Black
            },
        ),
    )
}

/// The place of corner mark `i` in a cell: inside the border, clockwise from
/// the top left corner.
pub open spec fn corner_spot(area: Rect, i: int) -> Rect {
    let left = (area.x + 1) as u16;
    let right = (area.x + area.width - 2) as u16;
    let top = (area.y + 1) as u16;
    let bottom = (area.y + area.height - 2) as u16;
    if i == 0 {
        Rect { x: left, y: top, width: 1, height: 1 }
    } else if i == 1 {
        Rect { x: right, y: top, width: 1, height: 1 }
    } else if i == 2 {
        Rect { x: right, y: bottom, width: 1, height: 1 }
    } else {
        Rect { x: left, y: bottom, width: 1, height: 1 }
    }
}

/// Whether a region has the four places for corner marks: it is two
/// characters wide and two high at least.
pub open spec fn has_corners(area: Rect) -> bool {
    area.width >= 2 && area.height >= 2
}

/// How many corner marks are shown: the four smallest at most, and none in a
/// region that has no place for them.
pub open spec fn shown_corners(area: Rect, marks: Seq<u8>) -> nat {
    if !has_corners(area) {
        0
    } else if marks.len() < 4 {
        marks.len()
    } else {
        4
    }
}

/// The corner marks of a cell: the `i`-th smallest in the `i`-th corner.
pub open spec fn corner_ops(area: Rect, marks: Seq<u8>) -> Seq<DrawOpView> {
    Seq::new(
        shown_corners(area, marks),
        |i: int| glyphs(corner_spot(area, i), seq![marks[i]], Color::Yellow),
    )
}

/// The centre marks of a cell: all of them, ascending, as one run in the
/// middle of the cell; nothing if there are none.
pub open spec fn centre_ops(area: Rect, marks: Seq<u8>) -> Seq<DrawOpView> {
    if marks.len() == 0 {
        Seq::empty()
    } else {
        seq![glyphs(centred(marks.len() as u16, 1, area), marks, Color::Blue)]
    }
}

/// What stands in a cell: its main number in the middle, green if the puzzle
/// gave it and white if the user entered it; or, without a main number, its
/// corner marks and then its centre marks.
pub open spec fn content_ops(cell: CellView, area: Rect) -> Seq<DrawOpView> {
    match cell.main_number {
        Some(n) => seq![
            glyphs(
                centred(1, 1, area),
                seq![n],
                if cell.is_fixed {
                    Color::Green
                } else {
                    Color::White
                },
            ),
        ],
        None => corner_ops(area, cell.corner_numbers) + centre_ops(area, cell.centre_numbers),
    }
}

/// The line right of a cell, one character wide and as high as the cell.
pub open spec fn right_line(area: Rect) -> DrawOpView {
    block(
        Rect::clamped(area.right() as u16, area.y, 1, area.height),
        Edges::Left,
        Some(Color::White),
        None,
    )
}

/// The line below a cell, one character high and as wide as the cell.
pub open spec fn bottom_line(area: Rect) -> DrawOpView {
    block(
        Rect::clamped(area.x, area.bottom() as u16, area.width, 1),
        Edges::Top,
        Some(Color::White),
        None,
    )
}

/// The box boundaries of a cell: the line on its right, then the line below.
pub open spec fn thick_ops(area: Rect, is_right_thick: bool, is_bottom_thick: bool) -> Seq<
    DrawOpView,
> {
    (if is_right_thick {
        seq![right_line(area)]
    } else {
        Seq::empty()
    }) + (if is_bottom_thick {
        seq![bottom_line(area)]
    } else {
        Seq::empty()
    })
}

/// All instructions for one cell, in drawing order: background, content,
/// box boundaries.
pub open spec fn cell_ops(
    cell: CellView,
    area: Rect,
    is_selected: bool,
    is_right_thick: bool,
    is_bottom_thick: bool,
) -> Seq<DrawOpView> {
    seq![background(area, is_selected)] + content_ops(cell, area) + thick_ops(
        area,
        is_right_thick,
        is_bottom_thick,
    )
}

/// The views of a list that got one more instruction.
pub proof fn lemma_views_push(ops: Seq<DrawOp>, op: DrawOp)
    ensures
        views(ops.push(op)) == views(ops).push(op@),
{
    assert(views(ops.push(op)) =~= views(ops).push(op@));
}

impl DrawOp {
    /// An instruction for a block.
    pub fn block(area: Rect, edges: Edges, fg: Option<Color>, bg: Option<Color>) -> (op: DrawOp)
        ensures
            op@ == block(area, edges, fg, bg),
    {
        DrawOp { area, paint: Paint::Block(edges), fg, bg, digits: Vec::new() }
    }

    /// An instruction that writes one digit.
    pub fn digit(area: Rect, digit: u8, fg: Color) -> (op: DrawOp)
        ensures
            op@ == glyphs(area, seq![digit], fg),
    {
        let mut digits: Vec<u8> = Vec::new();
        digits.push(digit);
        DrawOp { area, paint: Paint::Digits, fg: Some(fg), bg: None, digits }
    }

    /// An instruction that writes a run of digits.
    pub fn digits(area: Rect, run: &[u8], fg: Color) -> (op: DrawOp)
        ensures
            op@ == glyphs(area, run@, fg),
    {
        let mut digits: Vec<u8> = Vec::new();
        let mut i: usize = 0;
        while i < run.len()
            invariant
                i <= run@.len(),
                digits@ == run@.take(i as int),
            decreases run@.len() - i,
        {
            digits.push(run[i]);
            i += 1;
        }
        assert(run@.take(run@.len() as int) == run@);
        DrawOp { area, paint: Paint::Digits, fg: Some(fg), bg: None, digits }
    }
}

/// The drawing instructions for one cell in the region `area`.
///
/// First the background, a bordered block that is dark gray under the cursor
/// and black elsewhere. Then the content: a main number is written in the
/// middle of the cell, green if the puzzle gave it, white if not, and nothing
/// else; without a main number the four smallest corner marks go to the
/// corners, clockwise from the top left, in yellow, and all centre marks are
/// written in blue as one run in the middle. Last the box boundaries: a white
/// line right of the cell and one below it, where the flags ask for them.
///
/// A region of any size is drawn. One that is less than two characters wide
/// or high has no corners, and gets no corner marks.
pub fn draw_cell(
    cell: &Cell,
    area: Rect,
    is_selected: bool,
    is_right_thick: bool,
    is_bottom_thick: bool,
) -> (ops: Vec<DrawOp>)
    requires
        cell.wf(),
        area.valid(),
    ensures
        views(ops@) == cell_ops(cell@, area, is_selected, is_right_thick, is_bottom_thick),
        forall|i: int| 0 <= i < ops@.len() ==> (#[trigger] ops@[i]).area.valid(),
{
    let mut ops: Vec<DrawOp> = Vec::new();
    ops.push(
        DrawOp::block(
            area,
            Edges::All,
            None,
            Some(
                if is_selected {
                    Color::DarkGray
                } else {
                    Color::Black
                },
            ),
        ),
    );
    match cell.main_number() {
        Some(n) => {
            let fg = if cell.is_fixed() {
                Color::Green
            } else {
                Color::White
            };
            ops.push(DrawOp::digit(centred_rect(1, 1, area), n, fg));
        },
        None => {
            if area.width >= 2 && area.height >= 2 {
                let corners = cell.corner_numbers();
                let left = area.x + 1;
                let right = area.x + area.width - 2;
                let top = area.y + 1;
                let bottom = area.y + area.height - 2;
                let mut i: usize = 0;
                while i < corners.len() && i < 4
                    invariant
                        i <= 4,
                        i <= corners@.len(),
                        corners@ == cell@.corner_numbers,
                        area.valid(),
                        has_corners(area),
                        left == area.x + 1,
                        right == area.x + area.width - 2,
                        top == area.y + 1,
                        bottom == area.y + area.height - 2,
                        ops@.len() == 1 + i,
                        views(ops@) =~= seq![background(area, is_selected)] + Seq::new(
                            i as nat,
                            |k: int|
                                glyphs(corner_spot(area, k), seq![corners@[k]], Color::Yellow),
                        ),
                        forall|k: int| 0 <= k < ops@.len() ==> (#[trigger] ops@[k]).area.valid(),
                    decreases 4 - i,
                {
                    let spot = if i == 0 {
                        Rect::new(left, top, 1, 1)
                    } else if i == 1 {
                        Rect::new(right, top, 1, 1)
                    } else if i == 2 {
                        Rect::new(right, bottom, 1, 1)
                    } else {
                        Rect::new(left, bottom, 1, 1)
                    };
                    let op = DrawOp::digit(spot, corners[i], Color::Yellow);
                    proof {
                        lemma_views_push(ops@, op);
                    }
                    ops.push(op);
                    i += 1;
                }
            }
            assert(views(ops@) =~= seq![background(area, is_selected)] + corner_ops(
                area,
                cell@.corner_numbers,
            ));
            let centres = cell.centre_numbers();
            if centres.len() > 0 {
                proof {
                    lemma_at_most_nine(centres@);
                }
                let run_width = centres.len() as u16;
                let op = DrawOp::digits(centred_rect(run_width, 1, area), centres, Color::Blue);
                proof {
                    lemma_views_push(ops@, op);
                }
                ops.push(op);
            }
        },
    }
    let ghost with_content = views(ops@);
    if is_right_thick {
        ops.push(
            DrawOp::block(
                Rect::new(area.x + area.width, area.y, 1, area.height),
                Edges::Left,
                Some(Color::White),
                None,
            ),
        );
    }
    if is_bottom_thick {
        ops.push(
            DrawOp::block(
                Rect::new(area.x, area.y + area.height, area.width, 1),
                Edges::Top,
                Some(Color::White),
                None,
            ),
        );
    }
    assert(views(ops@) =~= with_content + thick_ops(area, is_right_thick, is_bottom_thick));
    ops
}

} // verus!
