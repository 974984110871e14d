//! The puzzle text: up to nine lines of up to nine characters, where a digit
//! from 1 to 9 gives a cell and every other character leaves it empty.

use crate::cell::CellView;
use crate::input::entered_digit;
use vstd::prelude::*;

verus! {

/// The lines of a text. A line ends at a line feed, which belongs to no line;
/// what follows the last line feed is the last line, which may be empty. A
/// carriage return is a character of its line like any other: it is no digit,
/// so it gives no cell.
pub open spec fn lines(text: Seq<char>) -> Seq<Seq<char>>
    decreases text.len(),
{
    if text.len() == 0 {
        seq![Seq::<char>::empty()]
    } else {
        let before = lines(text.drop_last());
        if text.last() == '\n' {
            before.push(Seq::<char>::empty())
        } else {
            before.update(before.len() - 1, before.last().push(text.last()))
        }
    }
}

/// The cell that the text describes in column `x` of line `y`: given, if a
/// digit from 1 to 9 stands there; empty, if anything else stands there or
/// the text has no such line or column.
pub open spec fn loaded_cell(text: Seq<char>, x: int, y: int) -> CellView {
    let rows = lines(text);
    if 0 <= y < rows.len() && 0 <= x < rows[y].len() {
        match entered_digit(rows[y][x]) {
            Some(d) => CellView::given(d),
            None => CellView::empty(),
        }
    } else {
        CellView::empty()
    }
}

/// The nine rows of nine cells that the text describes. Lines and columns
/// beyond the ninth are ignored.
pub open spec fn loaded_grid(text: Seq<char>) -> Seq<Seq<CellView>> {
    Seq::new(9, |y: int| Seq::new(9, |x: int| loaded_cell(text, x, y)))
}

/// A text has at least one line.
pub proof fn lemma_lines_nonempty(text: Seq<char>)
    ensures
        lines(text).len() >= 1,
    decreases text.len(),
{
    if text.len() > 0 {
        lemma_lines_nonempty(text.drop_last());
    }
}

/// The empty text describes the empty grid.
pub proof fn lemma_loaded_nothing()
    ensures
        loaded_grid(Seq::<char>::empty()) == Seq::new(
            9,
            |y: int| Seq::new(9, |x: int| CellView::empty()),
        ),
{
    let text = Seq::<char>::empty();
    assert forall|x: int, y: int| loaded_cell(text, x, y) == CellView::empty() by {}
    assert(loaded_grid(text) =~~= Seq::new(9, |y: int| Seq::new(9, |x: int| CellView::empty())));
}

/// What one more character does to the grid that a text describes. A line
/// feed changes no cell. Any other character stands at the end of the last
/// line and decides the cell there, if that cell lies within the grid; all
/// other cells stay as they were.
pub proof fn lemma_loaded_step(text: Seq<char>, c: char)
    ensures
        lines(text).len() >= 1,
        c == '\n' ==> lines(text.push(c)) == lines(text).push(Seq::<char>::empty()),
        c != '\n' ==> lines(text.push(c)) == lines(text).update(
            lines(text).len() - 1,
            lines(text).last().push(c),
        ),
        forall|x: int, y: int|
            !(c != '\n' && y == lines(text).len() - 1 && x == lines(text).last().len())
                ==> #[trigger] loaded_cell(text.push(c), x, y) == loaded_cell(text, x, y),
        c != '\n' ==> loaded_cell(
            text.push(c),
            lines(text).last().len() as int,
            lines(text).len() - 1,
        ) == match entered_digit(c) {
            Some(d) => CellView::given(d),
            None => CellView::empty(),
        },
{
    lemma_lines_nonempty(text);
    let longer = text.push(c);
    assert(longer.drop_last() == text);
    let last = lines(text).len() - 1;
    if c == '\n' {
        assert forall|x: int, y: int| #[trigger]
            loaded_cell(longer, x, y) == loaded_cell(text, x, y) by {}
    } else {
        assert forall|x: int, y: int| !(y == last && x == lines(text).last().len()) implies
            #[trigger] loaded_cell(longer, x, y) == loaded_cell(text, x, y) by {}
    }
}

} // verus!
