//! One cell of the grid: its main number, its two kinds of pencil marks, and
//! whether it was given by the puzzle.

use crate::marks::{
    all_digits, ascending, items, lemma_toggled_ascending, lemma_toggled_digits, marks_as_slice,
    marks_clear, marks_new, toggle, toggled,
};
use sorted_vec::SortedVec;
use vstd::prelude::*;

verus! {

/// What a cell holds, as plain values.
pub struct CellView {
    pub main_number: Option<u8>,
    pub corner_numbers: Seq<u8>,
    pub centre_numbers: Seq<u8>,
    pub is_fixed: bool,
}

impl CellView {
    /// A cell without number or marks, open to the user.
    pub open spec fn empty() -> CellView {
        CellView {
            main_number: None,
            corner_numbers: Seq::empty(),
            centre_numbers: Seq::empty(),
            is_fixed: false,
        }
    }

    /// A cell that the puzzle gives: it shows `digit` and never changes.
    pub open spec fn given(digit: u8) -> CellView {
        CellView {
            main_number: Some(digit),
            corner_numbers: Seq::empty(),
            centre_numbers: Seq::empty(),
            is_fixed: true,
        }
    }

    /// The rules every cell obeys: numbers and marks are digits from 1 to 9,
    /// each kind of mark is ascending without repeats, a cell with a main
    /// number has no marks, and a given cell has a main number.
    pub open spec fn wf(self) -> bool {
        &&& ascending(self.corner_numbers)
        &&& all_digits(self.corner_numbers)
        &&& ascending(self.centre_numbers)
        &&& all_digits(self.centre_numbers)
        &&& self.main_number matches Some(d) ==> 1 <= d <= 9 && self.corner_numbers.len() == 0
            && self.centre_numbers.len() == 0
        &&& self.is_fixed ==> self.main_number is Some
    }

    /// The cell after `digit` was entered as its main number: a given cell
    /// stays as it is; any other cell loses its marks, and its main number
    /// becomes `digit`, or nothing if it was `digit` already.
    pub open spec fn set_main(self, digit: u8) -> CellView {
        if self.is_fixed {
            self
        } else {
            CellView {
                main_number: if self.main_number == Some(digit) {
                    None
                } else {
                    Some(digit)
                },
                corner_numbers: Seq::empty(),
                centre_numbers: Seq::empty(),
                is_fixed: false,
            }
        }
    }

    /// Whether pencil marks can be changed: not on a given cell, and not
    /// while a main number stands in the cell.
    pub open spec fn takes_marks(self) -> bool {
        !self.is_fixed && self.main_number is None
    }

    /// The cell after `digit` was toggled among its corner marks.
    pub open spec fn toggle_corner(self, digit: u8) -> CellView {
        if self.takes_marks() {
            CellView { corner_numbers: toggled(self.corner_numbers, digit), ..self }
        } else {
            self
        }
    }

    /// The cell after `digit` was toggled among its centre marks.
    pub open spec fn toggle_centre(self, digit: u8) -> CellView {
        if self.takes_marks() {
            CellView { centre_numbers: toggled(self.centre_numbers, digit), ..self }
        } else {
            self
        }
    }
}

/// A cell of the grid.
#[derive(Debug)]
pub struct Cell {
    main_number: Option<u8>,
    corner_numbers: SortedVec<u8>,
    centre_numbers: SortedVec<u8>,
    is_fixed: bool,
}

impl View for Cell {
    type V = CellView;

    closed spec fn view(&self) -> CellView {
        CellView {
            main_number: self.main_number,
            corner_numbers: items(self.corner_numbers),
            centre_numbers: items(self.centre_numbers),
            is_fixed: self.is_fixed,
        }
    }
}

impl Cell {
    /// The cell obeys the rules of `CellView::wf`.
    pub open spec fn wf(&self) -> bool {
        self@.wf()
    }

    /// An empty cell that the user may fill.
    pub fn new() -> (cell: Cell)
        ensures
            cell@ == CellView::empty(),
            cell.wf(),
    {
        Cell {
            main_number: None,
            corner_numbers: marks_new(),
            centre_numbers: marks_new(),
            is_fixed: false,
        }
    }

    /// A cell given by the puzzle, showing `digit`.
    pub fn given(digit: u8) -> (cell: Cell)
        requires
            1 <= digit <= 9,
        ensures
            cell@ == CellView::given(digit),
            cell.wf(),
    {
        Cell {
            main_number: Some(digit),
            corner_numbers: marks_new(),
            centre_numbers: marks_new(),
            is_fixed: true,
        }
    }

    /// The main number, if the cell has one.
    pub fn main_number(&self) -> (n: Option<u8>)
        ensures
            n == self@.main_number,
    {
        self.main_number
    }

    /// Whether the puzzle gave this cell.
    pub fn is_fixed(&self) -> (fixed: bool)
        ensures
            fixed == self@.is_fixed,
    {
        self.is_fixed
    }

    /// The corner marks, ascending.
    pub fn corner_numbers(&self) -> (marks: &[u8])
        ensures
            marks@ == self@.corner_numbers,
    {
        marks_as_slice(&self.corner_numbers)
    }

    /// The centre marks, ascending.
    pub fn centre_numbers(&self) -> (marks: &[u8])
        ensures
            marks@ == self@.centre_numbers,
    {
        marks_as_slice(&self.centre_numbers)
    }

    /// Enters `digit` as the main number. Nothing happens to a given cell.
    /// Any other cell loses all its marks; its main number becomes `digit`,
    /// or is cleared if it was `digit` already.
    pub fn set_main(&mut self, digit: u8)
        requires
            old(self).wf(),
            1 <= digit <= 9,
        ensures
            final(self)@ == old(self)@.set_main(digit),
            final(self).wf(),
            !old(self)@.is_fixed ==> final(self)@.corner_numbers.len() == 0
                && final(self)@.centre_numbers.len() == 0,
            old(self)@.is_fixed ==> final(self)@ == old(self)@,
    {
        if self.is_fixed {
            return ;
        }
        marks_clear(&mut self.corner_numbers);
        marks_clear(&mut self.centre_numbers);
        match self.main_number {
            None => {
                self.main_number = Some(digit);
            },
            Some(existing) => {
                if existing == digit {
                    self.main_number = None;
                } else {
                    self.main_number = Some(digit);
                }
            },
        }
    }

    /// Toggles `digit` among the corner marks: removes it if it is there,
    /// puts it in its ascending place if it is not. Nothing happens to a given
    /// cell, nor to a cell that has a main number.
    pub fn toggle_corner(&mut self, digit: u8)
        requires
            old(self).wf(),
            1 <= digit <= 9,
        ensures
            final(self)@ == old(self)@.toggle_corner(digit),
            final(self).wf(),
            !old(self)@.takes_marks() ==> final(self)@ == old(self)@,
    {
        if self.is_fixed || self.main_number.is_some() {
            return ;
        }
        proof {
            lemma_toggled_ascending(self@.corner_numbers, digit);
            lemma_toggled_digits(self@.corner_numbers, digit);
        }
        toggle(&mut self.corner_numbers, digit);
    }

    /// Toggles `digit` among the centre marks: removes it if it is there,
    /// puts it in its ascending place if it is not. Nothing happens to a given
    /// cell, nor to a cell that has a main number.
    pub fn toggle_centre(&mut self, digit: u8)
        requires
            old(self).wf(),
            1 <= digit <= 9,
        ensures
            final(self)@ == old(self)@.toggle_centre(digit),
            final(self).wf(),
            !old(self)@.takes_marks() ==> final(self)@ == old(self)@,
    {
        if self.is_fixed || self.main_number.is_some() {
            return ;
        }
        proof {
            lemma_toggled_ascending(self@.centre_numbers, digit);
            lemma_toggled_digits(self@.centre_numbers, digit);
        }
        toggle(&mut self.centre_numbers, digit);
    }
}

impl Default for Cell {
    fn default() -> (cell: Cell)
        ensures
            cell@ == CellView::empty(),
            cell.wf(),
    {
        Cell::new()
    }
}

} // verus!
