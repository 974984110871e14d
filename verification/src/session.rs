//! The state of one session: the grid, the cursor and the input mode, and how
//! key presses change them.

use crate::cell::{Cell, CellView};
use crate::input::{entered_digit, to_entered_digit, InputMode, Key};
use crate::puzzle::{lemma_loaded_nothing, lemma_loaded_step, lines, loaded_cell, loaded_grid};
use vstd::prelude::*;

verus! {

/// `std::io::Error`, the error type that loading shares with reading a file.
/// Nothing is said of what it holds.
#[verifier::external_type_specification]
#[verifier::external_body]
pub struct ExIoError(std::io::Error);

/// What the session holds, as plain values. `grid[y][x]` is the cell in
/// column `x` of row `y`.
pub struct AppView {
    pub grid: Seq<Seq<CellView>>,
    pub cursor_x: int,
    pub cursor_y: int,
    pub input_mode: InputMode,
}

impl AppView {
    /// A grid of empty cells.
    pub open spec fn empty_grid() -> Seq<Seq<CellView>> {
        Seq::new(9, |y: int| Seq::new(9, |x: int| CellView::empty()))
    }

    /// The state in which a session starts: an empty grid, the cursor in the
    /// top left cell, normal mode.
    pub open spec fn initial() -> AppView {
        AppView {
            grid: AppView::empty_grid(),
            cursor_x: 0,
            cursor_y: 0,
            input_mode: InputMode::Normal,
        }
    }

    /// Nine rows of nine cells that obey the cell rules, and a cursor on one
    /// of them.
    pub open spec fn wf(self) -> bool {
        &&& self.grid.len() == 9
        &&& forall|y: int| 0 <= y < 9 ==> (#[trigger] self.grid[y]).len() == 9
        &&& forall|y: int, x: int| 0 <= y < 9 && 0 <= x < 9 ==> (#[trigger] self.grid[y][x]).wf()
        &&& 0 <= self.cursor_x <= 8
        &&& 0 <= self.cursor_y <= 8
    }

    /// The cell in column `x` of row `y`.
    pub open spec fn cell(self, x: int, y: int) -> CellView {
        self.grid[y][x]
    }

    /// The state with the cell in column `x` of row `y` replaced.
    pub open spec fn with_cell(self, x: int, y: int, cell: CellView) -> AppView {
        AppView { grid: self.grid.update(y, self.grid[y].update(x, cell)), ..self }
    }

    /// The state after `digit` was entered as main number at (`x`, `y`).
    pub open spec fn set_main(self, x: int, y: int, digit: u8) -> AppView {
        self.with_cell(x, y, self.cell(x, y).set_main(digit))
    }

    /// The state after `digit` was toggled among the corner marks at (`x`, `y`).
    pub open spec fn toggle_corner(self, x: int, y: int, digit: u8) -> AppView {
        self.with_cell(x, y, self.cell(x, y).toggle_corner(digit))
    }

    /// The state after `digit` was toggled among the centre marks at (`x`, `y`).
    pub open spec fn toggle_centre(self, x: int, y: int, digit: u8) -> AppView {
        self.with_cell(x, y, self.cell(x, y).toggle_centre(digit))
    }

    /// The state after a digit key: the digit goes to the cell under the
    /// cursor, in the way the input mode says.
    pub open spec fn enter(self, digit: u8) -> AppView {
        match self.input_mode {
            InputMode::Normal => self.set_main(self.cursor_x, self.cursor_y, digit),
            InputMode::Corner => self.toggle_corner(self.cursor_x, self.cursor_y, digit),
            InputMode::Centre => self.toggle_centre(self.cursor_x, self.cursor_y, digit),
        }
    }

    /// The state after one key. An arrow moves the cursor by one cell and
    /// stops at the edge of the grid. `/`, `,` and `.` select normal, corner
    /// and centre mode. A digit from 1 to 9 is entered at the cursor. Every
    /// other key changes nothing.
    pub open spec fn handle_input(self, key: Key) -> AppView {
        match key {
            Key::Left => AppView {
                cursor_x: if self.cursor_x >= 1 {
                    self.cursor_x - 1
                } else {
                    0
                },
                ..self
            },
            Key::Right => AppView {
                cursor_x: if self.cursor_x + 1 <= 8 {
                    self.cursor_x + 1
                } else {
                    8
                },
                ..self
            },
            Key::Up => AppView {
                cursor_y: if self.cursor_y >= 1 {
                    self.cursor_y - 1
                } else {
                    0
                },
                ..self
            },
            Key::Down => AppView {
                cursor_y: if self.cursor_y + 1 <= 8 {
                    self.cursor_y + 1
                } else {
                    8
                },
                ..self
            },
            Key::Char(c) => if c == '/' {
                AppView { input_mode: InputMode::Normal, ..self }
            } else if c == ',' {
                AppView { input_mode: InputMode::Corner, ..self }
            } else if c == '.' {
                AppView { input_mode: InputMode::Centre, ..self }
            } else {
                match entered_digit(c) {
                    Some(digit) => self.enter(digit),
                    None => self,
                }
            },
            Key::Other => self,
        }
    }

    /// The state after a sequence of keys, the first of them first.
    pub open spec fn after(self, keys: Seq<Key>) -> AppView
        decreases keys.len(),
    {
        if keys.len() == 0 {
            self
        } else {
            self.after(keys.drop_last()).handle_input(keys.last())
        }
    }

    /// The key that ends the session.
    pub open spec fn is_quit(key: Key) -> bool {
        key == Key::Char('q')
    }
}

/// What the event loop does after a key press.
#[derive(Clone, Copy, Debug, PartialEq, Eq, Structural)]
pub enum Step {
    /// Draw again and wait for the next key.
    Continue,
    /// End the session.
    Quit,
}

/// One session: the grid, the cursor and the input mode.
pub struct App {
    grid: Vec<Vec<Cell>>,
    cursor_x: usize,
    cursor_y: usize,
    input_mode: InputMode,
}

impl View for App {
    type V = AppView;

    closed spec fn view(&self) -> AppView {
        AppView {
            grid: Seq::new(
                self.grid@.len(),
                |y: int| Seq::new(self.grid@[y]@.len(), |x: int| self.grid@[y]@[x]@),
            ),
            cursor_x: self.cursor_x as int,
            cursor_y: self.cursor_y as int,
            input_mode: self.input_mode,
        }
    }
}

/// A row of nine empty cells.
fn empty_row() -> (row: Vec<Cell>)
    ensures
        row@.len() == 9,
        forall|x: int| 0 <= x < 9 ==> (#[trigger] row@[x])@ == CellView::empty(),
{
    let mut row: Vec<Cell> = Vec::new();
    let mut x: usize = 0;
    while x < 9
        invariant
            x <= 9,
            row@.len() == x,
            forall|i: int| 0 <= i < x ==> (#[trigger] row@[i])@ == CellView::empty(),
        decreases 9 - x,
    {
        row.push(Cell::new());
        x += 1;
    }
    row
}

/// Nine rows of nine empty cells.
fn empty_grid() -> (grid: Vec<Vec<Cell>>)
    ensures
        grid@.len() == 9,
        forall|y: int| 0 <= y < 9 ==> (#[trigger] grid@[y])@.len() == 9,
        forall|y: int, x: int|
            0 <= y < 9 && 0 <= x < 9 ==> (#[trigger] grid@[y]@[x])@ == CellView::empty(),
{
    let mut grid: Vec<Vec<Cell>> = Vec::new();
    let mut y: usize = 0;
    while y < 9
        invariant
            y <= 9,
            grid@.len() == y,
            forall|j: int| 0 <= j < y ==> (#[trigger] grid@[j])@.len() == 9,
            forall|j: int, i: int|
                0 <= j < y && 0 <= i < 9 ==> (#[trigger] grid@[j]@[i])@ == CellView::empty(),
        decreases 9 - y,
    {
        grid.push(empty_row());
        y += 1;
    }
    grid
}

impl App {
    /// The session's state obeys the rules of `AppView::wf`.
    pub open spec fn wf(&self) -> bool {
        self@.wf()
    }

    /// A session with an empty grid, the cursor in the top left cell, in
    /// normal mode.
    pub fn new() -> (app: App)
        ensures
            app@ == AppView::initial(),
            app.wf(),
    {
        let app = App {
            grid: empty_grid(),
            cursor_x: 0,
            cursor_y: 0,
            input_mode: InputMode::Normal,
        };
        assert(app@.grid =~~= AppView::empty_grid());
        app
    }

    /// The column of the cursor.
    pub fn cursor_x(&self) -> (x: usize)
        ensures
            x == self@.cursor_x,
    {
        self.cursor_x
    }

    /// The row of the cursor.
    pub fn cursor_y(&self) -> (y: usize)
        ensures
            y == self@.cursor_y,
    {
        self.cursor_y
    }

    /// The input mode.
    pub fn input_mode(&self) -> (mode: InputMode)
        ensures
            mode == self@.input_mode,
    {
        self.input_mode
    }

    /// The cell in column `x` of row `y`.
    pub fn cell(&self, x: usize, y: usize) -> (cell: &Cell)
        requires
            self.wf(),
            x < 9,
            y < 9,
        ensures
            cell@ == self@.cell(x as int, y as int),
            cell.wf(),
    {
        &self.grid[y][x]
    }

    /// Fills the grid from the puzzle text and leaves cursor and mode alone.
    /// Each of the first nine characters of each of the first nine lines
    /// decides one cell: a digit from 1 to 9 makes it a given cell, anything
    /// else an empty one. Cells for which the text has no character are
    /// empty, whatever the grid held before. No text is refused.
    pub fn load_from_string(&mut self, content: &str) -> (done: Result<(), std::io::Error>)
        requires
            old(self).wf(),
        ensures
            done is Ok,
            final(self)@ == (AppView { grid: loaded_grid(content@), ..old(self)@ }),
            final(self).wf(),
    {
        self.grid = empty_grid();
        let mut x: usize = 0;
        let mut y: usize = 0;
        proof {
            lemma_loaded_nothing();
            assert(content@.take(0) == Seq::<char>::empty());
        }
        for ch in it: content.chars()
            invariant
                it.seq() == content@,
                self.cursor_x == old(self).cursor_x,
                self.cursor_y == old(self).cursor_y,
                self.input_mode == old(self).input_mode,
                self.grid@.len() == 9,
                forall|j: int| 0 <= j < 9 ==> (#[trigger] self.grid@[j])@.len() == 9,
                forall|j: int, i: int|
                    0 <= j < 9 && 0 <= i < 9 ==> (#[trigger] self.grid@[j]@[i])@ == loaded_cell(
                        content@.take(it.index() as int),
                        i,
                        j,
                    ),
                lines(content@.take(it.index() as int)).len() >= 1,
                y <= 9,
                x <= 9,
                y == if lines(content@.take(it.index() as int)).len() - 1 < 9 {
                    lines(content@.take(it.index() as int)).len() - 1
                } else {
                    9
                },
                x == if lines(content@.take(it.index() as int)).last().len() < 9 {
                    lines(content@.take(it.index() as int)).last().len() as int
                } else {
                    9
                },
        {
            proof {
                let read = content@.take(it.index() as int);
                assert(content@.take(it.index() + 1) == read.push(ch));
                lemma_loaded_step(read, ch);
            }
            if ch == '\n' {
                if y < 9 {
                    y += 1;
                }
                x = 0;
            } else {
                if y < 9 && x < 9 {
                    match to_entered_digit(ch) {
                        Some(digit) => {
                            self.grid[y][x] = Cell::given(digit);
                        },
                        None => {},
                    }
                }
                if x < 9 {
                    x += 1;
                }
            }
        }
        proof {
            assert(content@.take(content@.len() as int) == content@);
            assert(self@.grid =~~= loaded_grid(content@));
        }
        Ok(())
    }

    /// Enters `digit` as main number of the cell in column `x` of row `y`.
    pub fn set_main(&mut self, x: usize, y: usize, digit: u8)
        requires
            old(self).wf(),
            x < 9,
            y < 9,
            1 <= digit <= 9,
        ensures
            final(self)@ == old(self)@.set_main(x as int, y as int, digit),
            final(self).wf(),
    {
        self.grid[y][x].set_main(digit);
        assert(self@.grid =~~= old(self)@.set_main(x as int, y as int, digit).grid);
    }

    /// Toggles `digit` among the corner marks of the cell in column `x` of
    /// row `y`.
    pub fn toggle_corner(&mut self, x: usize, y: usize, digit: u8)
        requires
            old(self).wf(),
            x < 9,
            y < 9,
            1 <= digit <= 9,
        ensures
            final(self)@ == old(self)@.toggle_corner(x as int, y as int, digit),
            final(self).wf(),
    {
        self.grid[y][x].toggle_corner(digit);
        assert(self@.grid =~~= old(self)@.toggle_corner(x as int, y as int, digit).grid);
    }

    /// Toggles `digit` among the centre marks of the cell in column `x` of
    /// row `y`.
    pub fn toggle_centre(&mut self, x: usize, y: usize, digit: u8)
        requires
            old(self).wf(),
            x < 9,
            y < 9,
            1 <= digit <= 9,
        ensures
            final(self)@ == old(self)@.toggle_centre(x as int, y as int, digit),
            final(self).wf(),
    {
        self.grid[y][x].toggle_centre(digit);
        assert(self@.grid =~~= old(self)@.toggle_centre(x as int, y as int, digit).grid);
    }

    /// Applies one key to the session: an arrow moves the cursor within the
    /// grid, `/`, `,` and `.` select the input mode, a digit from 1 to 9 is
    /// entered at the cursor in the way the mode says, and any other key is
    /// ignored.
    pub fn handle_input(&mut self, key: Key)
        requires
            old(self).wf(),
        ensures
            final(self)@ == old(self)@.handle_input(key),
            final(self).wf(),
            0 <= final(self)@.cursor_x <= 8,
            0 <= final(self)@.cursor_y <= 8,
    {
        match key {
            Key::Left => {
                self.cursor_x = if self.cursor_x >= 1 {
                    self.cursor_x - 1
                } else {
                    0
                };
            },
            Key::Right => {
                self.cursor_x = if self.cursor_x + 1 <= 8 {
                    self.cursor_x + 1
                } else {
                    8
                };
            },
            Key::Up => {
                self.cursor_y = if self.cursor_y >= 1 {
                    self.cursor_y - 1
                } else {
                    0
                };
            },
            Key::Down => {
                self.cursor_y = if self.cursor_y + 1 <= 8 {
                    self.cursor_y + 1
                } else {
                    8
                };
            },
            Key::Char(c) => {
                if c == '/' {
                    self.input_mode = InputMode::Normal;
                } else if c == ',' {
                    self.input_mode = InputMode::Corner;
                } else if c == '.' {
                    self.input_mode = InputMode::Centre;
                } else {
                    match to_entered_digit(c) {
                        Some(digit) => {
                            let x = self.cursor_x;
                            let y = self.cursor_y;
                            match self.input_mode {
                                InputMode::Normal => self.set_main(x, y, digit),
                                InputMode::Corner => self.toggle_corner(x, y, digit),
                                InputMode::Centre => self.toggle_centre(x, y, digit),
                            }
                        },
                        None => {},
                    }
                }
            },
            Key::Other => {},
        }
    }

    /// Takes one key from the event loop. `q` asks the loop to end the
    /// session and changes nothing; every other key is applied as
    /// `handle_input` says, and the loop goes on.
    pub fn press(&mut self, key: Key) -> (step: Step)
        requires
            old(self).wf(),
        ensures
            final(self).wf(),
            AppView::is_quit(key) ==> step == Step::Quit && final(self)@ == old(self)@,
            !AppView::is_quit(key) ==> step == Step::Continue && final(self)@
                == old(self)@.handle_input(key),
    {
        match key {
            Key::Char(c) => {
                if c == 'q' {
                    return Step::Quit;
                }
            },
            _ => {},
        }
        self.handle_input(key);
        Step::Continue
    }
}

} // verus!
