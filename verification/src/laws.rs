//! What holds of cells and sessions whatever the user types.

use crate::cell::CellView;
use crate::input::{entered_digit, InputMode, Key};
use crate::marks::{lemma_toggled_ascending, lemma_toggled_digits, lemma_toggled_twice};
use crate::session::AppView;
use vstd::prelude::*;

verus! {

/// Each operation on a cell keeps the cell rules.
pub proof fn lemma_cell_rules_kept(cell: CellView, digit: u8)
    requires
        cell.wf(),
        1 <= digit <= 9,
    ensures
        cell.set_main(digit).wf(),
        cell.toggle_corner(digit).wf(),
        cell.toggle_centre(digit).wf(),
{
    lemma_toggled_ascending(cell.corner_numbers, digit);
    lemma_toggled_digits(cell.corner_numbers, digit);
    lemma_toggled_ascending(cell.centre_numbers, digit);
    lemma_toggled_digits(cell.centre_numbers, digit);
}

/// Entering a main number into a cell that the puzzle did not give leaves
/// the cell without pencil marks of either kind, whatever marks it had.
pub proof fn lemma_main_clears_marks(cell: CellView, digit: u8)
    requires
        !cell.is_fixed,
    ensures
        cell.set_main(digit).corner_numbers.len() == 0,
        cell.set_main(digit).centre_numbers.len() == 0,
{
}

/// Entering the same main number twice into a cell that the puzzle did not
/// give, and that did not show this number, leaves the cell without a main
/// number. A cell that was empty is empty again.
pub proof fn lemma_main_twice(cell: CellView, digit: u8)
    requires
        !cell.is_fixed,
        cell.main_number != Some(digit),
    ensures
        cell.set_main(digit).set_main(digit).main_number is None,
        cell == CellView::empty() ==> cell.set_main(digit).set_main(digit) == cell,
{
}

/// Toggling the same digit twice among the corner marks, or among the centre
/// marks, gives back the cell one started with.
pub proof fn lemma_marks_twice(cell: CellView, digit: u8)
    requires
        cell.wf(),
    ensures
        cell.toggle_corner(digit).toggle_corner(digit) == cell,
        cell.toggle_centre(digit).toggle_centre(digit) == cell,
{
    lemma_toggled_twice(cell.corner_numbers, digit);
    lemma_toggled_twice(cell.centre_numbers, digit);
}

/// A cell that the puzzle gave is changed by no operation.
pub proof fn lemma_given_cell_stays(cell: CellView, digit: u8)
    requires
        cell.is_fixed,
    ensures
        cell.set_main(digit) == cell,
        cell.toggle_corner(digit) == cell,
        cell.toggle_centre(digit) == cell,
{
}

/// One key keeps the session's rules: the grid stays nine by nine, its cells
/// keep the cell rules, and the cursor stays on the grid.
pub proof fn lemma_key_keeps_rules(app: AppView, key: Key)
    requires
        app.wf(),
    ensures
        app.handle_input(key).wf(),
{
    let next = app.handle_input(key);
    match key {
        Key::Char(c) => {
            if c != '/' && c != ',' && c != '.' {
                match entered_digit(c) {
                    Some(digit) => {
                        let cell = app.cell(app.cursor_x, app.cursor_y);
                        lemma_cell_rules_kept(cell, digit);
                        assert forall|y: int, x: int| 0 <= y < 9 && 0 <= x < 9 implies (
                        #[trigger] next.grid[y][x]).wf() by {
                            assert(app.grid[y][x].wf());
                        }
                    },
                    None => {},
                }
            }
        },
        _ => {},
    }
}

/// A digit key in normal mode, pressed twice on a cell that the puzzle did
/// not give and that did not show this digit, leaves the cell without a main
/// number.
pub proof fn lemma_digit_twice_in_normal_mode(app: AppView, c: char)
    requires
        app.wf(),
        app.input_mode == InputMode::Normal,
        entered_digit(c) matches Some(d) && app.cell(app.cursor_x, app.cursor_y).main_number
            != Some(d),
        !app.cell(app.cursor_x, app.cursor_y).is_fixed,
    ensures
        app.handle_input(Key::Char(c)).handle_input(Key::Char(c)).cell(
            app.cursor_x,
            app.cursor_y,
        ).main_number is None,
{
}

/// A digit key in corner mode or in centre mode, pressed twice, gives back
/// the session one started with.
pub proof fn lemma_digit_twice_in_mark_mode(app: AppView, c: char)
    requires
        app.wf(),
        app.input_mode != InputMode::Normal,
        entered_digit(c) is Some,
    ensures
        app.handle_input(Key::Char(c)).handle_input(Key::Char(c)) == app,
{
    let digit = entered_digit(c)->0;
    let cell = app.cell(app.cursor_x, app.cursor_y);
    lemma_marks_twice(cell, digit);
    let twice = app.handle_input(Key::Char(c)).handle_input(Key::Char(c));
    assert(twice.grid[app.cursor_y] =~= app.grid[app.cursor_y]);
    assert(twice.grid =~= app.grid);
}

/// Whatever keys are pressed, after each of them the cursor is on the grid.
pub proof fn lemma_cursor_stays_on_grid(app: AppView, keys: Seq<Key>, n: int)
    requires
        0 <= app.cursor_x <= 8,
        0 <= app.cursor_y <= 8,
        0 <= n <= keys.len(),
    ensures
        0 <= app.after(keys.take(n)).cursor_x <= 8,
        0 <= app.after(keys.take(n)).cursor_y <= 8,
    decreases n,
{
    if n > 0 {
        lemma_cursor_stays_on_grid(app, keys, n - 1);
        assert(keys.take(n).drop_last() == keys.take(n - 1));
    }
}

/// Whatever keys are pressed, after each of them the session obeys its
/// rules.
pub proof fn lemma_rules_kept(app: AppView, keys: Seq<Key>, n: int)
    requires
        app.wf(),
        0 <= n <= keys.len(),
    ensures
        app.after(keys.take(n)).wf(),
    decreases n,
{
    if n > 0 {
        lemma_rules_kept(app, keys, n - 1);
        assert(keys.take(n).drop_last() == keys.take(n - 1));
        lemma_key_keeps_rules(app.after(keys.take(n - 1)), keys[n - 1]);
    }
}

/// Whatever keys are pressed, after each of them a cell that the puzzle gave
/// is what it was at the start.
pub proof fn lemma_given_cells_stay(app: AppView, keys: Seq<Key>, n: int, x: int, y: int)
    requires
        app.wf(),
        0 <= n <= keys.len(),
        0 <= x < 9,
        0 <= y < 9,
        app.cell(x, y).is_fixed,
    ensures
        app.after(keys.take(n)).cell(x, y) == app.cell(x, y),
    decreases n,
{
    if n > 0 {
        lemma_given_cells_stay(app, keys, n - 1, x, y);
        lemma_rules_kept(app, keys, n - 1);
        assert(keys.take(n).drop_last() == keys.take(n - 1));
    }
}

/// Whatever keys are pressed, no cell becomes a given cell and no given cell
/// ceases to be one.
pub proof fn lemma_given_flags_stay(app: AppView, keys: Seq<Key>, n: int, x: int, y: int)
    requires
        app.wf(),
        0 <= n <= keys.len(),
        0 <= x < 9,
        0 <= y < 9,
    ensures
        app.after(keys.take(n)).cell(x, y).is_fixed == app.cell(x, y).is_fixed,
    decreases n,
{
    if n > 0 {
        lemma_given_flags_stay(app, keys, n - 1, x, y);
        lemma_rules_kept(app, keys, n - 1);
        assert(keys.take(n).drop_last() == keys.take(n - 1));
    }
}

/// A key changes at most the cell under the cursor: every other cell is
/// after the key what it was before.
pub proof fn lemma_other_cells_stay(app: AppView, key: Key, x: int, y: int)
    requires
        app.wf(),
        0 <= x < 9,
        0 <= y < 9,
        x != app.cursor_x || y != app.cursor_y,
    ensures
        app.handle_input(key).cell(x, y) == app.cell(x, y),
{
}

/// Only the arrows move the cursor, and each moves it by one cell at most,
/// along its own axis.
pub proof fn lemma_cursor_moves(app: AppView, key: Key)
    requires
        app.wf(),
    ensures
        key != Key::Left && key != Key::Right ==> app.handle_input(key).cursor_x
            == app.cursor_x,
        key != Key::Up && key != Key::Down ==> app.handle_input(key).cursor_y == app.cursor_y,
        key == Key::Left ==> app.handle_input(key).cursor_x == if app.cursor_x == 0 {
            0
        } else {
            app.cursor_x - 1
        },
        key == Key::Right ==> app.handle_input(key).cursor_x == if app.cursor_x == 8 {
            8
        } else {
            app.cursor_x + 1
        },
        key == Key::Up ==> app.handle_input(key).cursor_y == if app.cursor_y == 0 {
            0
        } else {
            app.cursor_y - 1
        },
        key == Key::Down ==> app.handle_input(key).cursor_y == if app.cursor_y == 8 {
            8
        } else {
            app.cursor_y + 1
        },
        !(key is Char) ==> app.handle_input(key).grid == app.grid,
{
}

/// A mode key selects its mode whatever the mode was, and changes neither
/// grid nor cursor; arrows and digits leave the mode as it is.
pub proof fn lemma_mode_keys(app: AppView, key: Key)
    requires
        app.wf(),
    ensures
        key == Key::Char('/') ==> app.handle_input(key) == (AppView {
            input_mode: InputMode::Normal,
            ..app
        }),
        key == Key::Char(',') ==> app.handle_input(key) == (AppView {
            input_mode: InputMode::Corner,
            ..app
        }),
        key == Key::Char('.') ==> app.handle_input(key) == (AppView {
            input_mode: InputMode::Centre,
            ..app
        }),
        key != Key::Char('/') && key != Key::Char(',') && key != Key::Char('.')
            ==> app.handle_input(key).input_mode == app.input_mode,
{
}

} // verus!
