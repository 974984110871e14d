use ratatui::layout::{Constraint, Direction, Layout};
use sudoku_notes::geometry::{centred_rect, Rect};
use sudoku_notes::layout::{
    cell_area, divider_x, divider_y, grid_area, is_bottom_thick, is_right_thick, place_cell,
    screen_rows, CELL_HEIGHT, CELL_WIDTH, GRID_HEIGHT, GRID_WIDTH, HELP_HEIGHT, MODE_HEIGHT,
};

fn rect(x: u16, y: u16, width: u16, height: u16) -> Rect {
    Rect { x, y, width, height }
}

fn theirs(r: ratatui::layout::Rect) -> Rect {
    Rect { x: r.x, y: r.y, width: r.width, height: r.height }
}

#[test]
fn sizes_of_cell_and_grid() {
    assert_eq!(CELL_WIDTH, 8);
    assert_eq!(CELL_HEIGHT, 5);
    assert_eq!(GRID_WIDTH, 9 * CELL_WIDTH + 2);
    assert_eq!(GRID_HEIGHT, 9 * CELL_HEIGHT + 2);
    assert_eq!(MODE_HEIGHT, 1);
    assert_eq!(HELP_HEIGHT, 12);
}

#[test]
fn rect_new_keeps_a_size_that_fits() {
    assert_eq!(Rect::new(3, 4, 10, 20), rect(3, 4, 10, 20));
    assert_eq!(Rect::new(0, 0, 65535, 65535), rect(0, 0, 65535, 65535));
    assert_eq!(Rect::new(65535, 65535, 0, 0), rect(65535, 65535, 0, 0));
}

#[test]
fn rect_new_cuts_a_size_that_does_not_fit() {
    assert_eq!(Rect::new(65530, 65534, 10, 5), rect(65530, 65534, 5, 1));
    assert_eq!(Rect::new(65535, 0, 1, 1), rect(65535, 0, 0, 1));
    assert_eq!(Rect::new(1, 65535, 65535, 65535), rect(1, 65535, 65534, 0));
}

#[test]
fn rect_new_cuts_as_ratatui_does() {
    let edge = [0u16, 1, 2, 100, 32767, 32768, 65533, 65534, 65535];
    for x in edge {
        for y in [0u16, 65535, 40000] {
            for width in edge {
                for height in [0u16, 1, 30000, 65535] {
                    assert_eq!(
                        Rect::new(x, y, width, height),
                        theirs(ratatui::layout::Rect::new(x, y, width, height))
                    );
                }
            }
        }
    }
}

#[test]
fn intersection_is_what_both_cover() {
    let a = rect(2, 3, 10, 10);
    assert_eq!(a.intersection(rect(0, 0, 80, 24)), a);
    assert_eq!(a.intersection(rect(5, 5, 3, 3)), rect(5, 5, 3, 3));
    assert_eq!(a.intersection(rect(8, 1, 10, 4)), rect(8, 3, 4, 2));
    assert_eq!(a.intersection(rect(0, 0, 5, 20)), rect(2, 3, 3, 10));
    assert!(a.intersection(rect(12, 3, 5, 5)).width == 0);
    assert!(a.intersection(rect(2, 13, 5, 5)).height == 0);
    assert!(a.intersection(rect(40, 40, 5, 5)).width == 0);
}

#[test]
fn intersection_cuts_as_ratatui_does() {
    let rects = [
        (0u16, 0u16, 80u16, 24u16),
        (3, 0, 74, 47),
        (27, 15, 1, 1),
        (79, 23, 8, 5),
        (80, 24, 8, 5),
        (100, 100, 8, 5),
        (0, 0, 0, 0),
        (65530, 65530, 5, 5),
        (10, 10, 0, 7),
    ];
    for a in rects {
        for b in rects {
            let ours = rect(a.0, a.1, a.2, a.3).intersection(rect(b.0, b.1, b.2, b.3));
            let other = ratatui::layout::Rect::new(a.0, a.1, a.2, a.3)
                .intersection(ratatui::layout::Rect::new(b.0, b.1, b.2, b.3));
            assert_eq!(ours, theirs(other));
        }
    }
}

#[test]
fn centred_rect_in_a_cell() {
    let cell = rect(3, 0, 8, 5);
    assert_eq!(centred_rect(1, 1, cell), rect(6, 2, 1, 1));
    assert_eq!(centred_rect(2, 1, cell), rect(6, 2, 2, 1));
    assert_eq!(centred_rect(3, 1, cell), rect(5, 2, 3, 1));
    assert_eq!(centred_rect(8, 5, cell), cell);
}

#[test]
fn centred_rect_is_cut_to_its_parent() {
    let cell = rect(3, 10, 8, 5);
    assert_eq!(centred_rect(9, 1, cell), rect(3, 12, 8, 1));
    assert_eq!(centred_rect(100, 100, cell), cell);
    assert_eq!(centred_rect(0, 0, cell), rect(7, 12, 0, 0));
    let last = rect(65527, 65530, 8, 5);
    assert_eq!(centred_rect(1, 1, last), rect(65530, 65532, 1, 1));
}

#[test]
fn grid_is_centred_on_a_wide_terminal() {
    assert_eq!(grid_area(80), rect(3, 0, 74, 47));
    assert_eq!(grid_area(81), rect(3, 0, 74, 47));
    assert_eq!(grid_area(82), rect(4, 0, 74, 47));
    assert_eq!(grid_area(200), rect(63, 0, 74, 47));
    assert_eq!(grid_area(65535), rect(32730, 0, 74, 47));
}

#[test]
fn grid_starts_at_the_left_edge_of_a_narrow_terminal() {
    assert_eq!(grid_area(0), rect(0, 0, 74, 47));
    assert_eq!(grid_area(10), rect(0, 0, 74, 47));
    assert_eq!(grid_area(74), rect(0, 0, 74, 47));
    assert_eq!(grid_area(75), rect(0, 0, 74, 47));
    assert_eq!(grid_area(76), rect(1, 0, 74, 47));
}

#[test]
fn cell_regions_count_the_dividers_before_them() {
    let grid = grid_area(80);
    assert_eq!(cell_area(grid, 0, 0), rect(3, 0, 8, 5));
    assert_eq!(cell_area(grid, 1, 0), rect(11, 0, 8, 5));
    assert_eq!(cell_area(grid, 2, 0), rect(19, 0, 8, 5));
    assert_eq!(cell_area(grid, 3, 0), rect(28, 0, 8, 5));
    assert_eq!(cell_area(grid, 6, 0), rect(53, 0, 8, 5));
    assert_eq!(cell_area(grid, 8, 0), rect(69, 0, 8, 5));
    assert_eq!(cell_area(grid, 0, 2), rect(3, 10, 8, 5));
    assert_eq!(cell_area(grid, 0, 3), rect(3, 16, 8, 5));
    assert_eq!(cell_area(grid, 4, 7), rect(36, 37, 8, 5));
    assert_eq!(cell_area(grid, 8, 8), rect(69, 42, 8, 5));
}

#[test]
fn cell_regions_do_not_overlap_and_fill_the_grid_but_for_the_dividers() {
    let grid = grid_area(80);
    let mut covered = vec![vec![0u8; 47]; 74];
    for y in 0..9 {
        for x in 0..9 {
            let area = cell_area(grid, x, y);
            for px in area.x..area.x + area.width {
                for py in area.y..area.y + area.height {
                    covered[(px - grid.x) as usize][(py - grid.y) as usize] += 1;
                }
            }
        }
    }
    for px in 0..74usize {
        for py in 0..47usize {
            let on_divider = px == 24 || px == 49 || py == 15 || py == 31;
            assert_eq!(covered[px][py], if on_divider { 0 } else { 1 });
        }
    }
}

#[test]
fn divider_lines_stand_in_the_free_columns_and_rows() {
    let grid = grid_area(80);
    assert_eq!(divider_x(grid, 1), 3 + 24);
    assert_eq!(divider_x(grid, 2), 3 + 49);
    assert_eq!(divider_y(grid, 1), 15);
    assert_eq!(divider_y(grid, 2), 31);
    let grid = grid_area(10);
    assert_eq!(divider_x(grid, 1), 24);
    assert_eq!(divider_x(grid, 2), 49);
    let grid = grid_area(200);
    assert_eq!(divider_x(grid, 1), cell_area(grid, 2, 0).x + 8);
    assert_eq!(divider_x(grid, 1) + 1, cell_area(grid, 3, 0).x);
    assert_eq!(divider_x(grid, 2), cell_area(grid, 5, 0).x + 8);
    assert_eq!(divider_x(grid, 2) + 1, cell_area(grid, 6, 0).x);
    assert_eq!(divider_y(grid, 1), cell_area(grid, 0, 2).y + 5);
    assert_eq!(divider_y(grid, 1) + 1, cell_area(grid, 0, 3).y);
    assert_eq!(divider_y(grid, 2), cell_area(grid, 0, 5).y + 5);
    assert_eq!(divider_y(grid, 2) + 1, cell_area(grid, 0, 6).y);
}

#[test]
fn thick_sides_mark_the_boxes() {
    let thick: Vec<bool> = (0..9).map(is_right_thick).collect();
    assert_eq!(thick, vec![false, false, true, false, false, true, false, false, true]);
    let thick: Vec<bool> = (0..9).map(is_bottom_thick).collect();
    assert_eq!(thick, vec![false, false, true, false, false, true, false, false, true]);
}

#[test]
fn placement_on_a_standard_terminal() {
    let placed = place_cell(grid_area(80), 2, 0);
    assert!(placed.right_thick);
    assert!(!placed.bottom_thick);
    assert_eq!(placed.area, rect(19, 0, 8, 5));
    let placed = place_cell(grid_area(80), 3, 0);
    assert!(!placed.right_thick);
    assert!(!placed.bottom_thick);
    assert_eq!(placed.area, rect(28, 0, 8, 5));
    let placed = place_cell(grid_area(80), 0, 2);
    assert!(!placed.right_thick);
    assert!(placed.bottom_thick);
    assert_eq!(placed.area, rect(3, 10, 8, 5));
    let placed = place_cell(grid_area(80), 8, 8);
    assert!(placed.right_thick);
    assert!(placed.bottom_thick);
}

#[test]
fn rows_below_the_grid_on_a_tall_terminal() {
    let rows = screen_rows(80, 120);
    assert_eq!(rows.mode_area, rect(0, 47, 80, 1));
    assert_eq!(rows.help_top, 48);
    let rows = screen_rows(100, 60);
    assert_eq!(rows.mode_area, rect(0, 47, 100, 1));
    assert_eq!(rows.help_top, 48);
}

#[test]
fn rows_stand_below_the_grid_wherever_there_is_room() {
    for width in [0u16, 1, 74, 80, 1000, 65535] {
        for height in [60u16, 61, 62, 75, 100, 119, 120, 255, 256, 1000, 32767, 32768, 65534, 65535] {
            let rows = screen_rows(width, height);
            assert_eq!(rows.mode_area, rect(0, 47, width, 1));
            assert_eq!(rows.help_top, 48);
        }
    }
    for height in 60..400u16 {
        let rows = screen_rows(80, height);
        assert_eq!(rows.mode_area, rect(0, 47, 80, 1));
        assert_eq!(rows.help_top, 48);
    }
}

#[test]
fn rows_stay_on_a_terminal_without_room() {
    for width in [0u16, 80, 65535] {
        for height in 0..60u16 {
            let rows = screen_rows(width, height);
            assert_eq!(rows.mode_area.x, 0);
            assert_eq!(rows.mode_area.width, width);
            assert!(rows.mode_area.y as u32 + rows.mode_area.height as u32 <= height as u32);
            assert!(rows.help_top <= height);
        }
    }
}

#[test]
fn split_stacks_rows_from_the_top_of_any_area_with_room() {
    for (x, y, width, height) in [(0u16, 0u16, 80u16, 60u16), (5, 7, 20, 60), (0, 100, 1, 500), (9, 65000, 3, 535)] {
        let rows = Layout::default()
            .direction(Direction::Vertical)
            .constraints([
                Constraint::Length(GRID_HEIGHT),
                Constraint::Length(MODE_HEIGHT),
                Constraint::Min(HELP_HEIGHT),
            ])
            .split(ratatui::layout::Rect::new(x, y, width, height));
        assert_eq!(rows.len(), 3);
        assert_eq!(theirs(rows[0]), rect(x, y, width, 47));
        assert_eq!(theirs(rows[1]), rect(x, y + 47, width, 1));
        assert_eq!(theirs(rows[2]), rect(x, y + 48, width, height - 48));
    }
}

#[test]
fn rows_span_every_terminal() {
    for width in [0u16, 1, 80, 500, 65535] {
        for height in [0u16, 1, 12, 13, 47, 59, 60, 61, 1000, 65535] {
            let rows = screen_rows(width, height);
            assert_eq!(rows.mode_area.x, 0);
            assert_eq!(rows.mode_area.width, width);
            assert!(rows.mode_area.y as u32 + rows.mode_area.height as u32 <= height as u32);
            assert!(rows.help_top <= height);
        }
    }
}

#[test]
fn first_row_of_the_split_is_the_top_of_the_terminal() {
    for height in [0u16, 1, 10, 47, 48, 59, 60, 120, 65535] {
        let rows = Layout::default()
            .direction(Direction::Vertical)
            .constraints([
                Constraint::Length(GRID_HEIGHT),
                Constraint::Length(MODE_HEIGHT),
                Constraint::Min(HELP_HEIGHT),
            ])
            .split(ratatui::layout::Rect::new(0, 0, 80, height));
        assert_eq!(rows.len(), 3);
        assert_eq!(rows[0].y, grid_area(80).y);
    }
}
