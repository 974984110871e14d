use sudoku_notes::cell::Cell;
use sudoku_notes::geometry::Rect;
use sudoku_notes::render::{draw_cell, Color, DrawOp, Edges, Paint};

fn rect(x: u16, y: u16, width: u16, height: u16) -> Rect {
    Rect { x, y, width, height }
}

fn block(area: Rect, edges: Edges, fg: Option<Color>, bg: Option<Color>) -> DrawOp {
    DrawOp { area, paint: Paint::Block(edges), fg, bg, digits: vec![] }
}

fn glyphs(area: Rect, digits: &[u8], fg: Color) -> DrawOp {
    DrawOp { area, paint: Paint::Digits, fg: Some(fg), bg: None, digits: digits.to_vec() }
}

const AREA: Rect = Rect { x: 28, y: 16, width: 8, height: 5 };

#[test]
fn draw_op_constructors() {
    assert_eq!(
        DrawOp::block(AREA, Edges::Top, Some(Color::White), None),
        block(AREA, Edges::Top, Some(Color::White), None)
    );
    assert_eq!(DrawOp::digit(AREA, 4, Color::Green), glyphs(AREA, &[4], Color::Green));
    assert_eq!(DrawOp::digits(AREA, &[1, 5, 9], Color::Blue), glyphs(AREA, &[1, 5, 9], Color::Blue));
    assert_eq!(DrawOp::digits(AREA, &[], Color::Blue), glyphs(AREA, &[], Color::Blue));
}

#[test]
fn empty_cell_is_only_its_background() {
    let ops = draw_cell(&Cell::new(), AREA, false, false, false);
    assert_eq!(ops, vec![block(AREA, Edges::All, None, Some(Color::Black))]);
}

#[test]
fn selected_cell_is_highlighted() {
    let ops = draw_cell(&Cell::new(), AREA, true, false, false);
    assert_eq!(ops, vec![block(AREA, Edges::All, None, Some(Color::DarkGray))]);
}

#[test]
fn given_number_is_green_in_the_middle() {
    let ops = draw_cell(&Cell::given(5), AREA, false, false, false);
    assert_eq!(
        ops,
        vec![
            block(AREA, Edges::All, None, Some(Color::Black)),
            glyphs(rect(31, 18, 1, 1), &[5], Color::Green),
        ]
    );
}

#[test]
fn entered_number_is_white_in_the_middle() {
    let mut cell = Cell::new();
    cell.set_main(8);
    let ops = draw_cell(&cell, AREA, true, false, false);
    assert_eq!(
        ops,
        vec![
            block(AREA, Edges::All, None, Some(Color::DarkGray)),
            glyphs(rect(31, 18, 1, 1), &[8], Color::White),
        ]
    );
}

#[test]
fn corner_marks_go_clockwise_from_the_top_left() {
    let mut cell = Cell::new();
    for digit in [4u8, 2, 8, 6] {
        cell.toggle_corner(digit);
    }
    let ops = draw_cell(&cell, AREA, false, false, false);
    assert_eq!(
        ops,
        vec![
            block(AREA, Edges::All, None, Some(Color::Black)),
            glyphs(rect(29, 17, 1, 1), &[2], Color::Yellow),
            glyphs(rect(34, 17, 1, 1), &[4], Color::Yellow),
            glyphs(rect(34, 19, 1, 1), &[6], Color::Yellow),
            glyphs(rect(29, 19, 1, 1), &[8], Color::Yellow),
        ]
    );
}

#[test]
fn fewer_corner_marks_fill_the_first_corners() {
    let mut cell = Cell::new();
    cell.toggle_corner(7);
    cell.toggle_corner(3);
    let ops = draw_cell(&cell, AREA, false, false, false);
    assert_eq!(
        ops,
        vec![
            block(AREA, Edges::All, None, Some(Color::Black)),
            glyphs(rect(29, 17, 1, 1), &[3], Color::Yellow),
            glyphs(rect(34, 17, 1, 1), &[7], Color::Yellow),
        ]
    );
}

#[test]
fn only_the_four_smallest_corner_marks_are_drawn() {
    let mut cell = Cell::new();
    for digit in [9u8, 5, 1, 7, 3, 8] {
        cell.toggle_corner(digit);
    }
    let ops = draw_cell(&cell, AREA, false, false, false);
    assert_eq!(ops.len(), 5);
    let drawn: Vec<u8> = ops[1..].iter().map(|op| op.digits[0]).collect();
    assert_eq!(drawn, vec![1, 3, 5, 7]);
    assert_eq!(cell.corner_numbers(), &[1, 3, 5, 7, 8, 9]);
}

#[test]
fn centre_marks_are_one_blue_run_in_the_middle() {
    let mut cell = Cell::new();
    for digit in [7u8, 1, 3] {
        cell.toggle_centre(digit);
    }
    let ops = draw_cell(&cell, AREA, false, false, false);
    assert_eq!(
        ops,
        vec![
            block(AREA, Edges::All, None, Some(Color::Black)),
            glyphs(rect(30, 18, 3, 1), &[1, 3, 7], Color::Blue),
        ]
    );
}

#[test]
fn all_nine_centre_marks_are_cut_to_the_width_of_the_cell() {
    let mut cell = Cell::new();
    for digit in 1..=9u8 {
        cell.toggle_centre(digit);
    }
    let ops = draw_cell(&cell, AREA, false, false, false);
    assert_eq!(
        ops,
        vec![
            block(AREA, Edges::All, None, Some(Color::Black)),
            glyphs(rect(28, 18, 8, 1), &[1, 2, 3, 4, 5, 6, 7, 8, 9], Color::Blue),
        ]
    );
}

#[test]
fn corner_marks_come_before_centre_marks() {
    let mut cell = Cell::new();
    cell.toggle_centre(4);
    cell.toggle_corner(9);
    let ops = draw_cell(&cell, AREA, false, false, false);
    assert_eq!(
        ops,
        vec![
            block(AREA, Edges::All, None, Some(Color::Black)),
            glyphs(rect(29, 17, 1, 1), &[9], Color::Yellow),
            glyphs(rect(31, 18, 1, 1), &[4], Color::Blue),
        ]
    );
}

#[test]
fn thick_sides_are_white_lines_beside_the_cell() {
    let ops = draw_cell(&Cell::new(), AREA, false, true, false);
    assert_eq!(
        ops,
        vec![
            block(AREA, Edges::All, None, Some(Color::Black)),
            block(rect(36, 16, 1, 5), Edges::Left, Some(Color::White), None),
        ]
    );
    let ops = draw_cell(&Cell::new(), AREA, false, false, true);
    assert_eq!(
        ops,
        vec![
            block(AREA, Edges::All, None, Some(Color::Black)),
            block(rect(28, 21, 8, 1), Edges::Top, Some(Color::White), None),
        ]
    );
    let ops = draw_cell(&Cell::given(1), AREA, false, true, true);
    assert_eq!(
        ops,
        vec![
            block(AREA, Edges::All, None, Some(Color::Black)),
            glyphs(rect(31, 18, 1, 1), &[1], Color::Green),
            block(rect(36, 16, 1, 5), Edges::Left, Some(Color::White), None),
            block(rect(28, 21, 8, 1), Edges::Top, Some(Color::White), None),
        ]
    );
}

#[test]
fn thick_sides_at_the_last_coordinate_are_cut() {
    let area = rect(65527, 65530, 8, 5);
    let ops = draw_cell(&Cell::new(), area, false, true, true);
    assert_eq!(
        ops,
        vec![
            block(area, Edges::All, None, Some(Color::Black)),
            block(rect(65535, 65530, 0, 5), Edges::Left, Some(Color::White), None),
            block(rect(65527, 65535, 8, 0), Edges::Top, Some(Color::White), None),
        ]
    );
}

#[test]
fn region_without_corners_gets_no_corner_marks() {
    let mut cell = Cell::new();
    cell.toggle_corner(1);
    cell.toggle_corner(2);
    cell.toggle_centre(3);
    for area in [rect(0, 0, 1, 5), rect(0, 0, 8, 1), rect(4, 4, 1, 1), rect(0, 0, 0, 5), rect(7, 0, 8, 0)] {
        let ops = draw_cell(&cell, area, false, false, false);
        assert_eq!(ops.len(), 2);
        assert_eq!(ops[0], block(area, Edges::All, None, Some(Color::Black)));
        assert_eq!(ops[1].digits, vec![3]);
        assert_eq!(ops[1].fg, Some(Color::Blue));
    }
    let ops = draw_cell(&cell, rect(0, 0, 0, 0), true, true, true);
    assert_eq!(
        ops,
        vec![
            block(rect(0, 0, 0, 0), Edges::All, None, Some(Color::DarkGray)),
            glyphs(rect(0, 0, 0, 0), &[3], Color::Blue),
            block(rect(0, 0, 1, 0), Edges::Left, Some(Color::White), None),
            block(rect(0, 0, 0, 1), Edges::Top, Some(Color::White), None),
        ]
    );
    let ops = draw_cell(&Cell::given(9), rect(65535, 65535, 0, 0), false, true, true);
    assert_eq!(
        ops,
        vec![
            block(rect(65535, 65535, 0, 0), Edges::All, None, Some(Color::Black)),
            glyphs(rect(65535, 65535, 0, 0), &[9], Color::Green),
            block(rect(65535, 65535, 0, 0), Edges::Left, Some(Color::White), None),
            block(rect(65535, 65535, 0, 0), Edges::Top, Some(Color::White), None),
        ]
    );
}

#[test]
fn smallest_cell_that_can_be_drawn() {
    let mut cell = Cell::new();
    cell.toggle_corner(1);
    cell.toggle_centre(2);
    let area = rect(0, 0, 2, 2);
    let ops = draw_cell(&cell, area, false, false, false);
    assert_eq!(
        ops,
        vec![
            block(area, Edges::All, None, Some(Color::Black)),
            glyphs(rect(1, 1, 1, 1), &[1], Color::Yellow),
            glyphs(rect(0, 0, 1, 1), &[2], Color::Blue),
        ]
    );
}
