//! The words on the screen: the line that names the input mode, and the help
//! panel below it.

use crate::input::InputMode;
use crate::render::Color;
use vstd::prelude::*;

verus! {

/// The title on the frame of the help panel.
pub const HELP_TITLE: &'static str = "Help";

/// A piece of a help line in one colour; `None` is the terminal's own.
#[derive(Clone, Copy, Debug)]
pub struct HelpSpan {
    pub text: &'static str,
    pub color: Option<Color>,
}

/// A piece of a help line as plain values.
pub open spec fn span(text: &'static str, color: Option<Color>) -> (Seq<char>, Option<Color>) {
    (text@, color)
}

/// The pieces of a help line as plain values.
pub open spec fn line_view(line: Seq<HelpSpan>) -> Seq<(Seq<char>, Option<Color>)> {
    line.map_values(|s: HelpSpan| span(s.text, s.color))
}

/// The words of the mode line.
pub open spec fn mode_label(mode: InputMode) -> Seq<char> {
    match mode {
        InputMode::Normal => "Mode: Normal (/)"@,
        InputMode::Corner => "Mode: Corner (,)"@,
        InputMode::Centre => "Mode: Centre (.)"@,
    }
}

/// The words of the mode line: the mode's name and the key that selects it.
pub fn mode_text(mode: InputMode) -> (text: &'static str)
    ensures
        text@ == mode_label(mode),
{
    match mode {
        InputMode::Normal => "Mode: Normal (/)",
        InputMode::Corner => "Mode: Corner (,)",
        InputMode::Centre => "Mode: Centre (.)",
    }
}

/// The twelve lines of the help panel, each as its coloured pieces.
pub open spec fn help_text() -> Seq<Seq<(Seq<char>, Option<Color>)>> {
    seq![
        seq![
            span("Movement: ", Some(Color::White)),
            span("↑ ↓ ← →", Some(Color::Yellow)),
            span(" arrow keys to navigate the grid", None),
        ],
        seq![span("Modes: ", Some(Color::White))],
        seq![
            span("/", Some(Color::Yellow)),
            span(" - Normal mode (enter numbers directly)", None),
        ],
        seq![
            span(",", Some(Color::Yellow)),
            span(" - Corner mode (small numbers in corners)", None),
        ],
        seq![
            span(".", Some(Color::Yellow)),
            span(" - Centre mode (small numbers in centre)", None),
        ],
        seq![span("Numbers: ", Some(Color::White)), span("Use keys 1-9 to enter values", None)],
        seq![span("Color coding:", Some(Color::White))],
        seq![span("Green", Some(Color::Green)), span(" - Fixed numbers (unchangeable)", None)],
        seq![span("White", Some(Color::White)), span(" - User-entered numbers", None)],
        seq![span("Yellow", Some(Color::Yellow)), span(" - Corner numbers (up to 4)", None)],
        seq![span("Blue", Some(Color::Blue)), span(" - Centre numbers (up to 3)", None)],
        seq![
            span("Exit: ", Some(Color::White)),
            span("q", Some(Color::Yellow)),
            span(" to quit the application", None),
        ],
    ]
}

/// A help line of one piece.
fn line1(a: HelpSpan) -> (line: Vec<HelpSpan>)
    ensures
        line_view(line@) == seq![span(a.text, a.color)],
{
    let mut line: Vec<HelpSpan> = Vec::new();
    line.push(a);
    assert(line_view(line@) =~= seq![span(a.text, a.color)]);
    line
}

/// A help line of two pieces.
fn line2(a: HelpSpan, b: HelpSpan) -> (line: Vec<HelpSpan>)
    ensures
        line_view(line@) == seq![span(a.text, a.color), span(b.text, b.color)],
{
    let mut line: Vec<HelpSpan> = Vec::new();
    line.push(a);
    line.push(b);
    assert(line_view(line@) =~= seq![span(a.text, a.color), span(b.text, b.color)]);
    line
}

/// A help line of three pieces.
fn line3(a: HelpSpan, b: HelpSpan, c: HelpSpan) -> (line: Vec<HelpSpan>)
    ensures
        line_view(line@) == seq![
            span(a.text, a.color),
            span(b.text, b.color),
            span(c.text, c.color),
        ],
{
    let mut line: Vec<HelpSpan> = Vec::new();
    line.push(a);
    line.push(b);
    line.push(c);
    assert(line_view(line@) =~= seq![
        span(a.text, a.color),
        span(b.text, b.color),
        span(c.text, c.color),
    ]);
    line
}

/// A piece of help text.
fn piece(text: &'static str, color: Option<Color>) -> (s: HelpSpan)
    ensures
        s.text == text,
        s.color == color,
{
    HelpSpan { text, color }
}

/// The lines of the help panel, from top to bottom.
pub fn help_lines() -> (lines: Vec<Vec<HelpSpan>>)
    ensures
        lines@.len() == 12,
        forall|i: int| 0 <= i < 12 ==> line_view((#[trigger] lines@[i])@) == help_text()[i],
{
    let white = Some(Color::White);
    let yellow = Some(Color::Yellow);
    let mut lines: Vec<Vec<HelpSpan>> = Vec::new();
    lines.push(
        line3(
            piece("Movement: ", white),
            piece("↑ ↓ ← →", yellow),
            piece(" arrow keys to navigate the grid", None),
        ),
    );
    lines.push(line1(piece("Modes: ", white)));
    lines.push(line2(piece("/", yellow), piece(" - Normal mode (enter numbers directly)", None)));
    lines.push(line2(piece(",", yellow), piece(" - Corner mode (small numbers in corners)", None)));
    lines.push(line2(piece(".", yellow), piece(" - Centre mode (small numbers in centre)", None)));
    lines.push(line2(piece("Numbers: ", white), piece("Use keys 1-9 to enter values", None)));
    lines.push(line1(piece("Color coding:", white)));
    lines.push(
        line2(piece("Green", Some(Color::Green)), piece(" - Fixed numbers (unchangeable)", None)),
    );
    lines.push(line2(piece("White", white), piece(" - User-entered numbers", None)));
    lines.push(line2(piece("Yellow", yellow), piece(" - Corner numbers (up to 4)", None)));
    lines.push(
        line2(piece("Blue", Some(Color::Blue)), piece(" - Centre numbers (up to 3)", None)),
    );
    lines.push(
        line3(piece("Exit: ", white), piece("q", yellow), piece(" to quit the application", None)),
    );
    lines
}

} // verus!
