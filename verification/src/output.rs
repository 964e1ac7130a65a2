//! What the session asks the terminal to do.

use vstd::prelude::*;

verus! {

/// A foreground colour of the terminal. `Reset` is the terminal's own.
#[derive(Clone, Copy, Debug, PartialEq, Eq, Structural)]
pub enum Color {
    Blue,
    Green,
    Reset,
}

/// One instruction for the terminal. The instructions of a step are carried
/// out in order. Every text is followed by a `Flush` before the next key is
/// awaited, so that it shows at once; a colour switch may still follow that
/// `Flush`, and is sent as soon as it is carried out.
#[derive(Debug, PartialEq, Eq)]
pub enum Output {
    /// Write the text at the cursor.
    Print(String),
    /// Switch the foreground colour, and send the switch to the terminal.
    Foreground(Color),
    /// Hand everything written so far to the terminal.
    Flush,
}

/// An instruction, with its text as a sequence of characters.
pub ghost enum OutputView {
    Print(Seq<char>),
    Foreground(Color),
    Flush,
}

impl View for Output {
    type V = OutputView;

    open spec fn view(&self) -> OutputView {
        match self {
            Output::Print(s) => OutputView::Print(s@),
            Output::Foreground(c) => OutputView::Foreground(*c),
            Output::Flush => OutputView::Flush,
        }
    }
}

/// The instructions of a list, each by its view.
pub open spec fn views(ops: Seq<Output>) -> Seq<OutputView> {
    ops.map_values(|o: Output| o@)
}

/// Pushing an instruction pushes its view.
pub proof fn views_push(ops: Seq<Output>, op: Output)
    ensures
        views(ops.push(op)) == views(ops).push(op@),
{
    assert(views(ops.push(op)) =~= views(ops).push(op@));
}

/// Joining two lists joins their views.
pub proof fn views_concat(a: Seq<Output>, b: Seq<Output>)
    ensures
        views(a + b) == views(a) + views(b),
{
    assert(views(a + b) =~= views(a) + views(b));
}

/// The prompt.
pub open spec fn prompt_text() -> Seq<char> {
    "Enter your input: "@
}

/// What erases the character before the cursor: back, a space over it, back.
pub open spec fn erase_text() -> Seq<char> {
    "\u{8} \u{8}"@
}

/// The prompt is printed in the colour that is set.
pub open spec fn prompt_ops() -> Seq<OutputView> {
    seq![OutputView::Print(prompt_text()), OutputView::Flush]
}

/// Piped input is shown in blue and flushed, and the colour is reset after
/// the flush.
pub open spec fn piped_echo_ops(piped: Seq<char>) -> Seq<OutputView> {
    seq![
        OutputView::Foreground(Color::Blue),
        OutputView::Print(piped),
        OutputView::Flush,
        OutputView::Foreground(Color::Reset),
    ]
}

/// A typed character is shown in blue. The colour stays until the line is
/// handed in.
pub open spec fn char_echo_ops(c: char) -> Seq<OutputView> {
    seq![OutputView::Foreground(Color::Blue), OutputView::Print(seq![c]), OutputView::Flush]
}

/// The erased character is wiped from the screen.
pub open spec fn erase_ops() -> Seq<OutputView> {
    seq![OutputView::Print(erase_text()), OutputView::Flush]
}

/// A submission is confirmed in green, and the colour is reset after it.
pub open spec fn confirmation_ops(input: Seq<char>) -> Seq<OutputView> {
    seq![
        OutputView::Foreground(Color::Green),
        OutputView::Print(crate::text::confirmation_text(input)),
        OutputView::Foreground(Color::Reset),
        OutputView::Flush,
    ]
}

} // verus!
