use vstd::prelude::*;

use crate::buffer::{EditBuffer, LineView};
use crate::text::{owned, string_of};

verus! {

/// The colours that the frame uses.
#[derive(Clone, Copy, PartialEq, Eq, Debug)]
pub enum Color {
    Blue,
    Red,
    Green,
    Magenta,
}

/// One piece of terminal output.
#[derive(Clone, Debug, PartialEq, Eq)]
pub enum Piece {
    /// Text written as it is, control sequences included.
    Text(String),
    /// Text written in a colour.
    Painted(Color, String),
    /// The terminal cursor moved left by that many columns.
    CursorLeft(usize),
    /// The whole screen cleared.
    ClearScreen,
    /// The terminal cursor moved to the top left corner.
    CursorHome,
}

/// A piece of output, with its text as characters.
pub ghost enum PieceView {
    Text(Seq<char>),
    Painted(Color, Seq<char>),
    CursorLeft(nat),
    ClearScreen,
    CursorHome,
}

impl View for Piece {
    type V = PieceView;

    open spec fn view(&self) -> PieceView {
        match self {
            Piece::Text(s) => PieceView::Text(s@),
            Piece::Painted(c, s) => PieceView::Painted(*c, s@),
            Piece::CursorLeft(n) => PieceView::CursorLeft(*n as nat),
            Piece::ClearScreen => PieceView::ClearScreen,
            Piece::CursorHome => PieceView::CursorHome,
        }
    }
}

/// What a list of pieces shows.
pub open spec fn pieces(p: Seq<Piece>) -> Seq<PieceView> {
    p.map_values(|x: Piece| x@)
}

/// The digit for `d`, below ten.
pub open spec fn digit(d: nat) -> char {
    seq!['0', '1', '2', '3', '4', '5', '6', '7', '8', '9'][d as int]
}

/// `n` in decimal, without leading zeros.
pub open spec fn decimal(n: nat) -> Seq<char>
    decreases n,
{
    if n < 10 {
        seq![digit(n)]
    } else {
        decimal(n / 10).push(digit(n % 10))
    }
}

/// The prompt marker.
pub open spec fn prompt_mark() -> Seq<char> {
    "~>"@
}

/// The two-line frame after `lead`: the status line `cursor-length path`, then
/// the prompt line with the text, the terminal cursor taken back to the
/// editing cursor where that is not at the end.
pub open spec fn frame_after(lead: Seq<char>, line: LineView, path: Seq<char>) -> Seq<PieceView> {
    let len = line.0.len();
    seq![
        PieceView::Text(lead),
        PieceView::Painted(Color::Blue, decimal(line.1)),
        PieceView::Text("-"@),
        PieceView::Painted(Color::Red, decimal(len)),
        PieceView::Text(" "@),
        PieceView::Painted(Color::Green, path),
        PieceView::Text("\r\n\x1b[2K"@),
        PieceView::Painted(Color::Magenta, prompt_mark()),
        PieceView::Text(" "@),
        PieceView::Text(line.0),
    ] + if line.1 < len {
        seq![PieceView::CursorLeft((len - line.1) as nat)]
    } else {
        Seq::<PieceView>::empty()
    }
}

/// The first frame of a line: drawn over the current terminal line.
pub open spec fn first_frame(line: LineView, path: Seq<char>) -> Seq<PieceView> {
    frame_after("\r\x1b[2K"@, line, path)
}

/// A repaint: back up to the status line, clear it, and draw both lines anew.
pub open spec fn redraw_frame(line: LineView, path: Seq<char>) -> Seq<PieceView> {
    frame_after("\x1b[F\x1b[2K"@, line, path)
}

/// The frame of a submitted line: the two working lines become one line with
/// the prompt and the text, and a fresh line follows.
pub open spec fn submitted_frame(text: Seq<char>) -> Seq<PieceView> {
    seq![
        PieceView::Text("\x1b[2F\x1b[2K"@),
        PieceView::Painted(Color::Magenta, prompt_mark()),
        PieceView::Text(" "@),
        PieceView::Text(text),
        PieceView::Text("\r\n\x1b[2K"@),
    ]
}

fn digit_char(d: usize) -> (c: char)
    requires
        d < 10,
    ensures
        c == digit(d as nat),
{
    let digits = ['0', '1', '2', '3', '4', '5', '6', '7', '8', '9'];
    let c = digits[d];
    assert(digits@ =~= seq!['0', '1', '2', '3', '4', '5', '6', '7', '8', '9']);
    c
}

fn push_decimal(n: usize, out: &mut Vec<char>)
    ensures
        final(out)@ == old(out)@ + decimal(n as nat),
    decreases n,
{
    if n >= 10 {
        push_decimal(n / 10, out);
    }
    out.push(digit_char(n % 10));
    assert(final(out)@ =~= old(out)@ + decimal(n as nat));
}

/// `n` written in decimal.
pub fn decimal_string(n: usize) -> (r: String)
    ensures
        r@ == decimal(n as nat),
{
    let mut digits: Vec<char> = Vec::new();
    push_decimal(n, &mut digits);
    assert(digits@ =~= decimal(n as nat));
    string_of(&digits)
}

fn text_piece(s: &str) -> (r: Piece)
    ensures
        r@ == PieceView::Text(s@),
{
    Piece::Text(owned(s))
}

/// Appends the frame drawn after `lead` for `buffer` and `path` to `out`.
fn push_frame(lead: &str, buffer: &EditBuffer, path: &String, out: &mut Vec<Piece>)
    requires
        buffer.wf(),
    ensures
        pieces(final(out)@) == pieces(old(out)@) + frame_after(lead@, buffer@, path@),
{
    let len = buffer.text.len();
    let mut frame: Vec<Piece> = Vec::new();
    frame.push(text_piece(lead));
    frame.push(Piece::Painted(Color::Blue, decimal_string(buffer.cursor)));
    frame.push(text_piece("-"));
    frame.push(Piece::Painted(Color::Red, decimal_string(len)));
    frame.push(text_piece(" "));
    frame.push(Piece::Painted(Color::Green, path.clone()));
    frame.push(text_piece("\r\n\x1b[2K"));
    frame.push(Piece::Painted(Color::Magenta, owned("~>")));
    frame.push(text_piece(" "));
    frame.push(Piece::Text(string_of(&buffer.text)));
    if buffer.cursor < len {
        frame.push(Piece::CursorLeft(len - buffer.cursor));
    }
    assert(pieces(frame@) =~= frame_after(lead@, buffer@, path@));
    let ghost before = out@;
    out.append(&mut frame);
    assert(pieces(out@) =~= pieces(before) + frame_after(lead@, buffer@, path@));
}

/// Appends the first frame of a line to `out`.
pub fn push_first_frame(buffer: &EditBuffer, path: &String, out: &mut Vec<Piece>)
    requires
        buffer.wf(),
    ensures
        pieces(final(out)@) == pieces(old(out)@) + first_frame(buffer@, path@),
{
    push_frame("\r\x1b[2K", buffer, path, out);
}

/// Appends a repaint of both lines to `out`.
pub fn push_redraw_frame(buffer: &EditBuffer, path: &String, out: &mut Vec<Piece>)
    requires
        buffer.wf(),
    ensures
        pieces(final(out)@) == pieces(old(out)@) + redraw_frame(buffer@, path@),
{
    push_frame("\x1b[F\x1b[2K", buffer, path, out);
}

/// Appends the frame of the submitted `text` to `out`.
pub fn push_submitted_frame(text: &String, out: &mut Vec<Piece>)
    ensures
        pieces(final(out)@) == pieces(old(out)@) + submitted_frame(text@),
{
    let mut frame: Vec<Piece> = Vec::new();
    frame.push(text_piece("\x1b[2F\x1b[2K"));
    frame.push(Piece::Painted(Color::Magenta, owned("~>")));
    frame.push(text_piece(" "));
    frame.push(Piece::Text(text.clone()));
    frame.push(text_piece("\r\n\x1b[2K"));
    assert(pieces(frame@) =~= submitted_frame(text@));
    let ghost before = out@;
    out.append(&mut frame);
    assert(pieces(out@) =~= pieces(before) + submitted_frame(text@));
}

} // verus!
