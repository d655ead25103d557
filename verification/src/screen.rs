//! What the views write: pieces of output, in the order they are to reach
//! the terminal, and the control sequences that move the cursor and set
//! colors.

use vstd::prelude::*;
use crate::job::Payload;
use crate::job::PayloadModel;
use crate::units::Mass;

verus! {

/// One piece of output.
#[derive(Debug)]
pub enum Piece {
    /// Text for the terminal, to be written as it is.
    Raw(String),
    /// Text for the terminal, to be padded where a character is wider than
    /// one column.
    Wide(String),
    /// The description of a payload, yet to be put into words.
    Payload(Payload),
    /// A mass, yet to be put into words as a number of kilograms.
    Kilograms(Mass),
    /// Text for the error stream.
    Diagnostic(String),
    /// Everything before this piece is to be on the terminal before
    /// anything else happens.
    Flush,
}

/// A piece of output, as plain values.
pub enum PieceModel {
    Raw(Seq<char>),
    Wide(Seq<char>),
    Payload(PayloadModel),
    Kilograms(Mass),
    Diagnostic(Seq<char>),
    Flush,
}

impl View for Piece {
    type V = PieceModel;

    open spec fn view(&self) -> PieceModel {
        match *self {
            Piece::Raw(s) => PieceModel::Raw(s@),
            Piece::Wide(s) => PieceModel::Wide(s@),
            Piece::Payload(p) => PieceModel::Payload(p@),
            Piece::Kilograms(m) => PieceModel::Kilograms(m),
            Piece::Diagnostic(s) => PieceModel::Diagnostic(s@),
            Piece::Flush => PieceModel::Flush,
        }
    }
}

/// The pieces of a sequence, each as plain values.
pub open spec fn pieces_of(pieces: Seq<Piece>) -> Seq<PieceModel> {
    pieces.map_values(|p: Piece| p@)
}

/// Adds one piece at the end of the output.
pub fn emit(out: &mut Vec<Piece>, piece: Piece)
    ensures
        pieces_of(final(out)@) == pieces_of(old(out)@).push(piece@),
{
    out.push(piece);
    assert(pieces_of(out@) =~= pieces_of(old(out)@).push(piece@));
}

/// `n` blanks.
pub open spec fn blanks_text(n: nat) -> Seq<char> {
    Seq::new(n, |i: int| ' ')
}

/// `n` blanks.
pub fn blanks(n: usize) -> (s: String)
    ensures
        s@ == blanks_text(n as nat),
{
    proof {
        reveal_strlit(" ");
    }
    let mut s = String::new();
    let mut i: usize = 0;
    while i < n
        invariant
            i <= n,
            s@ == blanks_text(i as nat),
            " "@ == seq![' '],
        decreases n - i,
    {
        s.append(" ");
        assert(s@ =~= blanks_text((i + 1) as nat));
        i += 1;
    }
    assert(s@ =~= blanks_text(n as nat));
    s
}

/// The characters of a text, one by one.
pub fn chars_of(text: &str) -> (chars: Vec<char>)
    ensures
        chars@ == text@,
{
    let mut chars: Vec<char> = Vec::new();
    for c in it: text.chars()
        invariant
            it.seq() == text@,
            chars@ == it.seq().take(it.index() as int),
    {
        chars.push(c);
        assert(chars@ =~= it.seq().take(it.index() + 1));
    }
    assert(chars@ =~= text@);
    chars
}

/// `String::push`: the character is added at the end of the text.
#[verifier::external_body]
pub(crate) fn push_char(text: &mut String, c: char)
    ensures
        final(text)@ == old(text)@.push(c),
{
    text.push(c)
}

/// The text made of the characters, in their order.
pub fn text_of(chars: &Vec<char>) -> (text: String)
    ensures
        text@ == chars@,
{
    let mut text = String::new();
    let mut i: usize = 0;
    while i < chars.len()
        invariant
            i <= chars.len(),
            text@ == chars@.take(i as int),
        decreases chars.len() - i,
    {
        push_char(&mut text, chars[i]);
        assert(text@ =~= chars@.take(i + 1));
        i += 1;
    }
    assert(chars@.take(chars.len() as int) =~= chars@);
    text
}

/// The character that stands for a digit.
pub open spec fn digit(d: nat) -> char {
    if d == 0 {
        '0'
    } else if d == 1 {
        '1'
    } else if d == 2 {
        '2'
    } else if d == 3 {
        '3'
    } else if d == 4 {
        '4'
    } else if d == 5 {
        '5'
    } else if d == 6 {
        '6'
    } else if d == 7 {
        '7'
    } else if d == 8 {
        '8'
    } else {
        '9'
    }
}

/// A number in decimal digits, without leading zeros.
pub open spec fn decimal(n: nat) -> Seq<char>
    decreases n,
{
    if n < 10 {
        seq![digit(n)]
    } else {
        decimal(n / 10).push(digit(n % 10))
    }
}

/// The sequence that moves the cursor to column `x` of row `y`.
pub open spec fn goto_text(x: u16, y: u16) -> Seq<char> {
    "\x1B["@ + decimal(y as nat) + ";"@ + decimal(x as nat) + "H"@
}

/// The sequence that moves the cursor `n` columns to the right.
pub open spec fn right_text(n: u16) -> Seq<char> {
    "\x1B["@ + decimal(n as nat) + "C"@
}

/// The sequence that clears the whole screen.
pub open spec fn clear_all_text() -> Seq<char> {
    "\x1B[2J"@
}

/// The sequence that clears what follows the cursor.
pub open spec fn clear_after_text() -> Seq<char> {
    "\x1B[J"@
}

/// The sequence that hides the cursor.
pub open spec fn hide_text() -> Seq<char> {
    "\x1B[?25l"@
}

/// The sequence that shows the cursor.
pub open spec fn show_text() -> Seq<char> {
    "\x1B[?25h"@
}

/// The sequence that puts the cursor back where it was saved.
pub open spec fn restore_text() -> Seq<char> {
    "\x1B[u"@
}

/// The sequence that makes the cursor a blinking block.
pub open spec fn blinking_block_text() -> Seq<char> {
    "\x1B[1 q"@
}

/// The sequence that sets black text.
pub open spec fn fg_black_text() -> Seq<char> {
    "\x1B[38;5;0m"@
}

/// The sequence that sets a white background.
pub open spec fn bg_white_text() -> Seq<char> {
    "\x1B[48;5;7m"@
}

/// The sequence that sets the text color back.
pub open spec fn fg_reset_text() -> Seq<char> {
    "\x1B[39m"@
}

/// The sequence that sets the background back.
pub open spec fn bg_reset_text() -> Seq<char> {
    "\x1B[49m"@
}

/// What termion's `cursor::Goto` displays as: the escape character, `[`,
/// the row, `;`, the column and `H`, both numbers in decimal. Its `Display`
/// asserts that the two are not both zero.
#[verifier::external_body]
pub(crate) fn goto(x: u16, y: u16) -> (s: String)
    requires
        x != 0 || y != 0,
    ensures
        s@ == goto_text(x, y),
{
    format!("{}", termion::cursor::Goto(x, y))
}

/// What termion's `cursor::Right` displays as: the escape character, `[`,
/// the count in decimal and `C`.
#[verifier::external_body]
pub(crate) fn right(n: u16) -> (s: String)
    ensures
        s@ == right_text(n),
{
    format!("{}", termion::cursor::Right(n))
}

/// What termion's `clear::All` displays as.
#[verifier::external_body]
pub(crate) fn clear_all() -> (s: String)
    ensures
        s@ == clear_all_text(),
{
    format!("{}", termion::clear::All)
}

/// What termion's `clear::AfterCursor` displays as.
#[verifier::external_body]
pub(crate) fn clear_after() -> (s: String)
    ensures
        s@ == clear_after_text(),
{
    format!("{}", termion::clear::AfterCursor)
}

/// What termion's `cursor::Hide` displays as.
#[verifier::external_body]
pub(crate) fn hide_cursor() -> (s: String)
    ensures
        s@ == hide_text(),
{
    format!("{}", termion::cursor::Hide)
}

/// What termion's `cursor::Show` displays as.
#[verifier::external_body]
pub(crate) fn show_cursor() -> (s: String)
    ensures
        s@ == show_text(),
{
    format!("{}", termion::cursor::Show)
}

/// What termion's `cursor::Restore` displays as.
#[verifier::external_body]
pub(crate) fn restore_cursor() -> (s: String)
    ensures
        s@ == restore_text(),
{
    format!("{}", termion::cursor::Restore)
}

/// What termion's `cursor::BlinkingBlock` displays as.
#[verifier::external_body]
pub(crate) fn blinking_block() -> (s: String)
    ensures
        s@ == blinking_block_text(),
{
    format!("{}", termion::cursor::BlinkingBlock)
}

/// What termion's `color::Fg(color::Black)` displays as.
#[verifier::external_body]
pub(crate) fn fg_black() -> (s: String)
    ensures
        s@ == fg_black_text(),
{
    format!("{}", termion::color::Fg(termion::color::Black))
}

/// What termion's `color::Bg(color::White)` displays as.
#[verifier::external_body]
pub(crate) fn bg_white() -> (s: String)
    ensures
        s@ == bg_white_text(),
{
    format!("{}", termion::color::Bg(termion::color::White))
}

/// What termion's `color::Fg(color::Reset)` displays as.
#[verifier::external_body]
pub(crate) fn fg_reset() -> (s: String)
    ensures
        s@ == fg_reset_text(),
{
    format!("{}", termion::color::Fg(termion::color::Reset))
}

/// What termion's `color::Bg(color::Reset)` displays as.
#[verifier::external_body]
pub(crate) fn bg_reset() -> (s: String)
    ensures
        s@ == bg_reset_text(),
{
    format!("{}", termion::color::Bg(termion::color::Reset))
}

} // verus!
