//! Composing one frame of the terminal grid as lines of text.

use vstd::prelude::*;
use vstd::string::StringExecFns;
use crate::entities::FallingStar;
use crate::game::{GameState, TermSize};
use crate::text::{replace_at, right_pad, right_padded};

verus! {

/// The glyph the background of the playfield is drawn with.
pub const BACKGROUND: char = '=';

/// The character of a decimal digit.
pub open spec fn digit_char(d: nat) -> char {
    if d == 0 { '0' }
    else if d == 1 { '1' }
    else if d == 2 { '2' }
    else if d == 3 { '3' }
    else if d == 4 { '4' }
    else if d == 5 { '5' }
    else if d == 6 { '6' }
    else if d == 7 { '7' }
    else if d == 8 { '8' }
    else { '9' }
}

/// The decimal notation of `n`, without leading zeros.
pub open spec fn decimal(n: nat) -> Seq<char>
    decreases n,
{
    if n < 10 {
        seq![digit_char(n)]
    } else {
        decimal(n / 10).push(digit_char(n % 10))
    }
}

/// A line of `n` background characters.
pub open spec fn background(n: nat) -> Seq<char> {
    Seq::new(n, |i: int| BACKGROUND)
}

/// The 0-based offset of a star's 1-based column; column 0 stays at 0.
pub open spec fn star_offset(star: FallingStar) -> int {
    if star.col == 0 { 0 } else { star.col - 1 }
}

/// Playfield row `row`, `width` characters wide, with the glyph of each star on
/// that row laid over the background in storage order (the last one wins).
/// A star whose offset lies past the line is not drawn.
pub open spec fn painted_row(stars: Seq<FallingStar>, row: int, width: nat) -> Seq<char>
    decreases stars.len(),
{
    if stars.len() == 0 {
        background(width)
    } else {
        let before = painted_row(stars.drop_last(), row, width);
        let star = stars.last();
        if star.pos == row && star_offset(star) < width {
            before.update(star_offset(star), star.entity)
        } else {
            before
        }
    }
}

/// The status line: the measured frame rate, padded to the terminal's columns.
pub open spec fn status_line(frame_rate: nat, size: TermSize) -> Seq<char> {
    right_padded("Framerate: "@ + decimal(frame_rate), size.cols as nat)
}

/// The first playfield row: a separator row comes first on a terminal of
/// more than ten rows.
pub open spec fn first_row(size: TermSize) -> int {
    if size.rows > 10 { 2 } else { 1 }
}

/// The lines before the playfield: a blank line, the status line, and the
/// separator on a tall terminal.
pub open spec fn header_lines(frame_rate: nat, size: TermSize) -> Seq<Seq<char>> {
    if size.rows > 10 {
        seq![Seq::empty(), status_line(frame_rate, size), background(size.rows as nat)]
    } else {
        seq![Seq::empty(), status_line(frame_rate, size)]
    }
}

/// The whole frame: the header, then one painted line for each row from
/// `first_row` up to the terminal's row count. Playfield lines are as wide as
/// the terminal has rows.
pub open spec fn frame(frame_rate: nat, size: TermSize, stars: Seq<FallingStar>) -> Seq<
    Seq<char>,
> {
    let start = first_row(size);
    let count = if size.rows >= start { size.rows - start } else { 0 };
    header_lines(frame_rate, size) + Seq::new(
        count as nat,
        |k: int| painted_row(stars, start + k, size.rows as nat),
    )
}

/// The character of the decimal digit `d`.
fn digit(d: u16) -> (c: char)
    requires
        d < 10,
    ensures
        c == digit_char(d as nat),
{
    if d == 0 { '0' }
    else if d == 1 { '1' }
    else if d == 2 { '2' }
    else if d == 3 { '3' }
    else if d == 4 { '4' }
    else if d == 5 { '5' }
    else if d == 6 { '6' }
    else if d == 7 { '7' }
    else if d == 8 { '8' }
    else { '9' }
}

/// Appends the decimal notation of `n`.
fn push_decimal(s: &mut String, n: u16)
    ensures
        final(s)@ == old(s)@ + decimal(n as nat),
    decreases n,
{
    if n >= 10 {
        push_decimal(s, n / 10);
    }
    s.push(digit(n % 10));
    proof {
        if n >= 10 {
            assert(decimal(n as nat) == decimal((n / 10) as nat).push(digit_char((n % 10) as nat)));
        }
    }
    assert(s@ =~= old(s)@ + decimal(n as nat));
}

/// A line of `width` background characters.
fn background_line(width: u16) -> (r: String)
    ensures
        r@ == background(width as nat),
{
    let mut r = String::new();
    let mut i: u16 = 0;
    while i < width
        invariant
            i <= width,
            r@ == background(i as nat),
        decreases width - i,
    {
        r.push(BACKGROUND);
        i = i + 1;
        assert(r@ =~= background(i as nat));
    }
    r
}

/// The status line for a measured frame rate.
pub fn status(frame_rate: u16, size: TermSize) -> (r: String)
    ensures
        r@ == status_line(frame_rate as nat, size),
{
    let mut message = String::from_str("Framerate: ");
    push_decimal(&mut message, frame_rate);
    right_pad(message, size.cols as usize)
}

/// Playfield row `row` drawn `width` characters wide with the given stars.
pub fn paint_row(stars: &Vec<FallingStar>, row: u16, width: u16) -> (r: String)
    ensures
        r@ == painted_row(stars@, row as int, width as nat),
{
    let mut line = background_line(width);
    let mut i: usize = 0;
    while i < stars.len()
        invariant
            i <= stars@.len(),
            line@ == painted_row(stars@.subrange(0, i as int), row as int, width as nat),
            line@.len() == width,
        decreases stars.len() - i,
    {
        let star = stars[i];
        let offset: u16 = if star.col == 0 { 0 } else { star.col - 1 };
        assert(stars@.subrange(0, i + 1).drop_last() =~= stars@.subrange(0, i as int));
        if star.pos == row && offset < width {
            replace_at(&mut line, star.entity, offset);
        }
        i = i + 1;
    }
    assert(stars@.subrange(0, stars@.len() as int) =~= stars@);
    line
}

/// The lines of one frame for the measured frame rate, top to bottom; the
/// state is only read.
pub fn render(frame_rate: u16, state: &GameState) -> (r: Vec<String>)
    ensures
        r@.map_values(|l: String| l@) == frame(
            frame_rate as nat,
            state@.size,
            state@.falling_stars,
        ),
{
    let size = state.size();
    let stars = state.falling_stars();
    let mut lines: Vec<String> = Vec::new();
    lines.push(String::new());
    lines.push(status(frame_rate, size));
    let start: u16 = if size.rows > 10 {
        lines.push(background_line(size.rows));
        2
    } else {
        1
    };
    let ghost header = header_lines(frame_rate as nat, size);
    assert(lines@.map_values(|l: String| l@) =~= header);
    let mut row: u16 = start;
    while row < size.rows
        invariant
            start == first_row(size),
            row >= start,
            row == start || row <= size.rows,
            size == state@.size,
            stars@ == state@.falling_stars,
            header.len() + (row - start) == lines@.len(),
            lines@.map_values(|l: String| l@) =~= header + Seq::new(
                (row - start) as nat,
                |k: int| painted_row(stars@, start + k, size.rows as nat),
            ),
        decreases size.rows - row,
    {
        let ghost before = lines@.map_values(|l: String| l@);
        let line = paint_row(stars, row, size.rows);
        lines.push(line);
        assert(lines@.map_values(|l: String| l@) =~= before.push(line@));
        row = row + 1;
        assert(lines@.map_values(|l: String| l@) =~= header + Seq::new(
            (row - start) as nat,
            |k: int| painted_row(stars@, start + k, size.rows as nat),
        ));
    }
    assert(frame(frame_rate as nat, size, stars@) =~= header + Seq::new(
        (row - start) as nat,
        |k: int| painted_row(stars@, start + k, size.rows as nat),
    ));
    lines
}

} // verus!
