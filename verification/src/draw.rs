use vstd::prelude::*;

verus! {

/// A screen location in pixels, origin at the top-left corner,
/// y growing downward.
#[derive(Clone, Copy, Debug, PartialEq, Eq, Structural)]
pub struct Position {
    pub x: u32,
    pub y: u32,
}

/// An axis-aligned extent in pixels.
#[derive(Clone, Copy, Debug, PartialEq, Eq, Structural)]
pub struct Size {
    pub height: u32,
    pub width: u32,
}

/// An RGBA color with 8-bit channels; the rendering shell scales the
/// channels to whatever its graphics backend expects.
#[derive(Clone, Copy, Debug, PartialEq, Eq, Structural)]
pub struct Color {
    pub r: u8,
    pub g: u8,
    pub b: u8,
    pub a: u8,
}

/// The color every entity is drawn in.
pub open spec fn white() -> Color {
    Color { r: 255, g: 255, b: 255, a: 255 }
}

/// The background color.
pub open spec fn black() -> Color {
    Color { r: 0, g: 0, b: 0, a: 255 }
}

impl Size {
    pub fn set(height: u32, width: u32) -> (s: Size)
        ensures
            s.height == height,
            s.width == width,
    {
        Size { height, width }
    }
}

impl Position {
    pub fn set(x: u32, y: u32) -> (p: Position)
        ensures
            p.x == x,
            p.y == y,
    {
        Position { x, y }
    }
}

/// The capability every drawable entity shares: a position and a
/// size. The draw pass turns these into `DrawCmd`s for the shell.
pub trait Drawable {
    spec fn spec_size(&self) -> Size;

    spec fn spec_position(&self) -> Position;

    fn get_size(&self) -> (s: &Size)
        ensures
            *s == self.spec_size(),
    ;

    fn get_position(&self) -> (p: &Position)
        ensures
            *p == self.spec_position(),
    ;
}

/// One drawing instruction for the rendering shell: a filled
/// rectangle, or a line of text at a left baseline.
pub enum DrawCmd {
    Block { color: Color, position: Position, size: Size },
    Text { color: Color, position: Position, text: Vec<char>, font_size: u32 },
}

/// The decimal digit characters of `n`, most significant first.
pub open spec fn dec_digits(n: int) -> Seq<char>
    decreases n,
{
    if n < 10 {
        seq![digit_char(n)]
    } else {
        dec_digits(n / 10).push(digit_char(n % 10))
    }
}

pub open spec fn digit_char(d: int) -> char {
    if d == 0 { '0' }
    else if d == 1 { '1' }
    else if d == 2 { '2' }
    else if d == 3 { '3' }
    else if d == 4 { '4' }
    else if d == 5 { '5' }
    else if d == 6 { '6' }
    else if d == 7 { '7' }
    else if d == 8 { '8' }
    else { '9' }
}

pub open spec fn score_label() -> Seq<char> {
    seq!['s', 'c', 'o', 'r', 'e', ' ']
}

/// The characters of the score line, e.g. "score 300".
pub open spec fn score_line(score: int) -> Seq<char> {
    score_label() + dec_digits(score)
}

pub open spec fn game_over_text() -> Seq<char> {
    seq!['G', 'a', 'm', 'e', ' ', 'O', 'v', 'e', 'r']
}

pub open spec fn win_text() -> Seq<char> {
    seq!['Y', 'o', 'u', ' ', 'W', 'i', 'n', '!']
}

fn digit_to_char(d: u32) -> (c: char)
    requires
        d < 10,
    ensures
        c == digit_char(d as int),
{
    if d == 0 { '0' }
    else if d == 1 { '1' }
    else if d == 2 { '2' }
    else if d == 3 { '3' }
    else if d == 4 { '4' }
    else if d == 5 { '5' }
    else if d == 6 { '6' }
    else if d == 7 { '7' }
    else if d == 8 { '8' }
    else { '9' }
}

/// Renders `n` in decimal, most significant digit first.
pub fn decimal_chars(n: u32) -> (out: Vec<char>)
    ensures
        out@ == dec_digits(n as int),
    decreases n,
{
    let d = n % 10;
    if n < 10 {
        let mut out: Vec<char> = Vec::new();
        out.push(digit_to_char(d));
        proof {
            assert(out@ =~= dec_digits(n as int));
        }
        out
    } else {
        let mut out = decimal_chars(n / 10);
        out.push(digit_to_char(d));
        proof {
            assert(out@ =~= dec_digits(n as int));
        }
        out
    }
}

/// Builds the score line the gameplay screen shows.
pub fn score_chars(score: u32) -> (out: Vec<char>)
    ensures
        out@ == score_line(score as int),
{
    let mut out: Vec<char> = Vec::new();
    out.push('s');
    out.push('c');
    out.push('o');
    out.push('r');
    out.push('e');
    out.push(' ');
    let mut digits = decimal_chars(score);
    out.append(&mut digits);
    proof {
        assert(out@ =~= score_line(score as int));
    }
    out
}

/// Builds the banner of the defeat screen.
pub fn game_over_chars() -> (out: Vec<char>)
    ensures
        out@ == game_over_text(),
{
    let mut out: Vec<char> = Vec::new();
    out.push('G');
    out.push('a');
    out.push('m');
    out.push('e');
    out.push(' ');
    out.push('O');
    out.push('v');
    out.push('e');
    out.push('r');
    proof {
        assert(out@ =~= game_over_text());
    }
    out
}

/// Builds the banner of the victory screen.
pub fn win_chars() -> (out: Vec<char>)
    ensures
        out@ == win_text(),
{
    let mut out: Vec<char> = Vec::new();
    out.push('Y');
    out.push('o');
    out.push('u');
    out.push(' ');
    out.push('W');
    out.push('i');
    out.push('n');
    out.push('!');
    proof {
        assert(out@ =~= win_text());
    }
    out
}

} // verus!
