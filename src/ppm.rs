//! Plain-text (`P3`) image encoding of quantized pixels.
use vstd::prelude::*;
use vstd::string::*;

verus! {

/// The character of the decimal digit `d` (`d < 10`).
pub open spec fn digit_char(d: nat) -> char {
    if d == 0 {
        '0'
    } else if d == 1 {
        '1'
    } else if d == 2 {
        '2'
    } else if d == 3 {
        '3'
    } else if d == 4 {
        '4'
    } else if d == 5 {
        '5'
    } else if d == 6 {
        '6'
    } else if d == 7 {
        '7'
    } else if d == 8 {
        '8'
    } else {
        '9'
    }
}

/// The decimal notation of `n`, most significant digit first, without leading zeros.
pub open spec fn decimal(n: nat) -> Seq<char>
    decreases n,
{
    if n < 10 {
        seq![digit_char(n)]
    } else {
        decimal(n / 10).push(digit_char(n % 10))
    }
}

/// Appends the digit `d` to `s`.
fn push_digit(s: &mut String, d: usize)
    requires
        d < 10,
    ensures
        final(s)@ == old(s)@.push(digit_char(d as nat)),
{
    proof {
        reveal_strlit("0");
        reveal_strlit("1");
        reveal_strlit("2");
        reveal_strlit("3");
        reveal_strlit("4");
        reveal_strlit("5");
        reveal_strlit("6");
        reveal_strlit("7");
        reveal_strlit("8");
        reveal_strlit("9");
    }
    let lit = match d {
        0 => "0",
        1 => "1",
        2 => "2",
        3 => "3",
        4 => "4",
        5 => "5",
        6 => "6",
        7 => "7",
        8 => "8",
        _ => "9",
    };
    s.append(lit);
    assert(s@ =~= old(s)@.push(digit_char(d as nat)));
}

/// Appends the decimal notation of `n` to `s`.
fn push_decimal(s: &mut String, n: usize)
    ensures
        final(s)@ == old(s)@ + decimal(n as nat),
    decreases n,
{
    if n >= 10 {
        push_decimal(s, n / 10);
    }
    push_digit(s, n % 10);
    assert(s@ =~= old(s)@ + decimal(n as nat));
}

/// A pixel quantized to one byte per channel.
#[derive(Clone, Copy, Debug, PartialEq, Eq, Structural)]
pub struct Rgb8 {
    pub r: u8,
    pub g: u8,
    pub b: u8,
}

/// A pixel's channels as text: `"<r> <g> <b>"`.
pub open spec fn pixel_text(p: Rgb8) -> Seq<char> {
    decimal(p.r as nat) + seq![' '] + decimal(p.g as nat) + seq![' '] + decimal(p.b as nat)
}

/// The header of an image of `width` by `height` pixels: `"P3\n<width> <height>\n255\n"`.
pub open spec fn ppm_header(width: nat, height: nat) -> Seq<char> {
    seq!['P', '3', '\n'] + decimal(width) + seq![' '] + decimal(height) + seq![
        '\n',
        '2',
        '5',
        '5',
        '\n',
    ]
}

/// The lines of the first `n` pixels, left to right, of row `j`, where
/// `columns[i][j]` is the pixel in column `i` and row `j`.
pub open spec fn row_text(columns: Seq<Vec<Rgb8>>, j: int, n: nat) -> Seq<char>
    decreases n,
{
    if n == 0 {
        Seq::empty()
    } else {
        row_text(columns, j, (n - 1) as nat) + pixel_text(columns[n - 1]@[j]) + seq!['\n']
    }
}

/// The lines of the first `m` rows, top to bottom, each `width` pixels wide.
pub open spec fn rows_text(columns: Seq<Vec<Rgb8>>, width: nat, m: nat) -> Seq<char>
    decreases m,
{
    if m == 0 {
        Seq::empty()
    } else {
        rows_text(columns, width, (m - 1) as nat) + row_text(columns, m - 1, width)
    }
}

/// The whole image: the header, then one line per pixel, row by row from the
/// top, each row from the left.
pub open spec fn ppm_image(columns: Seq<Vec<Rgb8>>, width: nat, height: nat) -> Seq<char> {
    ppm_header(width, height) + rows_text(columns, width, height)
}

/// `columns` holds `width` columns of `height` pixels each.
pub open spec fn is_grid(columns: Seq<Vec<Rgb8>>, width: nat, height: nat) -> bool {
    &&& columns.len() == width
    &&& forall|i: int| 0 <= i < width ==> (#[trigger] columns[i])@.len() == height
}

impl Rgb8 {
    pub fn new(r: u8, g: u8, b: u8) -> (p: Rgb8)
        ensures
            p == (Rgb8 { r, g, b }),
    {
        Rgb8 { r, g, b }
    }

    /// The pixel as the text of one image line, without its line break.
    pub fn to_s(&self) -> (s: String)
        ensures
            s@ == pixel_text(*self),
    {
        let mut s = String::new();
        push_pixel(&mut s, self);
        s
    }
}

/// Appends the text of pixel `p` to `s`.
fn push_pixel(s: &mut String, p: &Rgb8)
    ensures
        final(s)@ == old(s)@ + pixel_text(*p),
{
    proof {
        reveal_strlit(" ");
    }
    push_decimal(s, p.r as usize);
    s.append(" ");
    push_decimal(s, p.g as usize);
    s.append(" ");
    push_decimal(s, p.b as usize);
    assert(s@ =~= old(s)@ + pixel_text(*p));
}

/// Encodes an image of `width` by `height` pixels, where `columns[i][j]` is
/// the pixel in column `i` and row `j` (row 0 at the top).
pub fn encode_ppm(width: usize, height: usize, columns: &Vec<Vec<Rgb8>>) -> (text: String)
    requires
        is_grid(columns@, width as nat, height as nat),
    ensures
        text@ == ppm_image(columns@, width as nat, height as nat),
{
    proof {
        reveal_strlit("P3\n");
        reveal_strlit(" ");
        reveal_strlit("\n255\n");
    }
    let mut text = String::new();
    text.append("P3\n");
    push_decimal(&mut text, width);
    text.append(" ");
    push_decimal(&mut text, height);
    text.append("\n255\n");
    assert(text@ =~= ppm_header(width as nat, height as nat));
    let mut j: usize = 0;
    while j < height
        invariant
            j <= height,
            is_grid(columns@, width as nat, height as nat),
            text@ == ppm_header(width as nat, height as nat) + rows_text(
                columns@,
                width as nat,
                j as nat,
            ),
        decreases height - j,
    {
        let ghost before = text@;
        let mut i: usize = 0;
        while i < width
            invariant
                i <= width,
                j < height,
                is_grid(columns@, width as nat, height as nat),
                text@ == before + row_text(columns@, j as int, i as nat),
            decreases width - i,
        {
            proof {
                reveal_strlit("\n");
            }
            push_pixel(&mut text, &columns[i][j]);
            text.append("\n");
            assert(text@ =~= before + row_text(columns@, j as int, (i + 1) as nat));
            i = i + 1;
        }
        assert(text@ =~= ppm_header(width as nat, height as nat) + rows_text(
            columns@,
            width as nat,
            (j + 1) as nat,
        ));
        j = j + 1;
    }
    text
}

} // verus!
