//! Quantization of an RGB triple to the nearest of the 16 standard ANSI
//! terminal colors, and tagging of a text with that color through the
//! `colored` crate.

use vstd::prelude::*;

verus! {

/// One of the 16 standard ANSI terminal foreground colors: the 8 base
/// colors and their bright counterparts.
#[derive(Debug, PartialEq, Eq, Structural, Clone, Copy)]
pub enum AnsiColor {
    Black,
    Red,
    Green,
    Yellow,
    Blue,
    Magenta,
    Cyan,
    White,
    BrightBlack,
    BrightRed,
    BrightGreen,
    BrightYellow,
    BrightBlue,
    BrightMagenta,
    BrightCyan,
    BrightWhite,
}

/// The reference palette: the VGA channel values of the ANSI color at
/// index `i`, in the order black, red, green, yellow, blue, magenta, cyan,
/// white, then their bright counterparts.
pub open spec fn palette_rgb(i: int) -> (int, int, int) {
    if i == 0 {
        (0int, 0int, 0int)
    } else if i == 1 {
        (170int, 0int, 0int)
    } else if i == 2 {
        (0int, 170int, 0int)
    } else if i == 3 {
        (170int, 85int, 0int)
    } else if i == 4 {
        (0int, 0int, 170int)
    } else if i == 5 {
        (170int, 0int, 170int)
    } else if i == 6 {
        (0int, 170int, 170int)
    } else if i == 8 {
        (128int, 128int, 128int)
    } else if i == 9 {
        (255int, 0int, 0int)
    } else if i == 10 {
        (0int, 255int, 0int)
    } else if i == 11 {
        (255int, 255int, 0int)
    } else if i == 12 {
        (0int, 0int, 255int)
    } else if i == 13 {
        (255int, 0int, 255int)
    } else if i == 14 {
        (0int, 255int, 255int)
    } else if i == 15 {
        (255int, 255int, 255int)
    } else {
        (170int, 170int, 170int)
    }
}

/// Squared Euclidean distance between `(r, g, b)` and the palette entry at
/// index `i`.
pub open spec fn color_distance(r: int, g: int, b: int, i: int) -> int {
    (r - palette_rgb(i).0) * (r - palette_rgb(i).0) + (g - palette_rgb(i).1) * (g - palette_rgb(
        i,
    ).1) + (b - palette_rgb(i).2) * (b - palette_rgb(i).2)
}

/// Index of the palette entry nearest to `(r, g, b)` among the first `k`
/// entries; the earliest index wins a tie.
pub open spec fn nearest_upto(r: int, g: int, b: int, k: int) -> int
    recommends
        1 <= k <= 16,
    decreases k,
{
    if k <= 1 {
        0
    } else {
        let prev = nearest_upto(r, g, b, k - 1);
        if color_distance(r, g, b, k - 1) < color_distance(r, g, b, prev) {
            k - 1
        } else {
            prev
        }
    }
}

/// The ANSI color at palette index `i`.
pub open spec fn color_of_index(i: int) -> AnsiColor {
    if i == 0 {
        AnsiColor::Black
    } else if i == 1 {
        AnsiColor::Red
    } else if i == 2 {
        AnsiColor::Green
    } else if i == 3 {
        AnsiColor::Yellow
    } else if i == 4 {
        AnsiColor::Blue
    } else if i == 5 {
        AnsiColor::Magenta
    } else if i == 6 {
        AnsiColor::Cyan
    } else if i == 8 {
        AnsiColor::BrightBlack
    } else if i == 9 {
        AnsiColor::BrightRed
    } else if i == 10 {
        AnsiColor::BrightGreen
    } else if i == 11 {
        AnsiColor::BrightYellow
    } else if i == 12 {
        AnsiColor::BrightBlue
    } else if i == 13 {
        AnsiColor::BrightMagenta
    } else if i == 14 {
        AnsiColor::BrightCyan
    } else if i == 15 {
        AnsiColor::BrightWhite
    } else {
        AnsiColor::White
    }
}

/// The ANSI color nearest to `(r, g, b)` over the whole reference palette.
pub open spec fn nearest_color(r: u8, g: u8, b: u8) -> AnsiColor {
    color_of_index(nearest_upto(r as int, g as int, b as int, 16))
}

/// A square of a channel difference stays well inside `i32`.
proof fn lemma_square_bound(x: int)
    by (nonlinear_arith)
    requires
        -255 <= x <= 255,
    ensures
        0 <= x * x <= 65025,
{
}

/// The reference palette entry at `i`, as executable channel values.
fn palette_entry(i: usize) -> (c: (i32, i32, i32))
    requires
        i < 16,
    ensures
        c.0 as int == palette_rgb(i as int).0,
        c.1 as int == palette_rgb(i as int).1,
        c.2 as int == palette_rgb(i as int).2,
        0 <= c.0 <= 255 && 0 <= c.1 <= 255 && 0 <= c.2 <= 255,
{
    match i {
        0 => (0, 0, 0),
        1 => (170, 0, 0),
        2 => (0, 170, 0),
        3 => (170, 85, 0),
        4 => (0, 0, 170),
        5 => (170, 0, 170),
        6 => (0, 170, 170),
        7 => (170, 170, 170),
        8 => (128, 128, 128),
        9 => (255, 0, 0),
        10 => (0, 255, 0),
        11 => (255, 255, 0),
        12 => (0, 0, 255),
        13 => (255, 0, 255),
        14 => (0, 255, 255),
        _ => (255, 255, 255),
    }
}

/// The ANSI color at palette index `i`, as an executable value.
fn index_color(i: usize) -> (c: AnsiColor)
    requires
        i < 16,
    ensures
        c == color_of_index(i as int),
{
    match i {
        0 => AnsiColor::Black,
        1 => AnsiColor::Red,
        2 => AnsiColor::Green,
        3 => AnsiColor::Yellow,
        4 => AnsiColor::Blue,
        5 => AnsiColor::Magenta,
        6 => AnsiColor::Cyan,
        7 => AnsiColor::White,
        8 => AnsiColor::BrightBlack,
        9 => AnsiColor::BrightRed,
        10 => AnsiColor::BrightGreen,
        11 => AnsiColor::BrightYellow,
        12 => AnsiColor::BrightBlue,
        13 => AnsiColor::BrightMagenta,
        14 => AnsiColor::BrightCyan,
        _ => AnsiColor::BrightWhite,
    }
}

/// Quantizes `(r, g, b)` to the nearest ANSI color: a linear minimum search
/// over the 16 reference entries by squared Euclidean distance, the earliest
/// entry winning ties. Total and deterministic: every input maps to exactly
/// one of the 16 tags.
pub fn nearest_ansi(r: u8, g: u8, b: u8) -> (c: AnsiColor)
    ensures
        c == nearest_color(r, g, b),
{
    let ri = r as i32;
    let gi = g as i32;
    let bi = b as i32;
    let first = palette_entry(0);
    proof {
        lemma_square_bound(ri - first.0);
        lemma_square_bound(gi - first.1);
        lemma_square_bound(bi - first.2);
    }
    let mut best_distance: i32 = (ri - first.0) * (ri - first.0) + (gi - first.1) * (gi - first.1)
        + (bi - first.2) * (bi - first.2);
    let mut best_index: usize = 0;
    let mut i: usize = 1;
    while i < 16
        invariant
            1 <= i <= 16,
            best_index < i,
            ri == r as int && gi == g as int && bi == b as int,
            best_index as int == nearest_upto(r as int, g as int, b as int, i as int),
            best_distance as int == color_distance(r as int, g as int, b as int, best_index as int),
        decreases 16 - i,
    {
        let entry = palette_entry(i);
        proof {
            lemma_square_bound(ri - entry.0);
            lemma_square_bound(gi - entry.1);
            lemma_square_bound(bi - entry.2);
        }
        let d: i32 = (ri - entry.0) * (ri - entry.0) + (gi - entry.1) * (gi - entry.1) + (bi
            - entry.2) * (bi - entry.2);
        if d < best_distance {
            best_distance = d;
            best_index = i;
        }
        i = i + 1;
    }
    index_color(best_index)
}

/// The nearest index over the first `k` entries is itself below `k`, its
/// distance is minimal among them, and every earlier entry is strictly
/// farther: the scan is total and the earliest entry wins ties.
pub proof fn lemma_nearest_upto_minimal(r: int, g: int, b: int, k: int)
    requires
        1 <= k <= 16,
    ensures
        0 <= nearest_upto(r, g, b, k) < k,
        forall|j: int|
            0 <= j < k ==> color_distance(r, g, b, nearest_upto(r, g, b, k)) <= #[trigger] color_distance(
                r,
                g,
                b,
                j,
            ),
        forall|j: int|
            0 <= j < nearest_upto(r, g, b, k) ==> color_distance(r, g, b, nearest_upto(r, g, b, k))
                < #[trigger] color_distance(r, g, b, j),
    decreases k,
{
    if k > 1 {
        lemma_nearest_upto_minimal(r, g, b, k - 1);
    }
}

/// Squares of the channel differences that occur between reference palette
/// entries, proved once so that concrete distances evaluate.
proof fn lemma_square_table(x: int)
    by (nonlinear_arith)
    ensures
        x == 0 ==> x * x == 0,
        x == 42 || x == -42 ==> x * x == 1764,
        x == 43 || x == -43 ==> x * x == 1849,
        x == 85 || x == -85 ==> x * x == 7225,
        x == 127 || x == -127 ==> x * x == 16129,
        x == 128 || x == -128 ==> x * x == 16384,
        x == 170 || x == -170 ==> x * x == 28900,
        x == 255 || x == -255 ==> x * x == 65025,
{
}

/// The same square values, instantiated for every square the solver meets.
broadcast proof fn lemma_square_eval(x: int)
    ensures
        x == 0 ==> #[trigger] (x * x) == 0,
        x == 42 || x == -42 ==> x * x == 1764,
        x == 43 || x == -43 ==> x * x == 1849,
        x == 85 || x == -85 ==> x * x == 7225,
        x == 127 || x == -127 ==> x * x == 16129,
        x == 128 || x == -128 ==> x * x == 16384,
        x == 170 || x == -170 ==> x * x == 28900,
        x == 255 || x == -255 ==> x * x == 65025,
{
    lemma_square_table(x);
}

/// Law: quantizing the exact channel values of any reference palette entry
/// yields that entry's own index, and so that entry's own tag.
#[verifier::rlimit(100)]
pub proof fn lemma_palette_exact(i: int)
    requires
        0 <= i < 16,
    ensures
        nearest_upto(palette_rgb(i).0, palette_rgb(i).1, palette_rgb(i).2, 16) == i,
        nearest_color(
            palette_rgb(i).0 as u8,
            palette_rgb(i).1 as u8,
            palette_rgb(i).2 as u8,
        ) == color_of_index(i),
{
    broadcast use lemma_square_eval;

    reveal_with_fuel(nearest_upto, 17);
    if i == 0 {
        assert(nearest_upto(0, 0, 0, 16) == 0);
    } else if i == 1 {
        assert(nearest_upto(170, 0, 0, 16) == 1);
    } else if i == 2 {
        assert(nearest_upto(0, 170, 0, 16) == 2);
    } else if i == 3 {
        assert(nearest_upto(170, 85, 0, 16) == 3);
    } else if i == 4 {
        assert(nearest_upto(0, 0, 170, 16) == 4);
    } else if i == 5 {
        assert(nearest_upto(170, 0, 170, 16) == 5);
    } else if i == 6 {
        assert(nearest_upto(0, 170, 170, 16) == 6);
    } else if i == 7 {
        assert(nearest_upto(170, 170, 170, 16) == 7);
    } else if i == 8 {
        assert(nearest_upto(128, 128, 128, 16) == 8);
    } else if i == 9 {
        assert(nearest_upto(255, 0, 0, 16) == 9);
    } else if i == 10 {
        assert(nearest_upto(0, 255, 0, 16) == 10);
    } else if i == 11 {
        assert(nearest_upto(255, 255, 0, 16) == 11);
    } else if i == 12 {
        assert(nearest_upto(0, 0, 255, 16) == 12);
    } else if i == 13 {
        assert(nearest_upto(255, 0, 255, 16) == 13);
    } else if i == 14 {
        assert(nearest_upto(0, 255, 255, 16) == 14);
    } else {
        assert(nearest_upto(255, 255, 255, 16) == 15);
    }
}

/// The name of the color, in the form colored's color parser accepts.
pub open spec fn ansi_color_name(c: AnsiColor) -> Seq<char> {
    match c {
        AnsiColor::Black => "black"@,
        AnsiColor::Red => "red"@,
        AnsiColor::Green => "green"@,
        AnsiColor::Yellow => "yellow"@,
        AnsiColor::Blue => "blue"@,
        AnsiColor::Magenta => "magenta"@,
        AnsiColor::Cyan => "cyan"@,
        AnsiColor::White => "white"@,
        AnsiColor::BrightBlack => "bright black"@,
        AnsiColor::BrightRed => "bright red"@,
        AnsiColor::BrightGreen => "bright green"@,
        AnsiColor::BrightYellow => "bright yellow"@,
        AnsiColor::BrightBlue => "bright blue"@,
        AnsiColor::BrightMagenta => "bright magenta"@,
        AnsiColor::BrightCyan => "bright cyan"@,
        AnsiColor::BrightWhite => "bright white"@,
    }
}

/// The executable color name.
pub fn color_name(c: AnsiColor) -> (r: &'static str)
    ensures
        r@ == ansi_color_name(c),
{
    match c {
        AnsiColor::Black => "black",
        AnsiColor::Red => "red",
        AnsiColor::Green => "green",
        AnsiColor::Yellow => "yellow",
        AnsiColor::Blue => "blue",
        AnsiColor::Magenta => "magenta",
        AnsiColor::Cyan => "cyan",
        AnsiColor::White => "white",
        AnsiColor::BrightBlack => "bright black",
        AnsiColor::BrightRed => "bright red",
        AnsiColor::BrightGreen => "bright green",
        AnsiColor::BrightYellow => "bright yellow",
        AnsiColor::BrightBlue => "bright blue",
        AnsiColor::BrightMagenta => "bright magenta",
        AnsiColor::BrightCyan => "bright cyan",
        AnsiColor::BrightWhite => "bright white",
    }
}

#[verifier::external_type_specification]
#[verifier::external_body]
pub struct ExColoredString(colored::ColoredString);

/// What colored builds when a text is tagged with a color name: a value
/// determined by the text and the name alone.
pub uninterp spec fn colored_text(text: Seq<char>, color_name: Seq<char>) -> colored::ColoredString;

/// Relies on colored's `Colorize::color` for `&str`: it builds the
/// `ColoredString` from the input text and the parsed color name alone.
#[verifier::external_body]
fn colorize(input: &str, name: &str) -> (r: colored::ColoredString)
    ensures
        r == colored_text(input@, name@),
{
    colored::Colorize::color(input, name)
}

/// Tags `input` with the ANSI color nearest to `(r, g, b)` over the VGA
/// reference palette.
pub fn rgb_to_ansi(input: &str, r: u8, g: u8, b: u8) -> (out: colored::ColoredString)
    ensures
        out == colored_text(input@, ansi_color_name(nearest_color(r, g, b))),
{
    let tag = nearest_ansi(r, g, b);
    let name = color_name(tag);
    colorize(input, name)
}

} // verus!
