//! Rendering a window of bytes around a divergence index as hex codes plus a
//! character panel, with the divergent byte highlighted.

use vstd::prelude::*;
use vstd::string::StringExecFns;

verus! {

/// The lowercase hexadecimal digit for a value below sixteen.
pub open spec fn hex_digit(n: int) -> char {
    if n == 0 {
        '0'
    } else if n == 1 {
        '1'
    } else if n == 2 {
        '2'
    } else if n == 3 {
        '3'
    } else if n == 4 {
        '4'
    } else if n == 5 {
        '5'
    } else if n == 6 {
        '6'
    } else if n == 7 {
        '7'
    } else if n == 8 {
        '8'
    } else if n == 9 {
        '9'
    } else if n == 10 {
        'a'
    } else if n == 11 {
        'b'
    } else if n == 12 {
        'c'
    } else if n == 13 {
        'd'
    } else if n == 14 {
        'e'
    } else {
        'f'
    }
}

/// Two lowercase hex digits for one byte.
pub open spec fn hex_pair(b: u8) -> Seq<char> {
    seq![hex_digit(b as int / 16), hex_digit(b as int % 16)]
}

/// The lowercase hexadecimal digits of `n`, most significant first, with no
/// leading zeros (a single `'0'` for zero).
pub open spec fn hex_number(n: int) -> Seq<char>
    decreases n,
{
    if n < 16 {
        seq![hex_digit(n)]
    } else {
        hex_number(n / 16) + seq![hex_digit(n % 16)]
    }
}

/// The display character standing for one byte in the character panel.
pub open spec fn panel_char(b: u8) -> char {
    if b == 0 {
        '⋄'
    } else if 0x21 <= b && b <= 0x7e {
        b as char
    } else if b == 0x20 {
        ' '
    } else if b == 0x09 || b == 0x0a || b == 0x0c || b == 0x0d {
        '_'
    } else if b < 0x80 {
        '•'
    } else {
        '×'
    }
}

/// Appends one character to a string. Relies on `String::push`, which appends
/// the given `char` to the end of the `String`.
#[verifier::external_body]
pub(crate) fn push_char(out: &mut String, c: char)
    ensures
        final(out)@ == old(out)@.push(c),
{
    out.push(c);
}

/// Appends the lowercase hex digit of a value below sixteen.
fn push_hex_digit(out: &mut String, n: u8)
    requires
        n < 16,
    ensures
        final(out)@ == old(out)@.push(hex_digit(n as int)),
{
    push_char(out, hex_digit_exec(n));
}

/// The lowercase hexadecimal digit for a value below sixteen.
fn hex_digit_exec(n: u8) -> (r: char)
    requires
        n < 16,
    ensures
        r == hex_digit(n as int),
{
    match n {
        0 => '0',
        1 => '1',
        2 => '2',
        3 => '3',
        4 => '4',
        5 => '5',
        6 => '6',
        7 => '7',
        8 => '8',
        9 => '9',
        10 => 'a',
        11 => 'b',
        12 => 'c',
        13 => 'd',
        14 => 'e',
        _ => 'f',
    }
}

/// Appends the hexadecimal rendering of `n`, without prefix.
pub fn push_hex_number(out: &mut String, n: usize)
    ensures
        final(out)@ == old(out)@ + hex_number(n as int),
    decreases n,
{
    if n < 16 {
        push_hex_digit(out, n as u8);
        assert(out@ =~= old(out)@ + hex_number(n as int));
    } else {
        push_hex_number(out, n / 16);
        push_hex_digit(out, (n % 16) as u8);
        assert(out@ =~= old(out)@ + hex_number(n as int));
    }
}

/// The display character standing for one byte in the character panel: a
/// diamond for the zero byte, printable ASCII as itself, space as space,
/// other ASCII whitespace as an underscore, other ASCII as a bullet and
/// non-ASCII as a cross.
pub fn panel_char_exec(b: u8) -> (r: char)
    ensures
        r == panel_char(b),
{
    if b == 0 {
        '⋄'
    } else if 0x21 <= b && b <= 0x7e {
        b as char
    } else if b == 0x20 {
        ' '
    } else if b == 0x09 || b == 0x0a || b == 0x0c || b == 0x0d {
        '_'
    } else if b < 0x80 {
        '•'
    } else {
        '×'
    }
}

/// Half-width of the rendered window: up to this many bytes are shown on each
/// side of the divergence index.
pub open spec fn half_window() -> int {
    4
}

/// First index of the window around divergence index `i`.
pub open spec fn window_start(i: int) -> int {
    if i >= half_window() {
        i - half_window()
    } else {
        0
    }
}

/// One past the last index of the window around divergence index `i`, for a
/// sequence of length `len`.
pub open spec fn window_end(len: int, i: int) -> int {
    if i + half_window() + 1 <= len {
        i + half_window() + 1
    } else {
        len
    }
}

/// The highlight style opening the divergent byte's hex pair: green on the
/// expected side, red on the actual side.
pub open spec fn highlight_open(expected: bool) -> Seq<char> {
    if expected {
        "\x1b[32m"@
    } else {
        "\x1b[31m"@
    }
}

/// The hex run of the window positions `[w, e)` of `data`: two hex digits per
/// byte, space-separated, the byte at index `i` wrapped in a highlight.
pub open spec fn hex_cells(data: Seq<u8>, w: int, e: int, i: int, expected: bool) -> Seq<char>
    decreases e - w,
{
    if e <= w {
        Seq::empty()
    } else {
        hex_cells(data, w, e - 1, i, expected) + (if e - 1 > w {
            " "@
        } else {
            Seq::<char>::empty()
        }) + (if e - 1 == i {
            highlight_open(expected)
        } else {
            Seq::<char>::empty()
        }) + hex_pair(data[e - 1]) + (if e - 1 == i {
            "\x1b[0m"@
        } else {
            Seq::<char>::empty()
        })
    }
}

/// The character panel of the window positions `[w, e)` of `data`.
pub open spec fn panel_cells(data: Seq<u8>, w: int, e: int) -> Seq<char>
    decreases e - w,
{
    if e <= w {
        Seq::empty()
    } else {
        panel_cells(data, w, e - 1).push(panel_char(data[e - 1]))
    }
}

/// The full rendering of the window of `data` around divergence index `i`:
/// the hex run, one space, then the character panel. When `i` is the length
/// of `data` (the sequence ended first), no byte is highlighted.
pub open spec fn byte_window(data: Seq<u8>, i: int, expected: bool) -> Seq<char> {
    hex_cells(data, window_start(i), window_end(data.len() as int, i), i, expected) + " "@
        + panel_cells(data, window_start(i), window_end(data.len() as int, i))
}

/// Appends the windowed rendering of `data` around divergence index `i`.
#[verifier::rlimit(60)]
pub fn push_byte_window(out: &mut String, data: &[u8], i: usize, expected: bool)
    requires
        i <= data@.len(),
    ensures
        final(out)@ == old(out)@ + byte_window(data@, i as int, expected),
{
    let len: usize = data.len();
    let w: usize = if i >= 4 {
        i - 4
    } else {
        0
    };
    let e: usize = if len - i >= 5 {
        i + 5
    } else {
        len
    };
    assert(w == window_start(i as int));
    assert(e == window_end(data@.len() as int, i as int));
    let mut j: usize = w;
    while j < e
        invariant
            w <= j <= e,
            e <= data@.len(),
            w == window_start(i as int),
            e == window_end(data@.len() as int, i as int),
            out@ == old(out)@ + hex_cells(data@, w as int, j as int, i as int, expected),
        decreases e - j,
    {
        if j > w {
            out.append(" ");
        }
        if j == i {
            if expected {
                out.append("\x1b[32m");
            } else {
                out.append("\x1b[31m");
            }
        }
        let b: u8 = data[j];
        push_hex_digit(out, b / 16);
        push_hex_digit(out, b % 16);
        if j == i {
            out.append("\x1b[0m");
        }
        proof {
            assert(out@ =~= old(out)@ + hex_cells(
                data@,
                w as int,
                j + 1 as int,
                i as int,
                expected,
            ));
        }
        j += 1;
    }
    out.append(" ");
    let ghost mid = out@;
    let mut j: usize = w;
    while j < e
        invariant
            w <= j <= e,
            e <= data@.len(),
            out@ == mid + panel_cells(data@, w as int, j as int),
        decreases e - j,
    {
        let c: char = panel_char_exec(data[j]);
        push_char(out, c);
        j += 1;
    }
    proof {
        assert(out@ =~= old(out)@ + byte_window(data@, i as int, expected));
    }
}

/// `n` repetitions of a three-space group: the indentation that places the
/// caret marker under the divergence column.
pub open spec fn spacer(n: int) -> Seq<char>
    decreases n,
{
    if n <= 0 {
        Seq::empty()
    } else {
        spacer(n - 1) + "   "@
    }
}

/// Appends `n` repetitions of a three-space group.
pub fn push_spacer(out: &mut String, n: usize)
    ensures
        final(out)@ == old(out)@ + spacer(n as int),
{
    let mut j: usize = 0;
    while j < n
        invariant
            0 <= j <= n,
            out@ == old(out)@ + spacer(j as int),
        decreases n - j,
    {
        out.append("   ");
        proof {
            assert(out@ =~= old(out)@ + spacer(j + 1 as int));
        }
        j += 1;
    }
}

/// The window around a valid divergence index never holds more than nine
/// bytes, and it reaches at most four bytes to each side of the index.
pub proof fn lemma_window_clipped(len: int, i: int)
    requires
        0 <= i <= len,
    ensures
        window_end(len, i) - window_start(i) <= 9,
        window_start(i) >= i - 4,
        window_end(len, i) <= i + 5,
        window_end(len, i) <= len,
        window_start(i) <= i,
        window_start(i) <= window_end(len, i),
{
}

/// The character panel of a window lists exactly the window's bytes, each
/// mapped through the display table, in order.
pub proof fn lemma_panel_cells_content(data: Seq<u8>, w: int, e: int)
    requires
        0 <= w <= e <= data.len(),
    ensures
        panel_cells(data, w, e).len() == e - w,
        forall|j: int| 0 <= j < e - w ==> panel_cells(data, w, e)[j] == panel_char(data[w + j]),
    decreases e - w,
{
    if e > w {
        lemma_panel_cells_content(data, w, e - 1);
    }
}

/// When the divergence index sits at most four bytes from each end of the
/// sequence, the window covers the whole sequence, so the rendering includes
/// every byte. (A sequence of at most nine bytes whose divergence index sits
/// nearer to one end is still clipped to at most five bytes past the index.)
pub proof fn lemma_window_covers_all(len: int, i: int)
    requires
        0 <= i <= len,
        i <= 4,
        len <= i + 5,
    ensures
        window_start(i) == 0,
        window_end(len, i) == len,
{
}

} // verus!
