//! Inline expectations and the source position that identifies them.

use vstd::prelude::*;
use vstd::string::StringExecFns;

use crate::render::push_char;

verus! {

/// Bytes.
///
/// Self-updating hasn't been implemented yet.
#[derive(Debug)]
pub struct Expect<'a> {
    pub position: Position,
    pub data: &'a [u8],
}

/// Position of an inline expectation in the source file.
#[derive(Debug)]
pub struct Position {
    pub file: &'static str,
    pub line: u32,
    pub column: u32,
}

/// The decimal digits of `n`, most significant first, with no leading zeros
/// (a single `'0'` for zero).
pub open spec fn dec_number(n: int) -> Seq<char>
    decreases n,
{
    if n < 10 {
        seq![dec_digit(n)]
    } else {
        dec_number(n / 10) + seq![dec_digit(n % 10)]
    }
}

/// The decimal digit character for a value below ten.
pub open spec fn dec_digit(n: int) -> char {
    if n == 0 {
        '0'
    } else if n == 1 {
        '1'
    } else if n == 2 {
        '2'
    } else if n == 3 {
        '3'
    } else if n == 4 {
        '4'
    } else if n == 5 {
        '5'
    } else if n == 6 {
        '6'
    } else if n == 7 {
        '7'
    } else if n == 8 {
        '8'
    } else {
        '9'
    }
}

/// The textual form of a position: `file:line:column`.
pub open spec fn position_text(file: Seq<char>, line: int, column: int) -> Seq<char> {
    file + ":"@ + dec_number(line) + ":"@ + dec_number(column)
}

/// The decimal digit character for a value below ten.
fn dec_digit_exec(n: u32) -> (r: char)
    requires
        n < 10,
    ensures
        r == dec_digit(n as int),
{
    match n {
        0 => '0',
        1 => '1',
        2 => '2',
        3 => '3',
        4 => '4',
        5 => '5',
        6 => '6',
        7 => '7',
        8 => '8',
        _ => '9',
    }
}

/// Appends the decimal rendering of `n`.
fn push_dec_number(out: &mut String, n: u32)
    ensures
        final(out)@ == old(out)@ + dec_number(n as int),
    decreases n,
{
    if n < 10 {
        push_char(out, dec_digit_exec(n));
        assert(out@ =~= old(out)@ + dec_number(n as int));
    } else {
        push_dec_number(out, n / 10);
        push_char(out, dec_digit_exec(n % 10));
        assert(out@ =~= old(out)@ + dec_number(n as int));
    }
}

impl Position {
    /// The textual form of the position: `file:line:column`.
    pub fn display_string(&self) -> (r: String)
        ensures
            r@ == position_text(self.file@, self.line as int, self.column as int),
    {
        let mut out: String = String::new();
        out.append(self.file);
        out.append(":");
        push_dec_number(&mut out, self.line);
        out.append(":");
        push_dec_number(&mut out, self.column);
        proof {
            assert(out@ =~= position_text(self.file@, self.line as int, self.column as int));
        }
        out
    }
}

} // verus!
