//! The line-number gutter: the left-hand column of a code excerpt. All
//! gutter rows of one block share a single width — the maximum digit count
//! over the block's line numbers — so that every `|` rule lines up.
//!
//! The gutter rules are drawn bolded in 8-bit palette color 12.

use vstd::prelude::*;

use crate::style::bold;
use crate::style::bold_seq;
use crate::style::color;
use crate::style::color_seq;
use crate::style::digit_count;
use crate::style::digits_seq;
use crate::style::normal;
use crate::style::normal_seq;
use crate::style::push_digits;
use crate::style::push_spaces;
use crate::style::spaces;
use crate::style::width;

verus! {

/// The 8-bit palette color of gutter rules and location arrows.
pub open spec fn gutter_color() -> u8 {
    12
}

/// A line-number cell: the decimal digits of `lno`, left-aligned, padded
/// with spaces on the right to `w` columns (unpadded if the digits alone
/// already fill or exceed `w`).
pub open spec fn lno_cell(lno: nat, w: nat) -> Seq<char> {
    digits_seq(lno) + if digit_count(lno) <= w {
        spaces((w - digit_count(lno)) as nat)
    } else {
        Seq::<char>::empty()
    }
}

/// A blank gutter row: `w` spaces, then `" |"`, bolded in the gutter color,
/// closed by a line break and a style reset.
pub open spec fn blank_gutter_row(w: nat) -> Seq<char> {
    bold_seq() + color_seq(gutter_color()) + spaces(w) + seq![' ', '|', '\n'] + normal_seq()
}

/// The ellipsis row emitted between non-adjacent line numbers.
pub open spec fn ellipsis_row() -> Seq<char> {
    bold_seq() + color_seq(gutter_color()) + seq!['.', '.', '.', '\n'] + normal_seq()
}

/// The gutter prefix of an underline row: `w` spaces then `" | "`, bolded
/// in the gutter color, followed by a style reset (no line break — the
/// marker's own rendering completes the row).
pub open spec fn underline_gutter(w: nat) -> Seq<char> {
    bold_seq() + color_seq(gutter_color()) + spaces(w) + seq![' ', '|', ' '] + normal_seq()
}

/// The gutter prefix of a source-line row: the line-number cell and `" | "`,
/// bolded in the gutter color, followed by a style reset.
pub open spec fn line_gutter(lno: nat, w: nat) -> Seq<char> {
    bold_seq() + color_seq(gutter_color()) + lno_cell(lno, w) + seq![' ', '|', ' '] + normal_seq()
}

/// Appends a blank gutter row to `out`.
pub fn push_blank_gutter_row(w: usize, out: &mut Vec<char>)
    ensures
        final(out)@ == old(out)@ + blank_gutter_row(w as nat),
{
    bold(out);
    color(12, out);
    push_spaces(out, w);
    out.push(' ');
    out.push('|');
    out.push('\n');
    normal(out);
    assert(out@ =~= old(out)@ + blank_gutter_row(w as nat));
}

/// Appends the ellipsis row to `out`.
pub fn push_ellipsis_row(out: &mut Vec<char>)
    ensures
        final(out)@ == old(out)@ + ellipsis_row(),
{
    bold(out);
    color(12, out);
    out.push('.');
    out.push('.');
    out.push('.');
    out.push('\n');
    normal(out);
    assert(out@ =~= old(out)@ + ellipsis_row());
}

/// Appends the gutter prefix of an underline row to `out`.
pub fn push_underline_gutter(w: usize, out: &mut Vec<char>)
    ensures
        final(out)@ == old(out)@ + underline_gutter(w as nat),
{
    bold(out);
    color(12, out);
    push_spaces(out, w);
    out.push(' ');
    out.push('|');
    out.push(' ');
    normal(out);
    assert(out@ =~= old(out)@ + underline_gutter(w as nat));
}

/// Appends the gutter prefix of a source-line row to `out`.
pub fn push_line_gutter(lno: usize, w: usize, out: &mut Vec<char>)
    ensures
        final(out)@ == old(out)@ + line_gutter(lno as nat, w as nat),
{
    bold(out);
    color(12, out);
    push_digits(out, lno);
    let dw = width(lno);
    if dw <= w {
        push_spaces(out, w - dw);
    }
    out.push(' ');
    out.push('|');
    out.push(' ');
    normal(out);
    assert(out@ =~= old(out)@ + line_gutter(lno as nat, w as nat));
}

} // verus!
