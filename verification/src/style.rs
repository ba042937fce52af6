//! Styling primitives: ANSI escape sequences for bold, 8-bit color, and
//! reset, plus decimal rendering of numbers and the digit-width ("gutter
//! width") calculation that aligns line-number columns.

use vstd::prelude::*;

verus! {

/// The character sequence `ESC [ 1 m`, which switches the terminal to bold.
pub open spec fn bold_seq() -> Seq<char> {
    seq!['\x1b', '[', '1', 'm']
}

/// The character sequence `ESC [ 0 m`, which resets all styling.
pub open spec fn normal_seq() -> Seq<char> {
    seq!['\x1b', '[', '0', 'm']
}

/// The decimal digit character for a value below ten.
pub open spec fn digit_char(d: nat) -> char
    recommends
        d < 10,
{
    if d == 0 {
        '0'
    } else if d == 1 {
        '1'
    } else if d == 2 {
        '2'
    } else if d == 3 {
        '3'
    } else if d == 4 {
        '4'
    } else if d == 5 {
        '5'
    } else if d == 6 {
        '6'
    } else if d == 7 {
        '7'
    } else if d == 8 {
        '8'
    } else {
        '9'
    }
}

/// The decimal digits of `n`, most significant first, with no leading zeros
/// (the single digit `'0'` for zero).
pub open spec fn digits_seq(n: nat) -> Seq<char>
    decreases n,
{
    if n < 10 {
        seq![digit_char(n)]
    } else {
        digits_seq(n / 10).push(digit_char(n % 10))
    }
}

/// The number of decimal digits of `n` (at least one).
pub open spec fn digit_count(n: nat) -> nat {
    digits_seq(n).len()
}

/// The character sequence `ESC [ 3 8 ; 5 ; <c> m`, which selects 8-bit
/// palette color `c`.
pub open spec fn color_seq(c: u8) -> Seq<char> {
    seq!['\x1b', '[', '3', '8', ';', '5', ';'] + digits_seq(c as nat) + seq!['m']
}

/// `n` copies of the character `c`.
pub open spec fn repeat_char(c: char, n: nat) -> Seq<char>
    decreases n,
{
    if n == 0 {
        Seq::<char>::empty()
    } else {
        repeat_char(c, (n - 1) as nat).push(c)
    }
}

/// `n` space characters.
pub open spec fn spaces(n: nat) -> Seq<char> {
    repeat_char(' ', n)
}

/// Every digit count is at least one and satisfies the obvious recursion.
pub proof fn lemma_digit_count_unfold(n: nat)
    ensures
        n < 10 ==> digit_count(n) == 1,
        n >= 10 ==> digit_count(n) == 1 + digit_count(n / 10),
        digit_count(n) >= 1,
    decreases n,
{
    if n >= 10 {
        lemma_digit_count_unfold(n / 10);
    }
}

/// A crude size bound on the digit count, enough to rule out overflow when
/// counting digits of a machine integer.
pub proof fn lemma_digit_count_le_linear(n: nat)
    ensures
        digit_count(n) <= n + 1,
    decreases n,
{
    lemma_digit_count_unfold(n);
    if n >= 10 {
        lemma_digit_count_le_linear(n / 10);
    }
}

/// Each of the `n` repeated characters is `c`.
pub proof fn lemma_repeat_char_index(c: char, n: nat)
    ensures
        repeat_char(c, n).len() == n,
        forall|i: int| 0 <= i < n ==> repeat_char(c, n)[i] == c,
    decreases n,
{
    if n > 0 {
        lemma_repeat_char_index(c, (n - 1) as nat);
    }
}

/// Appends the escape sequence that switches to bold.
pub fn bold(out: &mut Vec<char>)
    ensures
        final(out)@ == old(out)@ + bold_seq(),
{
    out.push('\x1b');
    out.push('[');
    out.push('1');
    out.push('m');
    assert(out@ =~= old(out)@ + bold_seq());
}

/// Appends the escape sequence that resets all styling.
pub fn normal(out: &mut Vec<char>)
    ensures
        final(out)@ == old(out)@ + normal_seq(),
{
    out.push('\x1b');
    out.push('[');
    out.push('0');
    out.push('m');
    assert(out@ =~= old(out)@ + normal_seq());
}

/// The decimal digit character for `d < 10`.
fn digit_to_char(d: usize) -> (c: char)
    requires
        d < 10,
    ensures
        c == digit_char(d as nat),
{
    if d == 0 {
        '0'
    } else if d == 1 {
        '1'
    } else if d == 2 {
        '2'
    } else if d == 3 {
        '3'
    } else if d == 4 {
        '4'
    } else if d == 5 {
        '5'
    } else if d == 6 {
        '6'
    } else if d == 7 {
        '7'
    } else if d == 8 {
        '8'
    } else {
        '9'
    }
}

/// Appends the decimal digits of `n`, most significant first.
pub fn push_digits(out: &mut Vec<char>, n: usize)
    ensures
        final(out)@ == old(out)@ + digits_seq(n as nat),
    decreases n,
{
    if n < 10 {
        out.push(digit_to_char(n));
        assert(out@ =~= old(out)@ + digits_seq(n as nat));
    } else {
        push_digits(out, n / 10);
        out.push(digit_to_char(n % 10));
        assert(out@ =~= old(out)@ + digits_seq(n as nat));
    }
}

/// Appends the escape sequence that selects 8-bit palette color `c`.
pub fn color(c: u8, out: &mut Vec<char>)
    ensures
        final(out)@ == old(out)@ + color_seq(c),
{
    out.push('\x1b');
    out.push('[');
    out.push('3');
    out.push('8');
    out.push(';');
    out.push('5');
    out.push(';');
    push_digits(out, c as usize);
    out.push('m');
    assert(out@ =~= old(out)@ + color_seq(c));
}

/// Appends `n` copies of the character `c`.
pub fn push_repeat(out: &mut Vec<char>, c: char, n: usize)
    ensures
        final(out)@ == old(out)@ + repeat_char(c, n as nat),
{
    let mut i: usize = 0;
    while i < n
        invariant
            i <= n,
            out@ == old(out)@ + repeat_char(c, i as nat),
        decreases n - i,
    {
        out.push(c);
        i = i + 1;
    }
}

/// Appends `n` space characters.
pub fn push_spaces(out: &mut Vec<char>, n: usize)
    ensures
        final(out)@ == old(out)@ + spaces(n as nat),
{
    push_repeat(out, ' ', n);
}

/// The number of decimal digits of `x` (at least one).
pub fn width(x: usize) -> (r: usize)
    ensures
        r as nat == digit_count(x as nat),
    decreases x,
{
    proof {
        lemma_digit_count_unfold(x as nat);
    }
    if x < 10 {
        1
    } else {
        let w = width(x / 10);
        proof {
            lemma_digit_count_le_linear((x / 10) as nat);
        }
        1 + w
    }
}

} // verus!
