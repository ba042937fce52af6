//! The underline ("marker") drawn beneath a span of one source line: a
//! symbol character repeated over the span, an optional trailing message,
//! all bolded in the marker's color.
//!
//! Span offsets are character-indexed (not byte-indexed): `start` is the
//! number of characters to the left of the underline, and `end` is the
//! character offset of the last underlined character, inclusive.

use vstd::prelude::*;

use crate::style::bold;
use crate::style::bold_seq;
use crate::style::color;
use crate::style::color_seq;
use crate::style::lemma_repeat_char_index;
use crate::style::normal;
use crate::style::normal_seq;
use crate::style::push_repeat;
use crate::style::push_spaces;
use crate::style::repeat_char;
use crate::style::spaces;
use crate::text::push_str;

verus! {

/// An underline for a span of one line of code.
pub struct Marker {
    /// Character offset of the first underlined character (inclusive).
    pub start: usize,
    /// Character offset of the last underlined character (inclusive).
    pub end: usize,
    /// The symbol to underline with (`rustc` uses `~` for modifications and
    /// `^` for everything else).
    pub symbol: char,
    /// The 8-bit palette color of the underline (`rustc` uses `10` for
    /// modifications, `3` for warnings, and `9` for errors).
    pub color: u8,
    /// A message to display after the underline, in the same color.
    pub message: Option<String>,
    /// Whether the underlined span of the code itself is also colorized.
    pub color_span: bool,
}

impl Marker {
    /// A marker is well formed when its span is not inverted and the span
    /// length fits the machine. An inverted span (`end < start`) is rejected
    /// here, at construction time, rather than clamped.
    pub open spec fn wf(self) -> bool {
        &&& self.start <= self.end
        &&& self.end - self.start + 1 <= usize::MAX
    }

    /// The number of underlined characters: `end - start + 1`.
    pub open spec fn span_len(self) -> nat {
        (self.end - self.start + 1) as nat
    }

    /// The visible body of the underline row: `start` spaces, the symbol
    /// repeated over the span, then optionally a space and the message.
    pub open spec fn body(self) -> Seq<char> {
        spaces(self.start as nat) + repeat_char(self.symbol, self.span_len()) + (
        match self.message {
            Some(m) => seq![' '] + m@,
            None => Seq::<char>::empty(),
        })
    }

    /// The full underline row: the body, bolded in the marker's color, then
    /// a style reset and a line break.
    pub open spec fn render(self) -> Seq<char> {
        bold_seq() + color_seq(self.color) + self.body() + normal_seq() + seq!['\n']
    }

    /// Appends the underline row to `out`.
    pub fn display(&self, out: &mut Vec<char>)
        requires
            self.wf(),
        ensures
            final(out)@ == old(out)@ + self.render(),
    {
        bold(out);
        color(self.color, out);
        push_spaces(out, self.start);
        let count = self.end - self.start + 1;
        push_repeat(out, self.symbol, count);
        match &self.message {
            Some(m) => {
                out.push(' ');
                push_str(out, m.as_str());
            },
            None => {},
        }
        normal(out);
        out.push('\n');
        assert(out@ =~= old(out)@ + self.render());
    }
}

/// The underline row starts, after its style prefix, with exactly `start`
/// spaces followed by `end - start + 1` copies of the symbol; whatever
/// follows the symbols (if anything) begins with a space. So, for a symbol
/// other than the space character, the row's leading space count is exactly
/// `start` and its first non-space run has length exactly `end - start + 1`.
pub proof fn lemma_marker_underline_shape(m: Marker)
    requires
        m.wf(),
    ensures
        m.body().len() >= m.start + m.span_len(),
        forall|i: int| 0 <= i < m.start ==> m.body()[i] == ' ',
        forall|i: int|
            m.start <= i < m.start + m.span_len() ==> m.body()[i] == m.symbol,
        m.start + m.span_len() < m.body().len() ==> m.body()[m.start
            + m.span_len()] == ' ',
{
    lemma_repeat_char_index(' ', m.start as nat);
    lemma_repeat_char_index(m.symbol, m.span_len());
}

} // verus!
