//! A single source line of a code block: the line-number gutter, the code
//! text, and — when a marker is present — an underline row beneath it.
//!
//! When the marker asks for a colorized span (`color_span`) and its range
//! fits inside the line, the code text is split at the marker's character
//! offsets and the underlined substring is emitted in the marker's color.
//! The split is made on character boundaries, so multi-byte text cannot be
//! cut mid-character. A range that does not fit degrades to the plain
//! rendering path (uncolored line plus the separate underline row).

use vstd::prelude::*;
use vstd::string::StrSliceExecFns;

use crate::gutter::line_gutter;
use crate::gutter::push_line_gutter;
use crate::gutter::push_underline_gutter;
use crate::gutter::underline_gutter;
use crate::marker::Marker;
use crate::style::color;
use crate::style::color_seq;
use crate::style::normal;
use crate::style::normal_seq;
use crate::text::push_str;

verus! {

/// A single line in a code block.
pub struct Line {
    /// A single line of code; it should not itself contain a line break.
    pub code: String,
    /// The line number of the line of code (at least 1).
    pub line_number: usize,
    /// An underline to apply to the line of code.
    pub marker: Option<Marker>,
}

impl Line {
    /// A line is well formed when its line number is at least 1 and its
    /// marker, if any, is well formed.
    pub open spec fn wf(self) -> bool {
        &&& self.line_number >= 1
        &&& match self.marker {
            Some(m) => m.wf(),
            None => true,
        }
    }

    /// Whether the marker's character range fits inside this line, which is
    /// what the colorized-span path requires.
    pub open spec fn marker_fits(self, m: Marker) -> bool {
        m.end + 1 <= self.code@.len()
    }

    /// The plain source row: gutter, the code text uncolored, line break.
    pub open spec fn plain_row(self, w: nat) -> Seq<char> {
        line_gutter(self.line_number as nat, w) + self.code@ + seq!['\n']
    }

    /// The colorized-span source row: gutter, the text before the span, the
    /// span in the marker's color, a style reset, the text after the span,
    /// line break.
    pub open spec fn color_span_row(self, m: Marker, w: nat) -> Seq<char> {
        line_gutter(self.line_number as nat, w) + self.code@.subrange(0, m.start as int)
            + color_seq(m.color) + self.code@.subrange(m.start as int, m.end + 1) + normal_seq()
            + self.code@.subrange(m.end + 1, self.code@.len() as int) + seq!['\n']
    }

    /// Everything this line renders at gutter width `w`: the source row
    /// (colorized if the marker asks for it and fits), then — if a marker is
    /// present — the underline row's gutter prefix and the marker itself.
    pub open spec fn render(self, w: nat) -> Seq<char> {
        match self.marker {
            None => self.plain_row(w),
            Some(m) => (if m.color_span && self.marker_fits(m) {
                self.color_span_row(m, w)
            } else {
                self.plain_row(w)
            }) + underline_gutter(w) + m.render(),
        }
    }

    /// Appends this line's rendering at gutter width `lno_width` to `out`.
    pub fn display(&self, lno_width: usize, out: &mut Vec<char>)
        requires
            self.wf(),
        ensures
            final(out)@ == old(out)@ + self.render(lno_width as nat),
    {
        match &self.marker {
            Some(m) => {
                let len = self.code.as_str().unicode_len();
                if m.color_span && m.end < len {
                    push_line_gutter(self.line_number, lno_width, out);
                    push_str(out, self.code.as_str().substring_char(0, m.start));
                    color(m.color, out);
                    push_str(out, self.code.as_str().substring_char(m.start, m.end + 1));
                    normal(out);
                    push_str(out, self.code.as_str().substring_char(m.end + 1, len));
                    out.push('\n');
                    assert(out@ =~= old(out)@ + self.color_span_row(*m, lno_width as nat));
                } else {
                    push_line_gutter(self.line_number, lno_width, out);
                    push_str(out, self.code.as_str());
                    out.push('\n');
                    assert(out@ =~= old(out)@ + self.plain_row(lno_width as nat));
                }
                push_underline_gutter(lno_width, out);
                m.display(out);
                assert(out@ =~= old(out)@ + self.render(lno_width as nat));
            },
            None => {
                push_line_gutter(self.line_number, lno_width, out);
                push_str(out, self.code.as_str());
                out.push('\n');
                assert(out@ =~= old(out)@ + self.render(lno_width as nat));
            },
        }
    }
}

} // verus!
