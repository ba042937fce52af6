//! A code block: one or more source lines, rendered between blank gutter
//! rows, with an ellipsis row wherever two successive line numbers are not
//! adjacent, and a trailing blank gutter row whose presence depends on
//! context (the `extend` flag and whether the last line carries a marker).

use vstd::prelude::*;

use crate::gutter::blank_gutter_row;
use crate::gutter::ellipsis_row;
use crate::gutter::lno_cell;
use crate::gutter::push_blank_gutter_row;
use crate::gutter::push_ellipsis_row;
use crate::line::Line;
use crate::marker::Marker;
use crate::style::digit_count;
use crate::style::lemma_repeat_char_index;
use crate::style::spaces;
use crate::style::width;

verus! {

/// Every line of the sequence is well formed.
pub open spec fn lines_wf(lines: Seq<Line>) -> bool {
    forall|i: int| 0 <= i < lines.len() ==> lines[i].wf()
}

/// The gutter width of a block: the maximum digit count over its line
/// numbers, or 1 for an empty block.
pub open spec fn block_width(lines: Seq<Line>) -> nat
    decreases lines.len(),
{
    if lines.len() == 0 {
        1
    } else {
        let rest = block_width(lines.drop_last());
        let dl = digit_count(lines.last().line_number as nat);
        if dl > rest {
            dl
        } else {
            rest
        }
    }
}

/// The rendering of the lines from index `i` on, at gutter width `w`: each
/// line's own rendering, preceded by an ellipsis row whenever the line's
/// number is not exactly one more than its predecessor's.
pub open spec fn lines_render_from(lines: Seq<Line>, w: nat, i: int) -> Seq<char>
    decreases lines.len() - i,
{
    if 0 <= i < lines.len() {
        (if i > 0 && lines[i].line_number != lines[i - 1].line_number + 1 {
            ellipsis_row()
        } else {
            Seq::<char>::empty()
        }) + lines[i].render(w) + lines_render_from(lines, w, i + 1)
    } else {
        Seq::<char>::empty()
    }
}

/// The rendering of the lines from index `i` on with no ellipsis rows at
/// all: just each line's own rendering, in order.
pub open spec fn lines_render_plain_from(lines: Seq<Line>, w: nat, i: int) -> Seq<char>
    decreases lines.len() - i,
{
    if 0 <= i < lines.len() {
        lines[i].render(w) + lines_render_plain_from(lines, w, i + 1)
    } else {
        Seq::<char>::empty()
    }
}

/// In a block whose line numbers are contiguous (each exactly one more than
/// its predecessor's), no ellipsis row is emitted anywhere.
pub proof fn lemma_contiguous_no_ellipsis(lines: Seq<Line>, w: nat, i: int)
    requires
        0 <= i,
        forall|j: int|
            1 <= j < lines.len() ==> #[trigger] lines[j].line_number == lines[j - 1].line_number
                + 1,
    ensures
        lines_render_from(lines, w, i) == lines_render_plain_from(lines, w, i),
    decreases lines.len() - i,
{
    if i < lines.len() {
        lemma_contiguous_no_ellipsis(lines, w, i + 1);
        if i > 0 {
            assert(lines[i].line_number == lines[i - 1].line_number + 1);
        }
        assert(lines_render_from(lines, w, i) =~= lines_render_plain_from(lines, w, i));
    }
}

/// Between two successive lines whose numbers are not adjacent, exactly one
/// ellipsis row stands — and, in a two-line block, nowhere else.
pub proof fn lemma_gap_one_ellipsis(lines: Seq<Line>, w: nat)
    requires
        lines.len() == 2,
        lines[1].line_number != lines[0].line_number + 1,
    ensures
        lines_render_from(lines, w, 0) == lines[0].render(w) + ellipsis_row() + lines[1].render(
            w,
        ),
{
    assert(lines_render_from(lines, w, 2) =~= Seq::<char>::empty());
    assert(lines_render_from(lines, w, 1) =~= ellipsis_row() + lines[1].render(w));
    assert(lines_render_from(lines, w, 0) =~= lines[0].render(w) + ellipsis_row() + lines[
        1
    ].render(w));
}

/// The gutter width of a block is the maximum digit count over its line
/// numbers (1 for an empty block): it bounds every line's digit count, and
/// some line attains it.
pub proof fn lemma_block_width_is_max(lines: Seq<Line>)
    ensures
        lines.len() == 0 ==> block_width(lines) == 1,
        block_width(lines) >= 1,
        forall|i: int|
            0 <= i < lines.len() ==> digit_count(lines[i].line_number as nat) <= block_width(
                lines,
            ),
        lines.len() > 0 ==> exists|i: int|
            0 <= i < lines.len() && digit_count(lines[i].line_number as nat) == block_width(
                lines,
            ),
    decreases lines.len(),
{
    if lines.len() > 0 {
        let rest = lines.drop_last();
        lemma_block_width_is_max(rest);
        let dl = digit_count(lines.last().line_number as nat);
        assert(forall|i: int| 0 <= i < rest.len() ==> rest[i] == lines[i]);
        if dl >= block_width(rest) {
            assert(digit_count(lines[lines.len() - 1].line_number as nat) == block_width(lines));
        } else {
            let i = choose|i: int|
                0 <= i < rest.len() && digit_count(rest[i].line_number as nat) == block_width(
                    rest,
                );
            assert(digit_count(lines[i].line_number as nat) == block_width(lines));
        }
    }
}

/// With a gutter width `w` at least the line number's digit count, the
/// line-number cell is exactly `w` columns wide — so the `|` rule of every
/// source row stands at the same column as in the blank gutter rows, which
/// put `w` spaces before theirs.
pub proof fn lemma_gutter_cells_share_width(lno: nat, w: nat)
    requires
        digit_count(lno) <= w,
    ensures
        lno_cell(lno, w).len() == w,
        spaces(w).len() == w,
{
    lemma_repeat_char_index(' ', (w - digit_count(lno)) as nat);
    lemma_repeat_char_index(' ', w);
}

/// A code block for a help suggestion, a warning, or an error.
///
/// If two subsequent lines of code are not adjacent, an ellipsis row is
/// rendered between them.
pub struct Code(pub Vec<Line>);

impl Code {
    /// A block is well formed when each of its lines is.
    pub open spec fn wf(self) -> bool {
        lines_wf(self.0@)
    }

    /// The gutter width this block aligns all of its rows to.
    pub open spec fn gutter_width(self) -> nat {
        block_width(self.0@)
    }

    /// Whether the last line carries a marker.
    pub open spec fn spec_end_marker(self) -> bool {
        self.0@.len() > 0 && self.0@.last().marker is Some
    }

    /// Everything this block renders: a blank gutter row, the lines (with
    /// ellipsis rows between non-adjacent line numbers), and a final blank
    /// gutter row exactly when `extend` is set or the last line carries no
    /// marker.
    pub open spec fn render(self, extend: bool) -> Seq<char> {
        blank_gutter_row(self.gutter_width()) + lines_render_from(self.0@, self.gutter_width(), 0)
            + if extend || !self.spec_end_marker() {
            blank_gutter_row(self.gutter_width())
        } else {
            Seq::<char>::empty()
        }
    }

    /// Create a code block with a single line of code.
    pub fn single(code: String, line_number: usize, marker: Option<Marker>) -> (r: Self)
        ensures
            r.0@.len() == 1,
            r.0@[0].code@ == code@,
            r.0@[0].line_number == line_number,
            r.0@[0].marker == marker,
    {
        let mut lines: Vec<Line> = Vec::new();
        lines.push(Line { code, line_number, marker });
        Code(lines)
    }

    /// Returns the maximum width of the line numbers of this code block
    /// (1 if the block is empty).
    pub fn line_number_width(&self) -> (r: usize)
        ensures
            r as nat == self.gutter_width(),
    {
        let mut r: usize = 1;
        let mut i: usize = 0;
        while i < self.0.len()
            invariant
                i <= self.0@.len(),
                r as nat == block_width(self.0@.subrange(0, i as int)),
            decreases self.0@.len() - i,
        {
            let l: &Line = &self.0[i];
            let dw = width(l.line_number);
            if dw > r {
                r = dw;
            }
            proof {
                assert(self.0@.subrange(0, i + 1).drop_last() =~= self.0@.subrange(0, i as int));
                assert(self.0@.subrange(0, i + 1).last() == self.0@[i as int]);
            }
            i = i + 1;
        }
        proof {
            assert(self.0@.subrange(0, self.0@.len() as int) =~= self.0@);
        }
        r
    }

    /// Whether or not the last line has a marker.
    pub fn end_marker(&self) -> (r: bool)
        ensures
            r == self.spec_end_marker(),
    {
        if self.0.len() == 0 {
            false
        } else {
            let l: &Line = &self.0[self.0.len() - 1];
            l.marker.is_some()
        }
    }

    /// Appends this block's rendering to `out`.
    ///
    /// To mimic `rustc`, `extend` should be true when this is the main code
    /// block of a warning or error and there are no helps or notes, or when
    /// the block carries no marker; suggestion blocks of helps are rendered
    /// with `extend == false`.
    pub fn display(&self, extend: bool, out: &mut Vec<char>)
        requires
            self.wf(),
        ensures
            final(out)@ == old(out)@ + self.render(extend),
    {
        let lno_width = self.line_number_width();
        push_blank_gutter_row(lno_width, out);
        let ghost mid = out@;

        let mut i: usize = 0;
        while i < self.0.len()
            invariant
                i <= self.0@.len(),
                lno_width as nat == self.gutter_width(),
                lines_wf(self.0@),
                mid + lines_render_from(self.0@, lno_width as nat, 0) == out@ + lines_render_from(
                    self.0@,
                    lno_width as nat,
                    i as int,
                ),
            decreases self.0@.len() - i,
        {
            let ghost before = out@;
            if i > 0 {
                let prev: &Line = &self.0[i - 1];
                let cur: &Line = &self.0[i];
                if cur.line_number - 1 != prev.line_number {
                    push_ellipsis_row(out);
                }
            }
            let l: &Line = &self.0[i];
            l.display(lno_width, out);
            proof {
                assert(out@ + lines_render_from(self.0@, lno_width as nat, i + 1) =~= before
                    + lines_render_from(self.0@, lno_width as nat, i as int));
                assert(mid + lines_render_from(self.0@, lno_width as nat, 0) =~= out@
                    + lines_render_from(self.0@, lno_width as nat, i + 1));
            }
            i = i + 1;
        }
        assert(out@ =~= mid + lines_render_from(self.0@, lno_width as nat, 0));

        if extend || !self.end_marker() {
            push_blank_gutter_row(lno_width, out);
        }
        assert(out@ =~= old(out)@ + self.render(extend));
    }
}

/// Even with `extend == false`, a block whose last line carries no marker
/// closes with a trailing blank gutter row; one whose last line does carry
/// a marker closes without it (unless `extend` forces it).
pub proof fn lemma_trailing_gutter_row(c: Code)
    ensures
        !c.spec_end_marker() ==> c.render(false) == blank_gutter_row(c.gutter_width())
            + lines_render_from(c.0@, c.gutter_width(), 0) + blank_gutter_row(c.gutter_width()),
        c.spec_end_marker() ==> c.render(false) == blank_gutter_row(c.gutter_width())
            + lines_render_from(c.0@, c.gutter_width(), 0),
        c.render(true) == blank_gutter_row(c.gutter_width()) + lines_render_from(
            c.0@,
            c.gutter_width(),
            0,
        ) + blank_gutter_row(c.gutter_width()),
{
    if c.spec_end_marker() {
        assert(c.render(false) =~= blank_gutter_row(c.gutter_width()) + lines_render_from(
            c.0@,
            c.gutter_width(),
            0,
        ));
    }
}

} // verus!
