//! The diagnostic roots: an `Error` or a `Warning`, each holding a message,
//! a file location, one primary code block, an ordered sequence of help
//! entries, and an ordered sequence of notes. Rendering emits, in this fixed
//! order: header, location, code block, helps, notes.

use vstd::prelude::*;

use crate::code::Code;
use crate::code::block_width;
use crate::gutter::gutter_color;
use crate::style::bold;
use crate::style::bold_seq;
use crate::style::color;
use crate::style::color_seq;
use crate::style::digits_seq;
use crate::style::lemma_repeat_char_index;
use crate::style::normal;
use crate::style::normal_seq;
use crate::style::push_digits;
use crate::style::push_spaces;
use crate::style::spaces;
use crate::text::push_str;

verus! {

/// The 8-bit palette color of the `error` label.
pub open spec fn error_color() -> u8 {
    9
}

/// The 8-bit palette color of the `warning` label.
pub open spec fn warning_color() -> u8 {
    3
}

/// The 8-bit palette color of the `help` label.
pub open spec fn help_color() -> u8 {
    14
}

/// The path, line, and column of a piece of code.
pub struct File {
    pub path: String,
    pub line: usize,
    pub col: usize,
}

impl File {
    /// The location row: a colored ` --> ` arrow, then `path:line:col`.
    pub open spec fn location_row(self) -> Seq<char> {
        color_seq(gutter_color()) + seq![' ', '-', '-', '>', ' '] + normal_seq() + self.path@
            + seq![':'] + digits_seq(self.line as nat) + seq![':'] + digits_seq(self.col as nat)
            + seq!['\n']
    }

    /// Appends the location row to `out`.
    fn push_location(&self, out: &mut Vec<char>)
        ensures
            final(out)@ == old(out)@ + self.location_row(),
    {
        color(12, out);
        out.push(' ');
        out.push('-');
        out.push('-');
        out.push('>');
        out.push(' ');
        normal(out);
        push_str(out, self.path.as_str());
        out.push(':');
        push_digits(out, self.line);
        out.push(':');
        push_digits(out, self.col);
        out.push('\n');
        assert(out@ =~= old(out)@ + self.location_row());
    }
}

/// A note for a warning or an error.
pub struct Note(pub String);

impl Note {
    /// The plain note row: a bold `note` label, then `: <message>`.
    pub open spec fn render(self) -> Seq<char> {
        bold_seq() + seq!['n', 'o', 't', 'e'] + normal_seq() + seq![':', ' '] + self.0@
            + seq!['\n']
    }

    /// Appends the plain note row to `out`.
    pub fn display(&self, out: &mut Vec<char>)
        ensures
            final(out)@ == old(out)@ + self.render(),
    {
        bold(out);
        out.push('n');
        out.push('o');
        out.push('t');
        out.push('e');
        normal(out);
        out.push(':');
        out.push(' ');
        push_str(out, self.0.as_str());
        out.push('\n');
        assert(out@ =~= old(out)@ + self.render());
    }
}

/// The indented note row used inside a warning: `" = "` right-aligned to
/// `w + 3` columns (that is, `w` spaces then `" = "`), in the gutter color,
/// followed by the plain note row.
pub open spec fn warn_note_row(n: Note, w: nat) -> Seq<char> {
    bold_seq() + color_seq(gutter_color()) + spaces(w) + seq![' ', '=', ' '] + normal_seq()
        + n.render()
}

/// The indented note row of a warning pads `" = "` to exactly `w + 3`
/// columns (its gutter width plus 3) before the `note` label.
pub proof fn lemma_warn_note_indent(n: Note, w: nat)
    ensures
        warn_note_row(n, w) == bold_seq() + color_seq(gutter_color()) + (spaces(w)
            + seq![' ', '=', ' ']) + normal_seq() + n.render(),
        (spaces(w) + seq![' ', '=', ' ']).len() == w + 3,
{
    lemma_repeat_char_index(' ', w);
    assert(warn_note_row(n, w) =~= bold_seq() + color_seq(gutter_color()) + (spaces(w)
        + seq![' ', '=', ' ']) + normal_seq() + n.render());
}

/// A help message for a warning or an error.
pub struct Help {
    pub message: String,
    /// A suggested revision.
    pub suggestion: Option<Code>,
}

impl Help {
    /// A help entry is well formed when its suggestion block, if any, is.
    pub open spec fn wf(self) -> bool {
        match self.suggestion {
            Some(c) => c.wf(),
            None => true,
        }
    }

    /// The help rendering: a bold colored `help` label, `: <message>`, a
    /// line break, then the suggestion block (if any) rendered with the
    /// caller's `extend` flag.
    pub open spec fn render(self, extend: bool) -> Seq<char> {
        bold_seq() + color_seq(help_color()) + seq!['h', 'e', 'l', 'p'] + normal_seq()
            + seq![':', ' '] + self.message@ + seq!['\n'] + (match self.suggestion {
            Some(c) => c.render(extend),
            None => Seq::<char>::empty(),
        })
    }

    /// Appends this help entry's rendering to `out`.
    pub fn display(&self, extend: bool, out: &mut Vec<char>)
        requires
            self.wf(),
        ensures
            final(out)@ == old(out)@ + self.render(extend),
    {
        bold(out);
        color(14, out);
        out.push('h');
        out.push('e');
        out.push('l');
        out.push('p');
        normal(out);
        out.push(':');
        out.push(' ');
        push_str(out, self.message.as_str());
        out.push('\n');
        match &self.suggestion {
            Some(c) => {
                c.display(extend, out);
            },
            None => {},
        }
        assert(out@ =~= old(out)@ + self.render(extend));
    }
}

/// Every help entry of the sequence is well formed.
pub open spec fn helps_wf(hs: Seq<Help>) -> bool {
    forall|i: int| 0 <= i < hs.len() ==> hs[i].wf()
}

/// The rendering of the help entries from index `i` on, each with
/// `extend == false`.
pub open spec fn helps_render_from(hs: Seq<Help>, i: int) -> Seq<char>
    decreases hs.len() - i,
{
    if 0 <= i < hs.len() {
        hs[i].render(false) + helps_render_from(hs, i + 1)
    } else {
        Seq::<char>::empty()
    }
}

/// The rendering of the plain note rows from index `i` on.
pub open spec fn notes_render_from(ns: Seq<Note>, i: int) -> Seq<char>
    decreases ns.len() - i,
{
    if 0 <= i < ns.len() {
        ns[i].render() + notes_render_from(ns, i + 1)
    } else {
        Seq::<char>::empty()
    }
}

/// The rendering of the indented warning note rows from index `i` on, at
/// gutter width `w`.
pub open spec fn warn_notes_render_from(ns: Seq<Note>, w: nat, i: int) -> Seq<char>
    decreases ns.len() - i,
{
    if 0 <= i < ns.len() {
        warn_note_row(ns[i], w) + warn_notes_render_from(ns, w, i + 1)
    } else {
        Seq::<char>::empty()
    }
}

/// An error in `rustc` style.
pub struct Error {
    /// The `E0502` in `error[E0502]: ...`.
    pub error_code: String,
    /// The message to display after `error[...]: `.
    pub message: String,
    /// The file the error is in.
    pub file: File,
    /// The code the error is about.
    pub code: Code,
    /// Any number of help messages, displayed before the notes.
    pub helps: Vec<Help>,
    /// Any number of notes, displayed after the help messages.
    pub notes: Vec<Note>,
}

impl Error {
    /// An error is well formed when its code block and every help entry are.
    pub open spec fn wf(self) -> bool {
        &&& self.code.wf()
        &&& helps_wf(self.helps@)
    }

    /// The header row: bold `error[<code>]` in the error color, then a bold
    /// `: <message>`.
    pub open spec fn header(self) -> Seq<char> {
        bold_seq() + color_seq(error_color()) + seq!['e', 'r', 'r', 'o', 'r', '[']
            + self.error_code@ + seq![']'] + normal_seq() + bold_seq() + seq![':', ' ']
            + self.message@ + seq!['\n']
    }

    /// The main code block is rendered extended exactly when nothing (no
    /// help, no note) follows it.
    pub open spec fn main_extend(self) -> bool {
        self.helps@.len() == 0 && self.notes@.len() == 0
    }

    /// Everything this error renders: header, location, the main code
    /// block, the helps in order, the notes in order.
    pub open spec fn render(self) -> Seq<char> {
        self.header() + self.file.location_row() + self.code.render(self.main_extend())
            + helps_render_from(self.helps@, 0) + notes_render_from(self.notes@, 0)
    }

    /// Appends this error's full rendering to `out`.
    pub fn display(&self, out: &mut Vec<char>)
        requires
            self.wf(),
        ensures
            final(out)@ == old(out)@ + self.render(),
    {
        bold(out);
        color(9, out);
        out.push('e');
        out.push('r');
        out.push('r');
        out.push('o');
        out.push('r');
        out.push('[');
        push_str(out, self.error_code.as_str());
        out.push(']');
        normal(out);
        bold(out);
        out.push(':');
        out.push(' ');
        push_str(out, self.message.as_str());
        out.push('\n');
        assert(out@ =~= old(out)@ + self.header());

        self.file.push_location(out);

        let extend = self.helps.len() == 0 && self.notes.len() == 0;
        self.code.display(extend, out);
        let ghost mid = out@;

        let mut i: usize = 0;
        while i < self.helps.len()
            invariant
                i <= self.helps@.len(),
                helps_wf(self.helps@),
                mid + helps_render_from(self.helps@, 0) == out@ + helps_render_from(
                    self.helps@,
                    i as int,
                ),
            decreases self.helps@.len() - i,
        {
            let ghost before = out@;
            let h: &Help = &self.helps[i];
            h.display(false, out);
            proof {
                assert(out@ + helps_render_from(self.helps@, i + 1) =~= before
                    + helps_render_from(self.helps@, i as int));
                assert(mid + helps_render_from(self.helps@, 0) =~= out@ + helps_render_from(
                    self.helps@,
                    i + 1,
                ));
            }
            i = i + 1;
        }
        assert(out@ =~= mid + helps_render_from(self.helps@, 0));
        let ghost mid2 = out@;

        let mut j: usize = 0;
        while j < self.notes.len()
            invariant
                j <= self.notes@.len(),
                mid2 + notes_render_from(self.notes@, 0) == out@ + notes_render_from(
                    self.notes@,
                    j as int,
                ),
            decreases self.notes@.len() - j,
        {
            let ghost before = out@;
            let n: &Note = &self.notes[j];
            n.display(out);
            proof {
                assert(out@ + notes_render_from(self.notes@, j + 1) =~= before
                    + notes_render_from(self.notes@, j as int));
                assert(mid2 + notes_render_from(self.notes@, 0) =~= out@ + notes_render_from(
                    self.notes@,
                    j + 1,
                ));
            }
            j = j + 1;
        }
        assert(out@ =~= mid2 + notes_render_from(self.notes@, 0));
        assert(out@ =~= old(out)@ + self.render());
    }
}

/// A warning in `rustc` style.
pub struct Warning {
    /// The message to display after `warning: `.
    pub message: String,
    /// The file the warning is in.
    pub file: File,
    /// The code the warning is about.
    pub code: Code,
    /// Any number of help messages, displayed before the notes.
    pub helps: Vec<Help>,
    /// Any number of notes, displayed after the help messages.
    pub notes: Vec<Note>,
}

impl Warning {
    /// A warning is well formed when its code block and every help entry are.
    pub open spec fn wf(self) -> bool {
        &&& self.code.wf()
        &&& helps_wf(self.helps@)
    }

    /// The header row: a bold `warning` label in the warning color (no
    /// bracketed code), then a bold `: <message>`.
    pub open spec fn header(self) -> Seq<char> {
        bold_seq() + color_seq(warning_color()) + seq!['w', 'a', 'r', 'n', 'i', 'n', 'g']
            + normal_seq() + bold_seq() + seq![':', ' '] + self.message@ + seq!['\n']
    }

    /// The main code block is rendered extended exactly when nothing (no
    /// help, no note) follows it.
    pub open spec fn main_extend(self) -> bool {
        self.helps@.len() == 0 && self.notes@.len() == 0
    }

    /// Everything this warning renders: header, location, the main code
    /// block, the helps in order, then the notes in order, each indented
    /// with `" = "` right-aligned to the main block's gutter width plus 3.
    pub open spec fn render(self) -> Seq<char> {
        self.header() + self.file.location_row() + self.code.render(self.main_extend())
            + helps_render_from(self.helps@, 0) + warn_notes_render_from(
            self.notes@,
            block_width(self.code.0@),
            0,
        )
    }

    /// Appends this warning's full rendering to `out`.
    pub fn display(&self, out: &mut Vec<char>)
        requires
            self.wf(),
        ensures
            final(out)@ == old(out)@ + self.render(),
    {
        bold(out);
        color(3, out);
        out.push('w');
        out.push('a');
        out.push('r');
        out.push('n');
        out.push('i');
        out.push('n');
        out.push('g');
        normal(out);
        bold(out);
        out.push(':');
        out.push(' ');
        push_str(out, self.message.as_str());
        out.push('\n');
        assert(out@ =~= old(out)@ + self.header());

        self.file.push_location(out);

        let extend = self.helps.len() == 0 && self.notes.len() == 0;
        self.code.display(extend, out);
        let ghost mid = out@;

        let mut i: usize = 0;
        while i < self.helps.len()
            invariant
                i <= self.helps@.len(),
                helps_wf(self.helps@),
                mid + helps_render_from(self.helps@, 0) == out@ + helps_render_from(
                    self.helps@,
                    i as int,
                ),
            decreases self.helps@.len() - i,
        {
            let ghost before = out@;
            let h: &Help = &self.helps[i];
            h.display(false, out);
            proof {
                assert(out@ + helps_render_from(self.helps@, i + 1) =~= before
                    + helps_render_from(self.helps@, i as int));
                assert(mid + helps_render_from(self.helps@, 0) =~= out@ + helps_render_from(
                    self.helps@,
                    i + 1,
                ));
            }
            i = i + 1;
        }
        assert(out@ =~= mid + helps_render_from(self.helps@, 0));
        let ghost mid2 = out@;

        let w = self.code.line_number_width();
        let mut j: usize = 0;
        while j < self.notes.len()
            invariant
                j <= self.notes@.len(),
                w as nat == block_width(self.code.0@),
                mid2 + warn_notes_render_from(self.notes@, w as nat, 0) == out@
                    + warn_notes_render_from(self.notes@, w as nat, j as int),
            decreases self.notes@.len() - j,
        {
            let ghost before = out@;
            bold(out);
            color(12, out);
            push_spaces(out, w);
            out.push(' ');
            out.push('=');
            out.push(' ');
            normal(out);
            let n: &Note = &self.notes[j];
            n.display(out);
            proof {
                assert(out@ =~= before + warn_note_row(self.notes@[j as int], w as nat));
                assert(out@ + warn_notes_render_from(self.notes@, w as nat, j + 1) =~= before
                    + warn_notes_render_from(self.notes@, w as nat, j as int));
                assert(mid2 + warn_notes_render_from(self.notes@, w as nat, 0) =~= out@
                    + warn_notes_render_from(self.notes@, w as nat, j + 1));
            }
            j = j + 1;
        }
        assert(out@ =~= mid2 + warn_notes_render_from(self.notes@, w as nat, 0));
        assert(out@ =~= old(out)@ + self.render());
    }
}

/// A warning with exactly one note ends in that note's indented row, padded
/// to the main block's gutter width plus 3 columns.
pub proof fn lemma_warning_single_note(wn: Warning)
    requires
        wn.notes@.len() == 1,
    ensures
        wn.render() == wn.header() + wn.file.location_row() + wn.code.render(false)
            + helps_render_from(wn.helps@, 0) + warn_note_row(
            wn.notes@[0],
            block_width(wn.code.0@),
        ),
{
    let w = block_width(wn.code.0@);
    assert(warn_notes_render_from(wn.notes@, w, 1) =~= Seq::<char>::empty());
    assert(warn_notes_render_from(wn.notes@, w, 0) =~= warn_note_row(wn.notes@[0], w));
}

} // verus!
