use frack::Code;
use frack::Error;
use frack::File;
use frack::Help;
use frack::Line;
use frack::Marker;
use frack::Note;
use frack::Warning;
use frack::bold;
use frack::color;
use frack::normal;
use frack::width;

fn collect(v: &Vec<char>) -> String {
    v.iter().collect()
}

fn b() -> String {
    "\x1b[1m".to_string()
}

fn n() -> String {
    "\x1b[0m".to_string()
}

fn c(x: u8) -> String {
    format!("\x1b[38;5;{}m", x)
}

fn line(code: &str, line_number: usize, marker: Option<Marker>) -> Line {
    Line { code: code.to_string(), line_number, marker }
}

fn plain_marker(start: usize, end: usize, symbol: char, color: u8) -> Marker {
    Marker { start, end, symbol, color, message: None, color_span: false }
}

/// A blank gutter row at gutter width `w`: `w` spaces, then `" |"`.
fn blank(w: usize) -> String {
    format!("{}{}{} |\n{}", b(), c(12), " ".repeat(w), n())
}

/// The gutter prefix of an underline row at width `w`: `w` spaces, `" | "`.
fn ugutter(w: usize) -> String {
    format!("{}{}{} | {}", b(), c(12), " ".repeat(w), n())
}

#[test]
fn styler_escapes() {
    let mut out: Vec<char> = Vec::new();
    bold(&mut out);
    assert_eq!(collect(&out), "\x1b[1m");
    let mut out: Vec<char> = Vec::new();
    normal(&mut out);
    assert_eq!(collect(&out), "\x1b[0m");
    let mut out: Vec<char> = Vec::new();
    color(9, &mut out);
    assert_eq!(collect(&out), "\x1b[38;5;9m");
    let mut out: Vec<char> = Vec::new();
    color(255, &mut out);
    assert_eq!(collect(&out), "\x1b[38;5;255m");
}

#[test]
fn width_counts_digits() {
    assert_eq!(width(0), 1);
    assert_eq!(width(9), 1);
    assert_eq!(width(10), 2);
    assert_eq!(width(99), 2);
    assert_eq!(width(100), 3);
    assert_eq!(width(1000), 4);
}

#[test]
fn marker_underline_row() {
    // Leading space count equals `start`; the symbol run length is
    // `end - start + 1`.
    let m = plain_marker(3, 7, '^', 9);
    let mut out: Vec<char> = Vec::new();
    m.display(&mut out);
    assert_eq!(collect(&out), format!("{}{}   ^^^^^{}\n", b(), c(9), n()));
}

#[test]
fn marker_single_char_span() {
    let m = plain_marker(0, 0, '^', 3);
    let mut out: Vec<char> = Vec::new();
    m.display(&mut out);
    assert_eq!(collect(&out), format!("{}{}^{}\n", b(), c(3), n()));
}

#[test]
fn marker_with_message() {
    let m = Marker {
        start: 2,
        end: 4,
        symbol: '~',
        color: 10,
        message: Some("try this".to_string()),
        color_span: false,
    };
    let mut out: Vec<char> = Vec::new();
    m.display(&mut out);
    assert_eq!(collect(&out), format!("{}{}  ~~~ try this{}\n", b(), c(10), n()));
}

#[test]
fn line_without_marker() {
    let l = line("let x = 5;", 3, None);
    let mut out: Vec<char> = Vec::new();
    l.display(1, &mut out);
    assert_eq!(collect(&out), format!("{}{}3 | {}let x = 5;\n", b(), c(12), n()));
}

#[test]
fn line_number_left_aligned_in_wide_gutter() {
    let l = line("x", 7, None);
    let mut out: Vec<char> = Vec::new();
    l.display(3, &mut out);
    assert_eq!(collect(&out), format!("{}{}7   | {}x\n", b(), c(12), n()));
}

#[test]
fn line_with_plain_marker() {
    let l = line("let x = 5;", 3, Some(plain_marker(4, 4, '^', 9)));
    let mut out: Vec<char> = Vec::new();
    l.display(1, &mut out);
    let expected = format!("{}{}3 | {}let x = 5;\n", b(), c(12), n())
        + &ugutter(1)
        + &format!("{}{}    ^{}\n", b(), c(9), n());
    assert_eq!(collect(&out), expected);
}

#[test]
fn line_color_span_slices_at_marker_offsets() {
    let m = Marker { start: 4, end: 8, symbol: '~', color: 10, message: None, color_span: true };
    let l = line("let x = 5plus;", 7, Some(m));
    let mut out: Vec<char> = Vec::new();
    l.display(1, &mut out);
    let expected = format!("{}{}7 | {}let {}x = 5{}plus;\n", b(), c(12), n(), c(10), n())
        + &ugutter(1)
        + &format!("{}{}    ~~~~~{}\n", b(), c(10), n());
    assert_eq!(collect(&out), expected);
}

#[test]
fn line_color_span_out_of_range_degrades_to_plain() {
    // The range does not fit inside the line, so the colorized path is
    // abandoned: plain line plus the separate underline row.
    let m = Marker { start: 1, end: 5, symbol: '~', color: 10, message: None, color_span: true };
    let l = line("abc", 1, Some(m));
    let mut out: Vec<char> = Vec::new();
    l.display(1, &mut out);
    let expected = format!("{}{}1 | {}abc\n", b(), c(12), n())
        + &ugutter(1)
        + &format!("{}{} ~~~~~{}\n", b(), c(10), n());
    assert_eq!(collect(&out), expected);
}

#[test]
fn unicode_color_span_slices_on_char_boundaries() {
    // Offsets are character-indexed: multi-byte text is never cut inside a
    // character.
    let m = Marker { start: 1, end: 3, symbol: '~', color: 10, message: None, color_span: true };
    let l = line("αβγδε", 2, Some(m));
    let mut out: Vec<char> = Vec::new();
    l.display(1, &mut out);
    let expected = format!("{}{}2 | {}α{}βγδ{}ε\n", b(), c(12), n(), c(10), n())
        + &ugutter(1)
        + &format!("{}{} ~~~{}\n", b(), c(10), n());
    assert_eq!(collect(&out), expected);
}

#[test]
fn unicode_underline_counts_characters() {
    let m = plain_marker(1, 3, '^', 9);
    let l = line("αβγδε", 2, Some(m));
    let mut out: Vec<char> = Vec::new();
    l.display(1, &mut out);
    let expected = format!("{}{}2 | {}αβγδε\n", b(), c(12), n())
        + &ugutter(1)
        + &format!("{}{} ^^^{}\n", b(), c(9), n());
    assert_eq!(collect(&out), expected);
}

#[test]
fn single_builds_one_line() {
    let code = Code::single("let x = 5;".to_string(), 4, None);
    assert_eq!(code.0.len(), 1);
    assert_eq!(code.0[0].code, "let x = 5;");
    assert_eq!(code.0[0].line_number, 4);
    assert!(code.0[0].marker.is_none());
}

#[test]
fn gutter_width_is_max_digit_count() {
    let code = Code(vec![line("a", 7, None), line("b", 120, None), line("c", 99, None)]);
    assert_eq!(code.line_number_width(), 3);
    let code = Code(vec![line("a", 5, None)]);
    assert_eq!(code.line_number_width(), 1);
}

#[test]
fn gutter_width_defaults_to_one() {
    let code = Code(vec![]);
    assert_eq!(code.line_number_width(), 1);
}

#[test]
fn end_marker_looks_at_last_line() {
    let code = Code(vec![line("a", 1, Some(plain_marker(0, 0, '^', 9))), line("b", 2, None)]);
    assert!(!code.end_marker());
    let code = Code(vec![line("a", 1, None), line("b", 2, Some(plain_marker(0, 0, '^', 9)))]);
    assert!(code.end_marker());
    let code = Code(vec![]);
    assert!(!code.end_marker());
}

#[test]
fn contiguous_lines_emit_no_ellipsis() {
    let code = Code(vec![line("a", 3, None), line("b", 4, None), line("c", 5, None)]);
    let mut out: Vec<char> = Vec::new();
    code.display(false, &mut out);
    let text = collect(&out);
    assert!(!text.contains("..."));
    let expected = blank(1)
        + &format!("{}{}3 | {}a\n", b(), c(12), n())
        + &format!("{}{}4 | {}b\n", b(), c(12), n())
        + &format!("{}{}5 | {}c\n", b(), c(12), n())
        + &blank(1);
    assert_eq!(text, expected);
}

#[test]
fn gap_emits_exactly_one_ellipsis() {
    let code = Code(vec![line("a", 3, None), line("b", 8, None)]);
    let mut out: Vec<char> = Vec::new();
    code.display(false, &mut out);
    let text = collect(&out);
    assert_eq!(text.matches("...").count(), 1);
    let expected = blank(1)
        + &format!("{}{}3 | {}a\n", b(), c(12), n())
        + &format!("{}{}...\n{}", b(), c(12), n())
        + &format!("{}{}8 | {}b\n", b(), c(12), n())
        + &blank(1);
    assert_eq!(text, expected);
}

#[test]
fn gutter_rows_share_the_block_width() {
    // A two-digit line number widens every gutter row of the block.
    let code = Code(vec![line("a", 9, None), line("b", 10, None)]);
    let mut out: Vec<char> = Vec::new();
    code.display(false, &mut out);
    let expected = blank(2)
        + &format!("{}{}9  | {}a\n", b(), c(12), n())
        + &format!("{}{}10 | {}b\n", b(), c(12), n())
        + &blank(2);
    assert_eq!(collect(&out), expected);
}

#[test]
fn extend_false_markerless_last_line_appends_trailing_row() {
    let code = Code(vec![line("a", 1, None)]);
    let mut out: Vec<char> = Vec::new();
    code.display(false, &mut out);
    let text = collect(&out);
    assert!(text.ends_with(&blank(1)));
    assert_eq!(text.matches(&blank(1)).count(), 2);
}

#[test]
fn extend_false_marked_last_line_omits_trailing_row() {
    let code = Code(vec![line("abc", 1, Some(plain_marker(0, 2, '^', 9)))]);
    let mut out: Vec<char> = Vec::new();
    code.display(false, &mut out);
    let text = collect(&out);
    // The marker row ends the block; only the leading blank gutter row occurs.
    assert_eq!(text.matches(&blank(1)).count(), 1);
    assert!(text.starts_with(&blank(1)));
    assert!(text.ends_with(&format!("{}{}^^^{}\n", b(), c(9), n())));
}

#[test]
fn extend_true_forces_trailing_row_after_marked_line() {
    let code = Code(vec![line("abc", 1, Some(plain_marker(0, 2, '^', 9)))]);
    let mut out: Vec<char> = Vec::new();
    code.display(true, &mut out);
    let text = collect(&out);
    assert_eq!(text.matches(&blank(1)).count(), 2);
    assert!(text.ends_with(&blank(1)));
}

#[test]
fn note_row() {
    let note = Note("required by this bound".to_string());
    let mut out: Vec<char> = Vec::new();
    note.display(&mut out);
    assert_eq!(collect(&out), format!("{}note{}: required by this bound\n", b(), n()));
}

#[test]
fn help_without_suggestion() {
    let help = Help { message: "try removing the borrow".to_string(), suggestion: None };
    let mut out: Vec<char> = Vec::new();
    help.display(false, &mut out);
    assert_eq!(collect(&out), format!("{}{}help{}: try removing the borrow\n", b(), c(14), n()));
}

#[test]
fn error_without_helps_or_notes_extends_the_block() {
    let error = Error {
        error_code: "E0499".to_string(),
        message: "cannot borrow twice".to_string(),
        file: File { path: "src/lib.rs".to_string(), line: 4, col: 9 },
        code: Code(vec![line("let y = &mut x;", 4, Some(plain_marker(8, 13, '^', 9)))]),
        helps: vec![],
        notes: vec![],
    };
    let mut out: Vec<char> = Vec::new();
    error.display(&mut out);
    let text = collect(&out);
    assert!(text.starts_with(&format!("{}{}error[E0499]{}{}: cannot borrow twice\n", b(), c(9), n(), b())));
    assert!(text.contains(&format!("{} --> {}src/lib.rs:4:9\n", c(12), n())));
    // No helps and no notes: the main block is extended, so the marked last
    // line is still followed by a trailing blank gutter row.
    assert!(text.ends_with(&blank(1)));
}

#[test]
fn error_round_trip() {
    // Header, arrow line, first code line, ellipsis, second code line,
    // underline, help line, and the colorized suggestion line, in order.
    let error = Error {
        error_code: "E0308".to_string(),
        message: "mismatched types".to_string(),
        file: File { path: "main.rs".to_string(), line: 7, col: 5 },
        code: Code(vec![
            line("fn answer() -> i32 {", 3, Some(plain_marker(12, 18, '^', 9))),
            line("    \"forty-two\"", 7, Some(plain_marker(4, 9, '^', 9))),
        ]),
        helps: vec![Help {
            message: "convert the string to a number".to_string(),
            suggestion: Some(Code(vec![line(
                "    parse(\"forty-two\")",
                7,
                Some(Marker {
                    start: 10,
                    end: 21,
                    symbol: '~',
                    color: 10,
                    message: None,
                    color_span: true,
                }),
            )])),
        }],
        notes: vec![],
    };
    let mut out: Vec<char> = Vec::new();
    error.display(&mut out);
    let expected = format!("{}{}error[E0308]{}{}: mismatched types\n", b(), c(9), n(), b())
        + &format!("{} --> {}main.rs:7:5\n", c(12), n())
        + &blank(1)
        + &format!("{}{}3 | {}fn answer() -> i32 {{\n", b(), c(12), n())
        + &ugutter(1)
        + &format!("{}{}            ^^^^^^^{}\n", b(), c(9), n())
        + &format!("{}{}...\n{}", b(), c(12), n())
        + &format!("{}{}7 | {}    \"forty-two\"\n", b(), c(12), n())
        + &ugutter(1)
        + &format!("{}{}    ^^^^^^{}\n", b(), c(9), n())
        + &format!("{}{}help{}: convert the string to a number\n", b(), c(14), n())
        + &blank(1)
        + &format!(
            "{}{}7 | {}    parse({}\"forty-two\"){}\n",
            b(),
            c(12),
            n(),
            c(10),
            n()
        )
        + &ugutter(1)
        + &format!("{}{}          ~~~~~~~~~~~~{}\n", b(), c(10), n());
    assert_eq!(collect(&out), expected);
}

#[test]
fn warning_note_is_padded_to_gutter_width_plus_three() {
    let warning = Warning {
        message: "unused variable: `x`".to_string(),
        file: File { path: "src/main.rs".to_string(), line: 4, col: 8 },
        code: Code(vec![line("    let x = value;", 4, Some(plain_marker(8, 8, '^', 3)))]),
        helps: vec![],
        notes: vec![Note("`#[warn(unused_variables)]` on by default".to_string())],
    };
    let mut out: Vec<char> = Vec::new();
    warning.display(&mut out);
    let text = collect(&out);
    assert!(text.starts_with(&format!("{}{}warning{}{}: unused variable: `x`\n", b(), c(3), n(), b())));
    // Gutter width 1: the " = " prefix is right-aligned to 1 + 3 = 4 columns.
    let indented = format!(
        "{}{}  = {}{}note{}: `#[warn(unused_variables)]` on by default\n",
        b(),
        c(12),
        n(),
        b(),
        n()
    );
    assert!(text.ends_with(&indented));
}

#[test]
fn warning_note_padding_follows_wide_gutters() {
    let warning = Warning {
        message: "dead code".to_string(),
        file: File { path: "src/main.rs".to_string(), line: 120, col: 1 },
        code: Code(vec![line("fn unused() {}", 120, Some(plain_marker(3, 8, '^', 3)))]),
        helps: vec![],
        notes: vec![Note("it is never called".to_string())],
    };
    let mut out: Vec<char> = Vec::new();
    warning.display(&mut out);
    let text = collect(&out);
    // Gutter width 3: the " = " prefix is right-aligned to 3 + 3 = 6 columns.
    let indented = format!("{}{}    = {}{}note{}: it is never called\n", b(), c(12), n(), b(), n());
    assert!(text.ends_with(&indented));
}

#[test]
fn error_notes_use_the_plain_form() {
    let error = Error {
        error_code: "E0001".to_string(),
        message: "oops".to_string(),
        file: File { path: "a.rs".to_string(), line: 1, col: 1 },
        code: Code(vec![line("x", 1, None)]),
        helps: vec![],
        notes: vec![Note("first".to_string()), Note("second".to_string())],
    };
    let mut out: Vec<char> = Vec::new();
    error.display(&mut out);
    let text = collect(&out);
    assert!(text.ends_with(&format!(
        "{}note{}: first\n{}note{}: second\n",
        b(),
        n(),
        b(),
        n()
    )));
    // Notes follow the block, so the block is not extended; its markerless
    // last line still closes it with one trailing blank gutter row.
    assert_eq!(text.matches(&blank(1)).count(), 2);
}

#[test]
fn parse_usize_accepts_digit_runs_only() {
    assert_eq!(frack::parse_usize("0"), Some(0));
    assert_eq!(frack::parse_usize("42"), Some(42));
    assert_eq!(frack::parse_usize("007"), Some(7));
    assert_eq!(frack::parse_usize(""), None);
    assert_eq!(frack::parse_usize("4a"), None);
    assert_eq!(frack::parse_usize("-4"), None);
    assert_eq!(frack::parse_usize("99999999999999999999999"), None);
}

#[test]
fn parse_span_splits_at_the_first_dash() {
    assert_eq!(frack::parse_span("3-15"), Some((3, 15)));
    assert_eq!(frack::parse_span("0-0"), Some((0, 0)));
    assert_eq!(frack::parse_span("15-3"), Some((15, 3)));
    assert_eq!(frack::parse_span("3"), None);
    assert_eq!(frack::parse_span("3-"), None);
    assert_eq!(frack::parse_span("-5"), None);
    assert_eq!(frack::parse_span("3-15-7"), None);
    assert_eq!(frack::parse_span("a-b"), None);
}

#[test]
fn nested_suggestion_computes_its_own_gutter_width() {
    // The main block's three-digit line number widens its gutter to 3, but
    // the nested suggestion block computes its own width (1) independently.
    let error = Error {
        error_code: "E0614".to_string(),
        message: "type `u32` cannot be dereferenced".to_string(),
        file: File { path: "src/main.rs".to_string(), line: 120, col: 13 },
        code: Code(vec![line("    let y = *x;", 120, Some(plain_marker(12, 13, '^', 9)))]),
        helps: vec![Help {
            message: "remove the dereference".to_string(),
            suggestion: Some(Code(vec![line("    let y = x;", 7, Some(Marker {
                start: 12,
                end: 12,
                symbol: '~',
                color: 10,
                message: None,
                color_span: true,
            }))])),
        }],
        notes: vec![],
    };
    let mut out: Vec<char> = Vec::new();
    error.display(&mut out);
    let text = collect(&out);
    // Main block rows use width 3.
    assert!(text.contains(&blank(3)));
    assert!(text.contains(&format!("{}{}120 | {}    let y = *x;\n", b(), c(12), n())));
    assert!(text.contains(&ugutter(3)));
    // The suggestion block's rows use width 1.
    assert!(text.contains(&blank(1)));
    assert!(text.contains(&format!("{}{}7 | {}    let y = {}x{};\n", b(), c(12), n(), c(10), n())));
    assert!(text.contains(&ugutter(1)));
}
