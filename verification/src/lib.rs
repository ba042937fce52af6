//! Renders structured diagnostics (errors and warnings) in the visual style
//! of `rustc`: a colored header, a file/line/column location, a source-code
//! excerpt with a line-number gutter, an underline beneath the offending
//! span, nested help suggestions, and trailing notes.
//!
//! All rendering appends characters (including ANSI escape sequences) to a
//! caller-supplied `Vec<char>` sink. Every render function carries a contract
//! stating the exact character sequence it appends.

pub mod code;
pub mod diag;
pub mod gutter;
pub mod line;
pub mod marker;
pub mod span;
pub mod style;
pub mod text;

pub use code::Code;
pub use diag::Error;
pub use diag::File;
pub use diag::Help;
pub use diag::Note;
pub use diag::Warning;
pub use line::Line;
pub use marker::Marker;
pub use span::parse_span;
pub use span::parse_usize;
pub use style::bold;
pub use style::color;
pub use style::normal;
pub use style::width;
