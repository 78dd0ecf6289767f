//! Line, word and byte counts of byte buffers, and the fixed-width lines
//! that report them.
pub mod counts;
pub mod report;
pub mod text;

pub use counts::{count_buffer, Counts};
pub use report::{diagnostic, display_name, format_line, total_line, Columns, FIELD_WIDTH};
pub use text::count_words;
