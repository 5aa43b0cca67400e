//! A small CSV reader: a line-counting character cursor and a
//! finite-state-machine tokenizer that turns one line of comma-separated
//! text into a record of fields, honoring double-quote quoting with
//! doubled-quote escaping.

mod cursor;
mod laws;
mod parser;

pub use cursor::IteratorWithLineNo;
pub use laws::all_plain;
pub use laws::comma_join;
pub use laws::is_plain;
pub use laws::lemma_cr_skipped;
pub use laws::lemma_escaped_quote;
pub use laws::lemma_plain_chars;
pub use laws::lemma_quoted_verbatim;
pub use laws::lemma_unquoted_fields;
pub use laws::lemma_unterminated_quote;
pub use laws::newline_count;
pub use parser::CsvParseError;
pub use parser::CsvParser;
pub use parser::ErrKind;
pub use parser::Outcome;
pub use parser::State;
pub use parser::Step;
pub use parser::add_used;
pub use parser::error_message;
pub use parser::spec_parse;
pub use parser::spec_run;
pub use parser::spec_step;
pub use parser::step_post;
