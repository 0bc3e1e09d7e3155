//! Counting bytes, lines, words and characters of a text, and resolving the
//! command line of a small `wc`-style tool into what to count and where from.

mod config;
mod counters;
mod report;

pub use config::{
    Config, ConfigView, Flag, NOT_ENOUGH_ARGUMENTS, TOO_MANY_ARGUMENTS, UNRECOGNIZED_FLAG,
};
pub use counters::{
    get_num_char, get_num_lines, get_num_words, get_size_in_bytes, lemma_bytes_cover_chars,
    lemma_counts_depend_on_text_alone,
};
pub use report::format_report;
