//! A fixed vocabulary list, loaded once from JSON text and served read-only
//! as a JSON array.

pub mod json;
pub mod load;
pub mod serve;
pub mod word;

pub use load::{load_words, parse_words, Field, FormatError, LoadError};
pub use serve::{get_words, words_json, Reply};
pub use word::WordEntry;
