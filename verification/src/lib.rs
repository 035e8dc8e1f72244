//! A personal diary library: dated markdown entries and a summarization
//! pipeline that prepares a prompt for a remote text-generation API,
//! extracts the generated text from its response, and formats the result
//! for terminal display.

pub mod dates;
pub mod entry;
pub mod summary;
