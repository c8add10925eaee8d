//! Conversion of date/time text into Discord `<t:unix:style>` markup
//! timestamps: a fallback parser over configurable format strings, a
//! zero-offset epoch conversion, and a closed table of output styles.

pub mod civil;
pub mod decimal;
pub mod parse;
pub mod style;
