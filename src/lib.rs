//! The textual format of sandbox profiles: a line-oriented language of
//! directives, comments and conditional directives. A profile is read into
//! classified lines, lines that cannot be classified are kept as they were, and
//! a profile is written back as text.

pub mod command;
pub mod conditional;
pub mod error;
pub mod location;
pub mod profile;
pub mod profile_stream;
pub mod standalone;
pub mod text;
pub mod utils;
pub mod values;
