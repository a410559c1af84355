//! Turns a cron schedule into one plain English sentence.
//!
//! A schedule is six fields (seconds, minutes, hours, day of month, month,
//! day of week), each resolved to the ascending list of values it matches.
//! The sentence is assembled from per-field fragments; every function states
//! the exact text it produces over `Seq<char>`.
//!
//! - `text`: white space, decimal numerals, joining of words and lists
//! - `ordinal`: English ordinals, written by the `Inflector` crate
//! - `field`: a resolved field and the pattern of its values
//! - `lists`: lists of numbers and of day and month names
//! - `fragments`: what seconds and minutes contribute to a sentence
//! - `sentence`: the sentence of six fields
//! - `expression`: from the text of an expression, parsed by the `cron`
//!   crate, to its sentence
//! - `tidy`, `laws`: what is proved of every sentence

pub mod expression;
pub mod field;
pub mod fragments;
pub mod laws;
pub mod lists;
pub mod ordinal;
pub mod sentence;
pub mod text;
pub mod tidy;

pub use expression::prettify_cron;
pub use expression::try_prettify_cron;
pub use expression::ParseError;
pub use field::CronFields;
pub use field::ResolvedField;
pub use field::StepPattern;
pub use lists::DateNaming;
pub use sentence::describe;
