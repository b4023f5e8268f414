//! Derives text parsers from regular expressions: given a pattern with named
//! capture groups and the description of a struct or an enum, assembles what
//! parses a line of text into a value of that type.
//!
//! - [`regex`] repairs a pattern whose capture groups carry numeric names.
//! - [`expr`] holds the construction expressions that compute a field.
//! - [`transform_idents`] rewrites such an expression, so that each
//!   identifier that stands for a value reads the capture of its name;
//!   [`rewrite_laws`] holds what is proved of every rewriting.
//! - [`schema`] describes the type to parse into, and [`adhoc`] assembles its
//!   parser from the description.
//! - [`routine`] holds the decisions that an assembled parser takes on an
//!   input.

pub mod adhoc;
pub mod expr;
pub mod regex;
pub mod rewrite_laws;
pub mod routine;
pub mod schema;
pub mod transform_idents;
