//! Turns the dump of a database schema, one long sequence of statements,
//! into a tree of files with one object to a file.
//!
//! The dump is taken statement by statement. A parser of the SQL grammar,
//! which is not part of this library, gives each statement's syntax tree
//! ([`syntax`]). Classification ([`classify`]) makes of the statement's text
//! and tree, and of the catalog of the statements before it ([`catalog`]),
//! the typed entity that the statement adds to the catalog
//! ([`locations`]). Once the catalog is complete, every entity has its file
//! ([`locations::StatementLocation::path`]), and the writer ([`write`])
//! appends each entity's statement to its file, unless the file holds the
//! statement already.
//!
//! Every function states what it returns over the mathematical value of
//! its arguments, and is proved to do so.

pub mod catalog;
pub mod classify;
pub mod constraints;
pub mod error;
pub mod locations;
pub mod names;
pub mod syntax;
pub mod text;
pub mod write;
