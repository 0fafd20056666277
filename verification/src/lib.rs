//! Syntax trees for a host with a garbage collector: a registry of
//! grammars, parsers that turn text into trees, nodes and cursors that keep
//! their tree alive, and queries over trees. The parsing engine does the
//! parsing, the walking and the matching; what is proved here is what the
//! library adds to it: which grammar a name is bound to, which errors come
//! on which inputs, that every node and cursor handed out holds the tree it
//! points into, and that the engine's answers are handed on whole and in
//! order. The `raw_` modules hold what is taken for granted of the engine.
pub mod data;
pub mod error;
pub mod language;
pub mod parser;
pub mod query;
pub mod raw_language;
pub mod raw_parser;
pub mod raw_query;
pub mod raw_tree;
pub mod registry;
pub mod text;
pub mod tree;
