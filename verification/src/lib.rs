//! Documentation extraction for exported TypeScript declarations.
//!
//! Given the syntax tree of a module, the text it was parsed from and the
//! comments found in it, the functions here build one documentation node for
//! every exported declaration, find nodes by name, and render nodes as lines
//! of text. Every function is verified against a contract that is stated
//! over the views of these types.

pub mod doc;
pub mod lookup;
pub mod printer;
pub mod text;
