//! From parsed declarations to documentation nodes.

pub mod ast;
pub mod class;
pub mod function;
pub mod interface;
pub mod module;
pub mod namespace;
pub mod node;
pub mod parser;
pub mod source;
pub mod ts_enum;
pub mod ts_type;
pub mod type_alias;
pub mod validate;
pub mod variable;
pub mod well_formed;

pub use node::DocNode;
pub use node::DocNodeDef;
pub use node::DocNodeKind;
pub use parser::DocParser;
pub use source::Location;
pub use ts_type::ParamDef;
