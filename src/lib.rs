//! Classification of SQL syntax elements and the keywords that each node of a
//! keyword-stripped PostgreSQL syntax tree implies.
//!
//! - [`registry`]: one collision-free space of kinds built from the synthetic
//!   kinds, the grammar's node types and its lexical tokens.
//! - [`token`]: the tokens that the rule table emits, with their codes.
//! - [`property`]: the value that stands for one implied token.
//! - [`node`]: the library's model of an AST node instance, its classifier and
//!   the generic pass over its text fields.
//! - [`derive`]: the rule table and the derivation of a node's implied tokens.
pub mod registry;
pub mod token;
pub mod property;
pub mod node;
pub mod derive;
