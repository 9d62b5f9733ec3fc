//! The type engine of a Lua analyzer: a tagged type representation, a
//! database of declarations, structural type compatibility, the generic
//! constraint checker and the rendering of types for hover text.

pub mod checker;
pub mod code_actions;
pub mod db;
pub mod diagnostic;
pub mod doc_type;
pub mod generic_constraint;
pub mod hover;
pub mod hover_builder;
pub mod hover_function;
pub mod humanize;
pub mod ids;
pub mod semantic;
pub mod syntax;
pub mod text;
pub mod type_check;
pub mod types;
pub mod workspace;

