//! The semantic model of a Mun source file: the definitions it declares, a
//! stable identity for each of them, the data derived from each definition,
//! and the diagnostics of every level gathered into one sink.
//!
//! A file comes in as an [`item_tree::ItemTree`]: its functions, structs and
//! type aliases in source order, as the syntax shows them. Taking the file in
//! ([`db::HirDatabase::add_file`]) gives every item its identity ([`ids`]) and
//! works out the declarations of the module and the collisions among their
//! names ([`code_model::module`]). From then on every question is answered
//! from the database without changing it: the signature of a function
//! ([`code_model::function`]), the fields of a struct
//! ([`code_model::structure`]), the target of a type alias
//! ([`code_model::type_alias`]), and what a module has to report
//! ([`code_model::module::Module::diagnostics`]).
//!
//! Lowering, inference and validation of bodies are the work of later phases.
//! The database takes their results in and reports their findings in a fixed
//! order; it does not compute them.

pub mod adt;
pub mod builtin_type;
pub mod code_model;
pub mod db;
pub mod diagnostics;
pub mod expr;
pub mod ids;
pub mod item_tree;
pub mod name;
pub mod name_index;
pub mod resolve;
pub mod syntax;
pub mod ty;
pub mod type_ref;
pub mod validator;

pub use crate::code_model::function::FunctionData;
pub use crate::code_model::module::{Module, ModuleData};
pub use crate::code_model::structure::StructField;
pub use crate::code_model::{
    DefWithBody, DefWithStruct, Function, ModuleDef, Struct, TypeAlias, Visibility,
};
pub use crate::db::{DefDatabase, HirDatabase};
pub use crate::diagnostics::{Diagnostic, DiagnosticSink};
pub use crate::ids::FileId;
pub use crate::name::Name;
pub use crate::ty::Ty;
