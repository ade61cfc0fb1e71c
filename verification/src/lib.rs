//! A Rust-to-C# code generator: naming conventions, indented writers,
//! a model of types and MIR bodies rendered to C#, the expression IR with
//! its rewriting passes and its emission as C#, the classes of a crate's
//! modules with the declarations of their traits, structs and enums, the
//! items declared in function bodies, dyn compatibility of traits, and the
//! translation of macro calls.

pub mod text;
pub mod naming;
pub mod names;
pub mod writer;
pub mod output;
pub mod id_map;
pub mod delay_format;
pub mod options;
pub mod consts;
pub mod types;
pub mod mir;
pub mod item;
pub mod eir;
pub mod eir_clone;
pub mod transformer;
pub mod or_patterns;
pub mod format_args;
pub mod item_exclusion;
pub mod function_resolution;
pub mod passes;
pub mod implicit_returns;
pub mod emitter;
pub mod patterns;
pub mod body;
pub mod decl;
pub mod adt;
pub mod deferred;
pub mod macros;
pub mod dyn_compat;
pub mod modules;
