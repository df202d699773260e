//! A runtime code-generation engine for small arithmetic and comparison
//! expressions over columnar data.
//!
//! The crate builds one compilation unit at a time: a registry of
//! precompiled native helper routines, a module-level context that
//! declares functions, and a per-function build context that lays out
//! blocks, instructions and scratch stack slots.  The intermediate
//! representation is plain data; an embedder lowers it to machine code
//! with a backend of its choice and binds the registered helper
//! addresses as import symbols.

pub mod arrow_kernels;
pub mod denote;
pub mod error;
pub mod expr_build;
pub mod expr_gen;
pub mod exec_ctx;
pub mod func_gen;
pub mod gen_ctx;
pub mod kind;
pub mod native_opcall;
pub mod physical;
pub mod registry;
