//! Compiles a catalog of prepared SQL queries and custom database types into
//! the source text of typed accessor functions and type declarations.

pub mod codegen;
pub mod db_error;
pub mod naming;
pub mod parse;
pub mod pg_type;
pub mod prepare_queries;
pub mod text;
