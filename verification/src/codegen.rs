//! Emits the source text of query functions and custom type declarations.
//!
//! Every emitter comes with a specification function that gives the emitted
//! text as a sequence of characters over the model of its input.

use vstd::prelude::*;
use self::error::CodegenError;

pub mod body;
pub mod custom_type;
pub mod error;
pub mod query;
pub mod source;

pub use self::body::generate_query_body;
pub use self::custom_type::{generate_custom_type, generate_type_modules};
pub use self::query::{
    generate_query, generate_query_params, generate_query_quantified_ret_ty,
    generate_query_ret_ty, generate_query_struct, query_ret_ty_with_name,
    query_struct_with_name, query_with_struct_name,
};
pub use self::source::generate_source;

verus! {

/// What a fallible emitter handed back: the characters of the text, or the
/// failure.
pub open spec fn emitted(res: Result<String, CodegenError>) -> Result<Seq<char>, CodegenError> {
    match res {
        Ok(text) => Ok(text@),
        Err(e) => Err(e),
    }
}

/// What an emitter of an optional item handed back: the characters of the
/// text, if there is one.
pub open spec fn emitted_option(res: Option<String>) -> Option<Seq<char>> {
    match res {
        Some(text) => Some(text@),
        None => None,
    }
}

} // verus!
