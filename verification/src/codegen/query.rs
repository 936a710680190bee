//! The function generated for one query: its row structure, parameters,
//! return type and body.

use vstd::prelude::*;
use crate::codegen::body::{
    bound_arguments, column_binding, column_type, column_variable, generate_query_body,
    query_body, raw_pairing_consistent, struct_bindings, struct_initialisers,
};
use crate::codegen::error::CodegenError;
use crate::codegen::{emitted, emitted_option};
use crate::naming::{to_upper_camel_case, upper_camel_case};
use crate::parse::Quantifier;
use crate::pg_type::{TypeModel, borrowed_type, type_models};
use crate::prepare_queries::{
    ParamModel, PreparedQuery, QueryModel, ReturnModel, RustReturnType, param_models,
};
use crate::text::{join, join_strings, views};

verus! {

/// The fields of the row structure of a query, one per returned column:
/// under the column's name, typed by the owned type of the column.
pub open spec fn struct_fields(fields: Seq<ParamModel>) -> Seq<Seq<char>> {
    Seq::new(fields.len(), |i: int| "pub "@ + fields[i].name + " : "@ + column_type(fields[i]))
}

/// The declaration of the row structure `struct_name` with `fields`.
pub open spec fn struct_declaration(struct_name: Seq<char>, fields: Seq<ParamModel>) -> Seq<char> {
    "#[derive(Debug, Clone, PartialEq)] pub struct "@ + struct_name + " {"@ + join(
        struct_fields(fields),
        ","@,
    ) + "}"@
}

/// The row structure that `query` needs, where its rows are structures
/// called `struct_name`; no other return shape needs a declaration.
pub open spec fn query_struct(query: QueryModel, struct_name: Seq<char>) -> Option<Seq<char>> {
    match query.ret {
        ReturnModel::Struct(fields) => Some(struct_declaration(struct_name, fields)),
        _ => None,
    }
}

/// The parameters of the function generated for a query: each under its
/// name, typed by the borrowed type of its type.
pub open spec fn parameter_list(params: Seq<ParamModel>) -> Seq<Seq<char>> {
    Seq::new(params.len(), |i: int| params[i].name + " : "@ + borrowed_type(params[i].ty))
}

/// The usage paths of `tys`, in order.
pub open spec fn usage_paths(tys: Seq<TypeModel>) -> Seq<Seq<char>> {
    Seq::new(tys.len(), |i: int| tys[i].usage_path)
}

/// The type to which one row of `query` is mapped, where a row structure is
/// called `struct_name`.
pub open spec fn return_type(query: QueryModel, struct_name: Seq<char>) -> Seq<char> {
    match query.ret {
        ReturnModel::Void => "()"@,
        ReturnModel::Scalar(ty) => ty.usage_path,
        ReturnModel::Tuple(tys) => "("@ + join(usage_paths(tys), ","@) + ")"@,
        ReturnModel::Struct(_) => struct_name,
        ReturnModel::Raw => "tokio_postgres::RowStream"@,
    }
}

/// The type that the function generated for `query` returns on success,
/// given the type `ret_ty` of one row: a vector for any number of rows, an
/// option for at most one, the type itself for exactly one row or a raw
/// stream. A query that returns nothing has the unit type.
pub open spec fn quantified_return_type(query: QueryModel, ret_ty: Seq<char>) -> Seq<char> {
    if query.ret is Void {
        "()"@
    } else {
        match query.quantifier {
            Quantifier::ZeroOrMore => "Vec<"@ + ret_ty + ">"@,
            Quantifier::ZeroOrOne => "Option<"@ + ret_ty + ">"@,
            _ => ret_ty,
        }
    }
}

/// The row type of `query` as the generated function names it: a row
/// structure by its path inside the module `module_name`, any other type as
/// [`return_type`] gives it.
pub open spec fn qualified_return_type(
    module_name: Seq<char>,
    query: QueryModel,
    struct_name: Seq<char>,
) -> Seq<char> {
    if query.ret is Struct {
        "super::super::queries::"@ + module_name + "::"@ + return_type(query, struct_name)
    } else {
        return_type(query, struct_name)
    }
}

/// The text generated for `query` in the module `module_name`, where a row
/// structure is called `struct_name`: the row structure if there is one, then
/// the function with its parameters, return type and body.
pub open spec fn query_function(
    module_name: Seq<char>,
    query: QueryModel,
    struct_name: Seq<char>,
) -> Seq<char> {
    let ret_ty = qualified_return_type(module_name, query, struct_name);
    let declaration = match query_struct(query, struct_name) {
        Some(text) => text,
        None => Seq::empty(),
    };
    declaration + "\n    pub async fn "@ + query.name + "<T: GenericClient>(client:&T, "@ + join(
        parameter_list(query.params),
        ","@,
    ) + ") -> Result<"@ + quantified_return_type(query, ret_ty) + ",Error> {"@ + query_body(
        query,
        ret_ty,
    ) + "}"@
}

/// The row structure and the body agree: the field declared at position `i`
/// has the name that the body initialises at position `i`, and the type as
/// which the body reads column `i`.
pub proof fn lemma_row_structure_matches_columns(fields: Seq<ParamModel>, i: int)
    requires
        0 <= i < fields.len(),
    ensures
        struct_fields(fields).len() == struct_bindings(fields).len(),
        struct_fields(fields)[i] == "pub "@ + fields[i].name + " : "@ + column_type(fields[i]),
        struct_bindings(fields)[i] == column_binding(i as nat, column_type(fields[i])),
        struct_initialisers(fields)[i] == fields[i].name + " : "@ + column_variable(i as nat),
{
}

/// Parameters are bound in the order of declaration: the call hands over as
/// many arguments as the query has parameters, and the argument at position
/// `i` is a reference to the parameter at position `i`, which is also the
/// parameter at position `i` of the generated function.
pub proof fn lemma_parameters_by_position(params: Seq<ParamModel>, i: int)
    requires
        0 <= i < params.len(),
    ensures
        bound_arguments(params).len() == params.len(),
        parameter_list(params).len() == params.len(),
        bound_arguments(params)[i] == "&"@ + params[i].name,
        parameter_list(params)[i] == params[i].name + " : &"@ + params[i].ty.usage_path,
{
    assert(params[i].name + " : "@ + ("&"@ + params[i].ty.usage_path) =~= params[i].name + " : &"@
        + params[i].ty.usage_path) by {
        reveal_strlit(" : ");
        reveal_strlit(" : &");
        reveal_strlit("&");
    }
}

/// The quantifier alone decides how the row type is wrapped, whatever the
/// return shape, as long as the query returns something: a vector for any
/// number of rows, an option for at most one row, the row type itself
/// otherwise. A query that returns nothing has the unit type under every
/// quantifier.
pub proof fn lemma_return_type_wrapping(query: QueryModel, ret_ty: Seq<char>)
    ensures
        query.ret is Void ==> quantified_return_type(query, ret_ty) == "()"@,
        !(query.ret is Void) && query.quantifier is ZeroOrMore ==> quantified_return_type(
            query,
            ret_ty,
        ) == "Vec<"@ + ret_ty + ">"@,
        !(query.ret is Void) && query.quantifier is ZeroOrOne ==> quantified_return_type(
            query,
            ret_ty,
        ) == "Option<"@ + ret_ty + ">"@,
        !(query.ret is Void) && (query.quantifier is One || query.quantifier is Raw)
            ==> quantified_return_type(query, ret_ty) == ret_ty,
{
}

/// Emits the declaration of the row structure of `query` under the name
/// `struct_name`, if the query returns structures.
pub fn query_struct_with_name(query: &PreparedQuery, struct_name: &str) -> (res: Option<String>)
    ensures
        emitted_option(res) == query_struct(query@, struct_name@),
{
    if let RustReturnType::Struct(fields) = &query.ret {
        let mut field_strings: Vec<String> = Vec::new();
        let mut i: usize = 0;
        while i < fields.len()
            invariant
                i <= fields.len(),
                field_strings.len() == i,
                forall|j: int|
                    0 <= j < i ==> (#[trigger] field_strings[j])@ == struct_fields(
                        param_models(fields@),
                    )[j],
            decreases fields.len() - i,
        {
            let ty = fields[i].ty.owned_rust_ty(fields[i].is_nullable);
            let mut field = String::from_str("pub ");
            field.append(fields[i].name.as_str());
            field.append(" : ");
            field.append(ty.as_str());
            field_strings.push(field);
            i = i + 1;
        }
        assert(views(field_strings@) =~= struct_fields(param_models(fields@)));
        let list = join_strings(&field_strings, ",");
        let mut out = String::from_str("#[derive(Debug, Clone, PartialEq)] pub struct ");
        out.append(struct_name);
        out.append(" {");
        out.append(list.as_str());
        out.append("}");
        Some(out)
    } else {
        None
    }
}

/// Emits the declaration of the row structure of `query`, if the query
/// returns structures. The structure is named after the query, in upper
/// camel case. Never fails.
pub fn generate_query_struct(query: &PreparedQuery) -> (res: Result<Option<String>, CodegenError>)
    ensures
        res matches Ok(declaration) && emitted_option(declaration) == query_struct(
            query@,
            upper_camel_case(query@.name),
        ),
{
    let struct_name = to_upper_camel_case(query.name.as_str());
    Ok(query_struct_with_name(query, struct_name.as_str()))
}

/// Wraps the row type `ret_ty` as the quantifier of `query` asks.
pub fn generate_query_quantified_ret_ty(query: &PreparedQuery, ret_ty: &str) -> (res: String)
    ensures
        res@ == quantified_return_type(query@, ret_ty@),
{
    if let RustReturnType::Void = query.ret {
        String::from_str("()")
    } else {
        match query.quantifier {
            Quantifier::ZeroOrMore => {
                let mut out = String::from_str("Vec<");
                out.append(ret_ty);
                out.append(">");
                out
            },
            Quantifier::ZeroOrOne => {
                let mut out = String::from_str("Option<");
                out.append(ret_ty);
                out.append(">");
                out
            },
            _ => String::from_str(ret_ty),
        }
    }
}

/// Emits the parameters of the function generated for `query`, in the order
/// of declaration, each typed by its borrowed type. Never fails.
pub fn generate_query_params(query: &PreparedQuery) -> (res: Result<String, CodegenError>)
    ensures
        emitted(res) == Ok::<Seq<char>, CodegenError>(join(parameter_list(query@.params), ","@)),
{
    let mut param_strings: Vec<String> = Vec::new();
    let mut i: usize = 0;
    while i < query.params.len()
        invariant
            i <= query.params.len(),
            param_strings.len() == i,
            forall|j: int|
                0 <= j < i ==> (#[trigger] param_strings[j])@ == parameter_list(query@.params)[j],
        decreases query.params.len() - i,
    {
        let ty = query.params[i].ty.borrowed_rust_ty();
        let mut param = query.params[i].name.clone();
        param.append(" : ");
        param.append(ty.as_str());
        param_strings.push(param);
        i = i + 1;
    }
    assert(views(param_strings@) =~= parameter_list(query@.params));
    Ok(join_strings(&param_strings, ","))
}

/// Emits the type to which one row of `query` is mapped, where a row
/// structure is called `struct_name`.
pub fn query_ret_ty_with_name(query: &PreparedQuery, struct_name: &str) -> (res: String)
    ensures
        res@ == return_type(query@, struct_name@),
{
    match &query.ret {
        RustReturnType::Void => String::from_str("()"),
        RustReturnType::Scalar(ty) => ty.rust_ty_usage_path.clone(),
        RustReturnType::Tuple(tys) => {
            let mut paths: Vec<String> = Vec::new();
            let mut i: usize = 0;
            while i < tys.len()
                invariant
                    i <= tys.len(),
                    paths.len() == i,
                    forall|j: int|
                        0 <= j < i ==> (#[trigger] paths[j])@ == usage_paths(type_models(tys@))[j],
                decreases tys.len() - i,
            {
                paths.push(tys[i].rust_ty_usage_path.clone());
                i = i + 1;
            }
            assert(views(paths@) =~= usage_paths(type_models(tys@)));
            let list = join_strings(&paths, ",");
            let mut out = String::from_str("(");
            out.append(list.as_str());
            out.append(")");
            out
        },
        RustReturnType::Struct(_) => String::from_str(struct_name),
        RustReturnType::Raw => String::from_str("tokio_postgres::RowStream"),
    }
}

/// Emits the type to which one row of `query` is mapped. A row structure is
/// named after the query, in upper camel case. Never fails.
pub fn generate_query_ret_ty(query: &PreparedQuery) -> (res: Result<String, CodegenError>)
    ensures
        emitted(res) == Ok::<Seq<char>, CodegenError>(
            return_type(query@, upper_camel_case(query@.name)),
        ),
{
    let struct_name = to_upper_camel_case(query.name.as_str());
    Ok(query_ret_ty_with_name(query, struct_name.as_str()))
}

/// Emits the text for `query` in the module `module_name`, where a row
/// structure is called `struct_name`.
///
/// Fails exactly when one of quantifier and return shape is raw and the
/// other is not.
pub fn query_with_struct_name(module_name: &str, query: &PreparedQuery, struct_name: &str) -> (res:
    Result<String, CodegenError>)
    ensures
        emitted(res) == if raw_pairing_consistent(query@) {
            Ok::<Seq<char>, CodegenError>(query_function(module_name@, query@, struct_name@))
        } else {
            Err(CodegenError::UnexpectedRawQuantifier)
        },
{
    let query_struct = match query_struct_with_name(query, struct_name) {
        Some(text) => text,
        None => String::new(),
    };
    let params = match generate_query_params(query) {
        Ok(text) => text,
        Err(e) => {
            return Err(e);
        },
    };
    let ret_ty = query_ret_ty_with_name(query, struct_name);
    let ret_ty = if let RustReturnType::Struct(_) = query.ret {
        let mut path = String::from_str("super::super::queries::");
        path.append(module_name);
        path.append("::");
        path.append(ret_ty.as_str());
        path
    } else {
        ret_ty
    };
    let ret = generate_query_quantified_ret_ty(query, ret_ty.as_str());
    let body = match generate_query_body(query, ret_ty) {
        Ok(text) => text,
        Err(e) => {
            return Err(e);
        },
    };
    let mut out = query_struct;
    out.append("\n    pub async fn ");
    out.append(query.name.as_str());
    out.append("<T: GenericClient>(client:&T, ");
    out.append(params.as_str());
    out.append(") -> Result<");
    out.append(ret.as_str());
    out.append(",Error> {");
    out.append(body.as_str());
    out.append("}");
    Ok(out)
}

/// Emits the text for `query` in the module `module_name`: the row
/// structure if the query returns structures, then the function. A row
/// structure is named after the query, in upper camel case.
///
/// Fails exactly when one of quantifier and return shape is raw and the
/// other is not.
pub fn generate_query(module_name: &str, query: &PreparedQuery) -> (res: Result<String, CodegenError>)
    ensures
        emitted(res) == if raw_pairing_consistent(query@) {
            Ok::<Seq<char>, CodegenError>(
                query_function(module_name@, query@, upper_camel_case(query@.name)),
            )
        } else {
            Err(CodegenError::UnexpectedRawQuantifier)
        },
{
    let struct_name = to_upper_camel_case(query.name.as_str());
    query_with_struct_name(module_name, query, struct_name.as_str())
}

} // verus!
