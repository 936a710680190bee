//! The body of a query function: prepare the statement, call the client,
//! map the rows.

use vstd::prelude::*;
use crate::codegen::emitted;
use crate::codegen::error::CodegenError;
use crate::parse::Quantifier;
use crate::pg_type::{CornucopiaType, TypeModel, owned_type, type_models};
use crate::prepare_queries::{
    Param, ParamModel, PreparedQuery, QueryModel, ReturnModel, RustReturnType, param_models,
};
use crate::text::{
    decimal, decimal_string, join, join_strings, lemma_decimal_injective, views,
};

verus! {

/// Whether the quantifier and the return shape of `query` agree on being raw:
/// either both are, or neither is.
pub open spec fn raw_pairing_consistent(query: QueryModel) -> bool {
    (query.quantifier is Raw) == (query.ret is Raw)
}

/// The name of the client method that the body of `query` calls.
pub open spec fn query_method(query: QueryModel) -> Seq<char> {
    if query.ret is Void {
        "execute"@
    } else {
        match query.quantifier {
            Quantifier::ZeroOrMore => "query"@,
            Quantifier::ZeroOrOne => "query_opt"@,
            Quantifier::One => "query_one"@,
            Quantifier::Raw => "query_raw"@,
        }
    }
}

/// The arguments bound at the call site: a reference to each parameter, in
/// the order of declaration.
pub open spec fn bound_arguments(params: Seq<ParamModel>) -> Seq<Seq<char>> {
    Seq::new(params.len(), |i: int| "&"@ + params[i].name)
}

/// The type expression of a returned column: the usage path of its type,
/// wrapped in `Option` when the column is nullable.
pub open spec fn column_type(column: ParamModel) -> Seq<char> {
    owned_type(column.ty, column.is_nullable)
}

/// The local variable that holds the column at `index`.
pub open spec fn column_variable(index: nat) -> Seq<char> {
    "return_value_"@ + decimal(index)
}

/// The statement that reads the column at `index` of a row as a value of
/// type `ty`.
pub open spec fn column_binding(index: nat, ty: Seq<char>) -> Seq<char> {
    "let "@ + column_variable(index) + ": "@ + ty + " = res.get("@ + decimal(index) + ");"@
}

/// The statements that read the columns of a tuple, one per element, the
/// element at position `i` from column `i`.
pub open spec fn tuple_bindings(tys: Seq<TypeModel>) -> Seq<Seq<char>> {
    Seq::new(tys.len(), |i: int| column_binding(i as nat, tys[i].usage_path))
}

/// The variables that hold the columns of a row of `count` columns.
pub open spec fn column_variables(count: nat) -> Seq<Seq<char>> {
    Seq::new(count, |i: int| column_variable(i as nat))
}

/// The expression that builds one tuple from a row.
pub open spec fn tuple_value(tys: Seq<TypeModel>) -> Seq<char> {
    join(tuple_bindings(tys), " "@) + " ("@ + join(column_variables(tys.len()), ","@) + ")"@
}

/// The statements that read the columns of a row structure, one per field,
/// the field at position `i` from column `i`.
pub open spec fn struct_bindings(fields: Seq<ParamModel>) -> Seq<Seq<char>> {
    Seq::new(fields.len(), |i: int| column_binding(i as nat, column_type(fields[i])))
}

/// The field initialisers of a row structure: the field at position `i` takes
/// the variable of column `i`.
pub open spec fn struct_initialisers(fields: Seq<ParamModel>) -> Seq<Seq<char>> {
    Seq::new(fields.len(), |i: int| fields[i].name + " : "@ + column_variable(i as nat))
}

/// The expression that builds one row structure named `ret_ty` from a row.
pub open spec fn struct_value(fields: Seq<ParamModel>, ret_ty: Seq<char>) -> Seq<char> {
    join(struct_bindings(fields), " "@) + " "@ + ret_ty + " { "@ + join(
        struct_initialisers(fields),
        ","@,
    ) + " }"@
}

/// The statements that map the rows of a result through `row_value`: every
/// row into a vector, at most one row into an option, or exactly one row.
pub open spec fn mapped_rows(
    quantifier: Quantifier,
    row_value: Seq<char>,
    ret_ty: Seq<char>,
) -> Seq<char> {
    match quantifier {
        Quantifier::ZeroOrMore => "let return_value = res.iter().map(|res| { "@ + row_value
            + " }).collect::<Vec<"@ + ret_ty + ">>(); Ok(return_value)"@,
        Quantifier::ZeroOrOne => "let return_value = res.map(|res| { "@ + row_value
            + " }); Ok(return_value)"@,
        _ => "let return_value={ "@ + row_value + " }; Ok(return_value)"@,
    }
}

/// The statements that map the rows of a result to single values of type
/// `ret_ty`, each read from column 0.
pub open spec fn scalar_rows(quantifier: Quantifier, ret_ty: Seq<char>) -> Seq<char> {
    match quantifier {
        Quantifier::ZeroOrMore => "let return_value = res.iter().map(|row| {let value : "@ + ret_ty
            + " = row.get(0); value}).collect::<Vec<"@ + ret_ty + ">>(); Ok(return_value)"@,
        Quantifier::ZeroOrOne => "let return_value = res.map(|row| {let value: "@ + ret_ty
            + " = row.get(0); value}); Ok(return_value)"@,
        _ => "let return_value: "@ + ret_ty + " = res.get(0); Ok(return_value)"@,
    }
}

/// The last statements of the body of `query`: they turn the result of the
/// call into the value that the function returns.
pub open spec fn return_value(query: QueryModel, ret_ty: Seq<char>) -> Seq<char> {
    match query.ret {
        ReturnModel::Void => "Ok(())"@,
        ReturnModel::Scalar(_) => scalar_rows(query.quantifier, ret_ty),
        ReturnModel::Tuple(tys) => mapped_rows(query.quantifier, tuple_value(tys), ret_ty),
        ReturnModel::Struct(fields) => mapped_rows(
            query.quantifier,
            struct_value(fields, ret_ty),
            ret_ty,
        ),
        ReturnModel::Raw => "Ok(res)"@,
    }
}

/// The statements that call the client with the prepared statement and the
/// bound arguments. A raw query hands over an array whose length is the
/// number of parameters.
pub open spec fn client_call(query: QueryModel) -> Seq<char> {
    let arguments = join(bound_arguments(query.params), ","@);
    let result_variable = if query.ret is Void {
        "_"@
    } else {
        "res"@
    };
    if query.ret is Raw {
        "let params : [&dyn postgres_types::ToSql; "@ + decimal(query.params.len()) + "] = ["@
            + arguments + "];\nlet "@ + result_variable + " = client."@ + query_method(query)
            + "(&stmt, params).await?;"@
    } else {
        "let "@ + result_variable + " = client."@ + query_method(query) + "(&stmt, &["@
            + arguments + "]).await?;"@
    }
}

/// The body of the function generated for `query`, whose rows are mapped to
/// values of type `ret_ty`: prepare the statement, call the client, map the
/// result.
pub open spec fn query_body(query: QueryModel, ret_ty: Seq<char>) -> Seq<char> {
    "let stmt = client.prepare(\""@ + query.sql + "\").await?;\n"@ + client_call(query) + "\n"@
        + return_value(query, ret_ty)
}

/// The columns of a row are held by variables of their own: no two positions
/// share a variable.
pub proof fn lemma_column_variables_distinct(i: nat, j: nat)
    requires
        i != j,
    ensures
        column_variable(i) != column_variable(j),
{
    let prefix = "return_value_"@;
    if column_variable(i) == column_variable(j) {
        assert(decimal(i) =~= column_variable(i).subrange(
            prefix.len() as int,
            column_variable(i).len() as int,
        ));
        assert(decimal(j) =~= column_variable(j).subrange(
            prefix.len() as int,
            column_variable(j).len() as int,
        ));
        lemma_decimal_injective(i, j);
    }
}

/// Columns are read by position: the row structure of `fields` is built by
/// one statement per field, in the order of the fields, and the statement at
/// position `i` reads column `i` into the variable that the field at
/// position `i` is initialised with.
pub proof fn lemma_struct_columns_by_position(fields: Seq<ParamModel>, i: int)
    requires
        0 <= i < fields.len(),
    ensures
        struct_bindings(fields).len() == fields.len(),
        struct_initialisers(fields).len() == fields.len(),
        struct_bindings(fields)[i] == "let "@ + column_variable(i as nat) + ": "@ + column_type(
            fields[i],
        ) + " = res.get("@ + decimal(i as nat) + ");"@,
        struct_initialisers(fields)[i] == fields[i].name + " : "@ + column_variable(i as nat),
{
}

/// Columns are read by position: a tuple of `tys` is built by one statement
/// per element, in the order of the elements, and the statement at position
/// `i` reads column `i` into the variable at position `i` of the tuple.
pub proof fn lemma_tuple_columns_by_position(tys: Seq<TypeModel>, i: int)
    requires
        0 <= i < tys.len(),
    ensures
        tuple_bindings(tys).len() == tys.len(),
        column_variables(tys.len()).len() == tys.len(),
        tuple_bindings(tys)[i] == "let "@ + column_variable(i as nat) + ": "@ + tys[i].usage_path
            + " = res.get("@ + decimal(i as nat) + ");"@,
        column_variables(tys.len())[i] == column_variable(i as nat),
{
}

fn column_variable_name(index: usize) -> (res: String)
    ensures
        res@ == column_variable(index as nat),
{
    let mut out = String::from_str("return_value_");
    let number = decimal_string(index);
    out.append(number.as_str());
    out
}

fn column_binding_statement(index: usize, ty: &str) -> (res: String)
    ensures
        res@ == column_binding(index as nat, ty@),
{
    let mut out = String::from_str("let ");
    let variable = column_variable_name(index);
    let number = decimal_string(index);
    out.append(variable.as_str());
    out.append(": ");
    out.append(ty);
    out.append(" = res.get(");
    out.append(number.as_str());
    out.append(");");
    out
}

fn bound_argument_list(params: &Vec<Param>) -> (res: String)
    ensures
        res@ == join(bound_arguments(param_models(params@)), ","@),
{
    let mut arguments: Vec<String> = Vec::new();
    let mut i: usize = 0;
    while i < params.len()
        invariant
            i <= params.len(),
            arguments.len() == i,
            forall|j: int|
                0 <= j < i ==> (#[trigger] arguments[j])@ == bound_arguments(
                    param_models(params@),
                )[j],
        decreases params.len() - i,
    {
        let mut argument = String::from_str("&");
        argument.append(params[i].name.as_str());
        arguments.push(argument);
        i = i + 1;
    }
    assert(views(arguments@) =~= bound_arguments(param_models(params@)));
    join_strings(&arguments, ",")
}

fn tuple_value_expression(tys: &Vec<CornucopiaType>) -> (res: String)
    ensures
        res@ == tuple_value(type_models(tys@)),
{
    let mut bindings: Vec<String> = Vec::new();
    let mut variables: Vec<String> = Vec::new();
    let mut i: usize = 0;
    while i < tys.len()
        invariant
            i <= tys.len(),
            bindings.len() == i,
            variables.len() == i,
            forall|j: int|
                0 <= j < i ==> (#[trigger] bindings[j])@ == tuple_bindings(type_models(tys@))[j],
            forall|j: int|
                0 <= j < i ==> (#[trigger] variables[j])@ == column_variables(tys.len() as nat)[j],
        decreases tys.len() - i,
    {
        bindings.push(column_binding_statement(i, tys[i].rust_ty_usage_path.as_str()));
        variables.push(column_variable_name(i));
        i = i + 1;
    }
    assert(views(bindings@) =~= tuple_bindings(type_models(tys@)));
    assert(views(variables@) =~= column_variables(type_models(tys@).len()));
    let mut out = join_strings(&bindings, " ");
    let names = join_strings(&variables, ",");
    out.append(" (");
    out.append(names.as_str());
    out.append(")");
    out
}

fn struct_value_expression(fields: &Vec<Param>, ret_ty: &str) -> (res: String)
    ensures
        res@ == struct_value(param_models(fields@), ret_ty@),
{
    let mut bindings: Vec<String> = Vec::new();
    let mut initialisers: Vec<String> = Vec::new();
    let mut i: usize = 0;
    while i < fields.len()
        invariant
            i <= fields.len(),
            bindings.len() == i,
            initialisers.len() == i,
            forall|j: int|
                0 <= j < i ==> (#[trigger] bindings[j])@ == struct_bindings(
                    param_models(fields@),
                )[j],
            forall|j: int|
                0 <= j < i ==> (#[trigger] initialisers[j])@ == struct_initialisers(
                    param_models(fields@),
                )[j],
        decreases fields.len() - i,
    {
        let ty = fields[i].ty.owned_rust_ty(fields[i].is_nullable);
        bindings.push(column_binding_statement(i, ty.as_str()));
        let variable = column_variable_name(i);
        let mut initialiser = fields[i].name.clone();
        initialiser.append(" : ");
        initialiser.append(variable.as_str());
        initialisers.push(initialiser);
        i = i + 1;
    }
    assert(views(bindings@) =~= struct_bindings(param_models(fields@)));
    assert(views(initialisers@) =~= struct_initialisers(param_models(fields@)));
    let mut out = join_strings(&bindings, " ");
    let inits = join_strings(&initialisers, ",");
    out.append(" ");
    out.append(ret_ty);
    out.append(" { ");
    out.append(inits.as_str());
    out.append(" }");
    out
}

fn mapped_rows_statements(quantifier: Quantifier, row_value: &str, ret_ty: &str) -> (res: String)
    ensures
        res@ == mapped_rows(quantifier, row_value@, ret_ty@),
{
    match quantifier {
        Quantifier::ZeroOrMore => {
            let mut out = String::from_str("let return_value = res.iter().map(|res| { ");
            out.append(row_value);
            out.append(" }).collect::<Vec<");
            out.append(ret_ty);
            out.append(">>(); Ok(return_value)");
            out
        },
        Quantifier::ZeroOrOne => {
            let mut out = String::from_str("let return_value = res.map(|res| { ");
            out.append(row_value);
            out.append(" }); Ok(return_value)");
            out
        },
        _ => {
            let mut out = String::from_str("let return_value={ ");
            out.append(row_value);
            out.append(" }; Ok(return_value)");
            out
        },
    }
}

fn scalar_rows_statements(quantifier: Quantifier, ret_ty: &str) -> (res: String)
    ensures
        res@ == scalar_rows(quantifier, ret_ty@),
{
    match quantifier {
        Quantifier::ZeroOrMore => {
            let mut out = String::from_str("let return_value = res.iter().map(|row| {let value : ");
            out.append(ret_ty);
            out.append(" = row.get(0); value}).collect::<Vec<");
            out.append(ret_ty);
            out.append(">>(); Ok(return_value)");
            out
        },
        Quantifier::ZeroOrOne => {
            let mut out = String::from_str("let return_value = res.map(|row| {let value: ");
            out.append(ret_ty);
            out.append(" = row.get(0); value}); Ok(return_value)");
            out
        },
        _ => {
            let mut out = String::from_str("let return_value: ");
            out.append(ret_ty);
            out.append(" = res.get(0); Ok(return_value)");
            out
        },
    }
}

fn query_method_name(query: &PreparedQuery) -> (res: &'static str)
    ensures
        res@ == query_method(query@),
{
    if let RustReturnType::Void = query.ret {
        "execute"
    } else {
        match query.quantifier {
            Quantifier::ZeroOrMore => "query",
            Quantifier::ZeroOrOne => "query_opt",
            Quantifier::One => "query_one",
            Quantifier::Raw => "query_raw",
        }
    }
}

fn client_call_statements(query: &PreparedQuery) -> (res: String)
    ensures
        res@ == client_call(query@),
{
    let arguments = bound_argument_list(&query.params);
    let method = query_method_name(query);
    let result_variable = match query.ret {
        RustReturnType::Void => "_",
        _ => "res",
    };
    if let RustReturnType::Raw = query.ret {
        let count = decimal_string(query.params.len());
        let mut out = String::from_str("let params : [&dyn postgres_types::ToSql; ");
        out.append(count.as_str());
        out.append("] = [");
        out.append(arguments.as_str());
        out.append("];\nlet ");
        out.append(result_variable);
        out.append(" = client.");
        out.append(method);
        out.append("(&stmt, params).await?;");
        out
    } else {
        let mut out = String::from_str("let ");
        out.append(result_variable);
        out.append(" = client.");
        out.append(method);
        out.append("(&stmt, &[");
        out.append(arguments.as_str());
        out.append("]).await?;");
        out
    }
}

fn return_value_statements(query: &PreparedQuery, ret_ty: &str) -> (res: String)
    ensures
        res@ == return_value(query@, ret_ty@),
{
    match &query.ret {
        RustReturnType::Void => String::from_str("Ok(())"),
        RustReturnType::Scalar(_) => scalar_rows_statements(query.quantifier, ret_ty),
        RustReturnType::Tuple(tys) => {
            let value = tuple_value_expression(tys);
            mapped_rows_statements(query.quantifier, value.as_str(), ret_ty)
        },
        RustReturnType::Struct(fields) => {
            let value = struct_value_expression(fields, ret_ty);
            mapped_rows_statements(query.quantifier, value.as_str(), ret_ty)
        },
        RustReturnType::Raw => String::from_str("Ok(res)"),
    }
}

/// Emits the body of the function generated for `query`, whose rows are
/// mapped to values of type `ret_ty`.
///
/// Fails exactly when one of quantifier and return shape is raw and the
/// other is not.
pub fn generate_query_body(query: &PreparedQuery, ret_ty: String) -> (res: Result<String, CodegenError>)
    ensures
        emitted(res) == if raw_pairing_consistent(query@) {
            Ok::<Seq<char>, CodegenError>(query_body(query@, ret_ty@))
        } else {
            Err(CodegenError::UnexpectedRawQuantifier)
        },
{
    let ret_is_raw = match query.ret {
        RustReturnType::Raw => true,
        _ => false,
    };
    let quantifier_is_raw = match query.quantifier {
        Quantifier::Raw => true,
        _ => false,
    };
    if ret_is_raw != quantifier_is_raw {
        return Err(CodegenError::UnexpectedRawQuantifier);
    }
    let call = client_call_statements(query);
    let value = return_value_statements(query, ret_ty.as_str());
    let mut out = String::from_str("let stmt = client.prepare(\"");
    out.append(query.sql.as_str());
    out.append("\").await?;\n");
    out.append(call.as_str());
    out.append("\n");
    out.append(value.as_str());
    Ok(out)
}

} // verus!
