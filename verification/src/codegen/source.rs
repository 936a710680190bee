//! The whole generated source: header, type declarations, query modules.

use vstd::prelude::*;
use crate::codegen::body::raw_pairing_consistent;
use crate::codegen::custom_type::{all_declarable, generate_type_modules, type_modules};
use crate::codegen::emitted;
use crate::codegen::error::CodegenError;
use crate::codegen::query::{generate_query, query_function};
use crate::naming::upper_camel_case;
use crate::pg_type::{TypeModel, TypeRegistrar};
use crate::prepare_queries::{ModuleModel, PreparedModule, module_models};
use crate::text::{join, join_strings, views};

verus! {

/// The functions generated for the queries of `module`, in the order of
/// the queries. The row structure of a query is named after the query, in
/// upper camel case.
pub open spec fn query_functions(module: ModuleModel) -> Seq<Seq<char>> {
    Seq::new(
        module.queries.len(),
        |i: int|
            query_function(
                module.name,
                module.queries[i],
                upper_camel_case(module.queries[i].name),
            ),
    )
}

/// The module generated for `module`: the imports of the client and of its
/// error type, then the functions of the queries.
pub open spec fn query_module(module: ModuleModel) -> Seq<char> {
    "pub mod "@ + module.name
        + " { use cornucopia_client::GenericClient;\nuse tokio_postgres::Error;\n"@ + join(
        query_functions(module),
        "\n\n"@,
    ) + " }"@
}

/// The modules generated for `modules`, in order.
pub open spec fn query_modules(modules: Seq<ModuleModel>) -> Seq<Seq<char>> {
    Seq::new(modules.len(), |i: int| query_module(modules[i]))
}

/// The whole generated source: the header, the declarations of the types,
/// then the functions of the queries.
pub open spec fn generated_source(types: Seq<TypeModel>, modules: Seq<ModuleModel>) -> Seq<char> {
    "// This file was generated with `cornucopia`. Do not modify.\n\n"@ + type_modules(types)
        + "\n\npub mod queries { "@ + join(query_modules(modules), "\n\n"@) + " }"@
}

/// Whether every query of `module` pairs quantifier and return shape
/// consistently.
pub open spec fn module_consistent(module: ModuleModel) -> bool {
    forall|i: int|
        0 <= i < module.queries.len() ==> raw_pairing_consistent(#[trigger] module.queries[i])
}

/// Whether every one of `modules` is consistent.
pub open spec fn all_consistent(modules: Seq<ModuleModel>) -> bool {
    forall|i: int| 0 <= i < modules.len() ==> module_consistent(#[trigger] modules[i])
}

/// What generation yields for `types` and `modules`. The declarations of the
/// types come first, so a type without a declaration is reported before an
/// inconsistent query.
pub open spec fn generation_result(types: Seq<TypeModel>, modules: Seq<ModuleModel>) -> Result<
    Seq<char>,
    CodegenError,
> {
    if !all_declarable(types) {
        Err(CodegenError::NonBaseType)
    } else if !all_consistent(modules) {
        Err(CodegenError::UnexpectedRawQuantifier)
    } else {
        Ok(generated_source(types, modules))
    }
}

fn generate_query_module(module: &PreparedModule) -> (res: Result<String, CodegenError>)
    ensures
        emitted(res) == if module_consistent(module@) {
            Ok::<Seq<char>, CodegenError>(query_module(module@))
        } else {
            Err(CodegenError::UnexpectedRawQuantifier)
        },
{
    let mut query_strings: Vec<String> = Vec::new();
    let mut i: usize = 0;
    while i < module.queries.len()
        invariant
            i <= module.queries.len(),
            query_strings.len() == i,
            forall|j: int|
                0 <= j < i ==> (#[trigger] query_strings[j])@ == query_functions(module@)[j],
            forall|j: int| 0 <= j < i ==> raw_pairing_consistent(#[trigger] module@.queries[j]),
        decreases module.queries.len() - i,
    {
        assert(module@.queries[i as int] == module.queries[i as int]@);
        match generate_query(module.name.as_str(), &module.queries[i]) {
            Ok(text) => {
                query_strings.push(text);
            },
            Err(e) => {
                return Err(e);
            },
        }
        i = i + 1;
    }
    assert(views(query_strings@) =~= query_functions(module@));
    let list = join_strings(&query_strings, "\n\n");
    let mut out = String::from_str("pub mod ");
    out.append(module.name.as_str());
    out.append(" { use cornucopia_client::GenericClient;\nuse tokio_postgres::Error;\n");
    out.append(list.as_str());
    out.append(" }");
    Ok(out)
}

/// Assembles the whole generated source: the header that marks the text as
/// generated, one module of type declarations per schema, and one module of
/// query functions per prepared module, modules and queries in the order
/// given.
///
/// Fails with the first inconsistency met: a registered type without a
/// declaration, else a query whose quantifier and return shape disagree on
/// being raw. Nothing is handed back in that case.
pub fn generate_source(type_registrar: &TypeRegistrar, modules: Vec<PreparedModule>) -> (res:
    Result<String, CodegenError>)
    ensures
        emitted(res) == generation_result(type_registrar@, module_models(modules@)),
{
    let types_text = match generate_type_modules(type_registrar) {
        Ok(text) => text,
        Err(e) => {
            return Err(e);
        },
    };
    let ghost all = module_models(modules@);
    let mut module_strings: Vec<String> = Vec::new();
    let mut i: usize = 0;
    while i < modules.len()
        invariant
            i <= modules.len(),
            all == module_models(modules@),
            all_declarable(type_registrar@),
            module_strings.len() == i,
            forall|j: int| 0 <= j < i ==> (#[trigger] module_strings[j])@ == query_modules(all)[j],
            forall|j: int| 0 <= j < i ==> module_consistent(#[trigger] all[j]),
        decreases modules.len() - i,
    {
        assert(all[i as int] == modules[i as int]@);
        match generate_query_module(&modules[i]) {
            Ok(text) => {
                module_strings.push(text);
            },
            Err(e) => {
                assert(!module_consistent(all[i as int]));
                return Err(e);
            },
        }
        i = i + 1;
    }
    assert(views(module_strings@) =~= query_modules(all));
    let list = join_strings(&module_strings, "\n\n");
    let mut out = String::from_str(
        "// This file was generated with `cornucopia`. Do not modify.\n\n",
    );
    out.append(types_text.as_str());
    out.append("\n\npub mod queries { ");
    out.append(list.as_str());
    out.append(" }");
    Ok(out)
}

/// Generation is a function of its input: two runs over the same types and
/// the same modules end alike, with the same text or the same failure.
pub proof fn lemma_generation_repeatable(
    first_registrar: TypeRegistrar,
    first_modules: Vec<PreparedModule>,
    first: Result<String, CodegenError>,
    second_registrar: TypeRegistrar,
    second_modules: Vec<PreparedModule>,
    second: Result<String, CodegenError>,
)
    requires
        first_registrar@ == second_registrar@,
        module_models(first_modules@) == module_models(second_modules@),
        emitted(first) == generation_result(first_registrar@, module_models(first_modules@)),
        emitted(second) == generation_result(second_registrar@, module_models(second_modules@)),
    ensures
        emitted(first) == emitted(second),
{
}

} // verus!
