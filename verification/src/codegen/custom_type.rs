//! Declarations of custom database types, grouped by schema.

use vstd::prelude::*;
use crate::codegen::emitted;
use crate::codegen::error::CodegenError;
use crate::pg_type::{
    CornucopiaField, CornucopiaType, CornucopiaTypeKind, FieldModel, KindModel, TypeModel,
    TypeRegistrar, field_models, lemma_kind_of_model, type_model, type_models,
};
use crate::text::{join, join_strings, views};

verus! {

/// Whether a type of this kind has a declaration: enums, domains and
/// composites do, base and array types are only referred to.
pub open spec fn declarable(ty: TypeModel) -> bool {
    ty.kind is Enum || ty.kind is Domain || ty.kind is Composite
}

/// The members of a composite declaration: each field of the composite
/// under its name, typed by the owned type of its type, that is its usage
/// path.
pub open spec fn composite_members(fields: Seq<FieldModel>) -> Seq<Seq<char>> {
    Seq::new(fields.len(), |i: int| "pub "@ + fields[i].name + " : "@ + fields[i].ty.usage_path)
}

/// The item that declares `ty`, without the attributes that every
/// declaration carries: an enum of the variants, a wrapper of the inner type
/// of a domain, or a structure of the members of a composite. Each goes by
/// the type's own Rust name; the wrapper of a domain holds the owned type of
/// the inner type, that is its usage path. Meaningful for declarable types
/// only.
pub open spec fn type_definition(ty: TypeModel) -> Seq<char> {
    match ty.kind {
        KindModel::Enum(variants) => "#[derive(Clone, Copy, PartialEq, Eq)]\npub enum "@
            + ty.ty_name + " { "@ + join(variants, ","@) + " }"@,
        KindModel::Domain(inner) => "#[derive(Clone)]\npub struct "@ + ty.ty_name + " ("@
            + inner.usage_path + ")"@,
        KindModel::Composite(fields) => "#[derive(Clone)]\npub struct "@ + ty.ty_name + " { "@
            + join(composite_members(fields), ","@) + " }"@,
        _ => Seq::empty(),
    }
}

/// The declaration of the custom type `ty`. It carries the name under which
/// the database knows the type.
pub open spec fn custom_type_declaration(ty: TypeModel) -> Seq<char> {
    "#[derive(Debug, ToSql, FromSql)]\n#[postgres(name = \""@ + ty.name + "\")]\n"@
        + type_definition(ty)
}

/// The schemas that hold at least one of `types`, each once, in the order
/// in which they first occur.
pub open spec fn declared_schemas(types: Seq<TypeModel>) -> Seq<Seq<char>>
    decreases types.len(),
{
    if types.len() == 0 {
        Seq::empty()
    } else {
        let earlier = declared_schemas(types.drop_last());
        if earlier.contains(types.last().schema) {
            earlier
        } else {
            earlier.push(types.last().schema)
        }
    }
}

/// The test that a type lies in `schema`.
pub open spec fn in_schema(schema: Seq<char>) -> spec_fn(TypeModel) -> bool {
    |ty: TypeModel| ty.schema == schema
}

/// The declarations of `types`, in order.
pub open spec fn declarations(types: Seq<TypeModel>) -> Seq<Seq<char>> {
    Seq::new(types.len(), |i: int| custom_type_declaration(types[i]))
}

/// The declarations of those of `types` that lie in `schema`, in the order
/// of `types`.
pub open spec fn schema_declarations(types: Seq<TypeModel>, schema: Seq<char>) -> Seq<Seq<char>> {
    declarations(types.filter(in_schema(schema)))
}

/// The module that groups the declarations of the types of one schema.
pub open spec fn schema_module(types: Seq<TypeModel>, schema: Seq<char>) -> Seq<char> {
    "pub mod "@ + schema + " { use postgres_types::{FromSql, ToSql}; "@ + join(
        schema_declarations(types, schema),
        "\n\n"@,
    ) + " }"@
}

/// One module for each schema of `types`, in the order of
/// [`declared_schemas`].
pub open spec fn schema_modules(types: Seq<TypeModel>) -> Seq<Seq<char>> {
    Seq::new(
        declared_schemas(types).len(),
        |k: int| schema_module(types, declared_schemas(types)[k]),
    )
}

/// The module of all type declarations: one module per schema inside it.
pub open spec fn type_modules(types: Seq<TypeModel>) -> Seq<char> {
    "pub mod types { "@ + join(schema_modules(types), "\n\n"@) + " }"@
}

/// Whether every one of `types` has a declaration.
pub open spec fn all_declarable(types: Seq<TypeModel>) -> bool {
    forall|i: int| 0 <= i < types.len() ==> declarable(#[trigger] types[i])
}

/// Every type lies in one of the declared schemas.
pub proof fn lemma_declared_schemas_complete(types: Seq<TypeModel>, i: int)
    requires
        0 <= i < types.len(),
    ensures
        declared_schemas(types).contains(types[i].schema),
    decreases types.len(),
{
    let earlier = declared_schemas(types.drop_last());
    if i == types.len() - 1 {
        if !earlier.contains(types.last().schema) {
            assert(earlier.push(types.last().schema).last() == types[i].schema);
        }
    } else {
        lemma_declared_schemas_complete(types.drop_last(), i);
        let k = choose|k: int| 0 <= k < earlier.len() && earlier[k] == types[i].schema;
        assert(declared_schemas(types)[k] == types[i].schema);
    }
}

/// No schema is declared twice.
pub proof fn lemma_declared_schemas_distinct(types: Seq<TypeModel>)
    ensures
        declared_schemas(types).no_duplicates(),
    decreases types.len(),
{
    if types.len() > 0 {
        lemma_declared_schemas_distinct(types.drop_last());
    }
}

fn composite_member_list(fields: &Vec<CornucopiaField>) -> (res: String)
    ensures
        res@ == join(composite_members(field_models(fields@)), ","@),
{
    let mut members: Vec<String> = Vec::new();
    let mut i: usize = 0;
    while i < fields.len()
        invariant
            i <= fields.len(),
            members.len() == i,
            forall|j: int|
                0 <= j < i ==> (#[trigger] members[j])@ == composite_members(
                    field_models(fields@),
                )[j],
        decreases fields.len() - i,
    {
        let mut member = String::from_str("pub ");
        member.append(fields[i].name.as_str());
        member.append(" : ");
        member.append(fields[i].ty.rust_ty_usage_path.as_str());
        members.push(member);
        i = i + 1;
    }
    assert(views(members@) =~= composite_members(field_models(fields@)));
    join_strings(&members, ",")
}

/// Emits the declaration of the custom type `ty`: an enum with its variants,
/// a domain as a wrapper of its inner type, a composite as a structure of its
/// fields.
///
/// Fails for a base or array type, which has no declaration.
pub fn generate_custom_type(ty: &CornucopiaType) -> (res: Result<String, CodegenError>)
    ensures
        emitted(res) == if declarable(ty@) {
            Ok::<Seq<char>, CodegenError>(custom_type_declaration(ty@))
        } else {
            Err(CodegenError::NonBaseType)
        },
{
    proof {
        lemma_kind_of_model(*ty);
    }
    let definition = match &ty.kind {
        CornucopiaTypeKind::Enum(variants) => {
            let list = join_strings(variants, ",");
            let mut out = String::from_str("#[derive(Clone, Copy, PartialEq, Eq)]\npub enum ");
            out.append(ty.rust_ty_name.as_str());
            out.append(" { ");
            out.append(list.as_str());
            out.append(" }");
            out
        },
        CornucopiaTypeKind::Domain(inner) => {
            assert(ty@.kind->Domain_0.usage_path == inner.rust_ty_usage_path@) by {
                reveal_with_fuel(type_model, 2);
            }
            let mut out = String::from_str("#[derive(Clone)]\npub struct ");
            out.append(ty.rust_ty_name.as_str());
            out.append(" (");
            out.append(inner.rust_ty_usage_path.as_str());
            out.append(")");
            out
        },
        CornucopiaTypeKind::Composite(fields) => {
            let list = composite_member_list(fields);
            let mut out = String::from_str("#[derive(Clone)]\npub struct ");
            out.append(ty.rust_ty_name.as_str());
            out.append(" { ");
            out.append(list.as_str());
            out.append(" }");
            out
        },
        _ => {
            return Err(CodegenError::NonBaseType);
        },
    };
    let mut out = String::from_str("#[derive(Debug, ToSql, FromSql)]\n#[postgres(name = \"");
    out.append(ty.name.as_str());
    out.append("\")]\n");
    out.append(definition.as_str());
    Ok(out)
}

fn holds_string(list: &Vec<String>, wanted: &String) -> (res: bool)
    ensures
        res == views(list@).contains(wanted@),
{
    let mut i: usize = 0;
    while i < list.len()
        invariant
            i <= list.len(),
            forall|j: int| 0 <= j < i ==> (#[trigger] views(list@)[j]) != wanted@,
        decreases list.len() - i,
    {
        if list[i] == *wanted {
            assert(views(list@)[i as int] == wanted@);
            return true;
        }
        i = i + 1;
    }
    false
}

fn schemas_in_order(types: &Vec<CornucopiaType>) -> (res: Vec<String>)
    ensures
        views(res@) == declared_schemas(type_models(types@)),
{
    let ghost all = type_models(types@);
    let mut schemas: Vec<String> = Vec::new();
    let mut i: usize = 0;
    assert(views(schemas@) =~= declared_schemas(all.take(0)));
    while i < types.len()
        invariant
            i <= types.len(),
            all == type_models(types@),
            views(schemas@) == declared_schemas(all.take(i as int)),
        decreases types.len() - i,
    {
        proof {
            assert(all.take(i as int + 1).drop_last() =~= all.take(i as int));
            assert(all.take(i as int + 1).last().schema == types[i as int].schema@);
        }
        if !holds_string(&schemas, &types[i].schema) {
            let ghost earlier = views(schemas@);
            schemas.push(types[i].schema.clone());
            assert(views(schemas@) =~= earlier.push(types[i as int].schema@));
        }
        i = i + 1;
    }
    assert(all.take(types.len() as int) =~= all);
    schemas
}

fn schema_module_text(types: &Vec<CornucopiaType>, schema: &String) -> (res: Result<String, CodegenError>)
    ensures
        res matches Ok(text) ==> {
            &&& text@ == schema_module(type_models(types@), schema@)
            &&& forall|j: int|
                0 <= j < types.len() && types[j]@.schema == schema@ ==> declarable(
                    #[trigger] types[j]@,
                )
        },
        res matches Err(e) ==> e == CodegenError::NonBaseType && !all_declarable(type_models(types@)),
{
    let ghost all = type_models(types@);
    let mut emitted_so_far: Vec<String> = Vec::new();
    let mut j: usize = 0;
    proof {
        reveal(Seq::filter);
        assert(views(emitted_so_far@) =~= declarations(all.take(0).filter(in_schema(schema@))));
    }
    while j < types.len()
        invariant
            j <= types.len(),
            all == type_models(types@),
            views(emitted_so_far@) == declarations(all.take(j as int).filter(in_schema(schema@))),
            forall|k: int|
                0 <= k < j && types[k]@.schema == schema@ ==> declarable(#[trigger] types[k]@),
        decreases types.len() - j,
    {
        proof {
            reveal(Seq::filter);
            assert(all.take(j as int + 1).drop_last() =~= all.take(j as int));
            assert(all.take(j as int + 1).last() == types[j as int]@);
        }
        if types[j].schema == *schema {
            match generate_custom_type(&types[j]) {
                Ok(declaration) => {
                    let ghost earlier = all.take(j as int).filter(in_schema(schema@));
                    let ghost texts = views(emitted_so_far@);
                    assert(declaration@ == custom_type_declaration(types[j as int]@));
                    emitted_so_far.push(declaration);
                    assert(views(emitted_so_far@) =~= texts.push(
                        custom_type_declaration(types[j as int]@),
                    ));
                    assert(texts.push(custom_type_declaration(types[j as int]@)) =~= declarations(
                        earlier.push(types[j as int]@),
                    ));
                },
                Err(e) => {
                    assert(!declarable(all[j as int]));
                    return Err(e);
                },
            }
        }
        j = j + 1;
    }
    assert(all.take(types.len() as int) =~= all);
    let list = join_strings(&emitted_so_far, "\n\n");
    let mut out = String::from_str("pub mod ");
    out.append(schema.as_str());
    out.append(" { use postgres_types::{FromSql, ToSql}; ");
    out.append(list.as_str());
    out.append(" }");
    Ok(out)
}

/// Emits the declarations of all registered types, grouped into one module
/// per schema. Schemas come in the order in which the registrar first meets
/// them, the types of a schema in the order of registration.
///
/// Fails when a base or array type is registered.
pub fn generate_type_modules(type_registrar: &TypeRegistrar) -> (res: Result<String, CodegenError>)
    ensures
        emitted(res) == if all_declarable(type_registrar@) {
            Ok::<Seq<char>, CodegenError>(type_modules(type_registrar@))
        } else {
            Err(CodegenError::NonBaseType)
        },
{
    let types = type_registrar.types();
    let ghost all = type_models(types@);
    let schemas = schemas_in_order(types);
    let mut modules: Vec<String> = Vec::new();
    let mut k: usize = 0;
    while k < schemas.len()
        invariant
            k <= schemas.len(),
            all == type_models(types@),
            all == type_registrar@,
            views(schemas@) == declared_schemas(all),
            modules.len() == k,
            forall|m: int| 0 <= m < k ==> (#[trigger] modules[m])@ == schema_modules(all)[m],
            forall|m: int, j: int|
                0 <= m < k && 0 <= j < all.len() && all[j].schema == (#[trigger] schemas[m])@
                    ==> declarable(#[trigger] all[j]),
        decreases schemas.len() - k,
    {
        assert(views(schemas@)[k as int] == schemas[k as int]@);
        match schema_module_text(types, &schemas[k]) {
            Ok(module) => {
                modules.push(module);
            },
            Err(e) => {
                return Err(e);
            },
        }
        k = k + 1;
    }
    proof {
        assert(views(modules@) =~= schema_modules(all));
        assert forall|j: int| 0 <= j < all.len() implies declarable(#[trigger] all[j]) by {
            lemma_declared_schemas_complete(all, j);
            let m = choose|m: int|
                0 <= m < declared_schemas(all).len() && declared_schemas(all)[m] == all[j].schema;
            assert(views(schemas@)[m] == schemas[m]@);
        }
    }
    let list = join_strings(&modules, "\n\n");
    let mut out = String::from_str("pub mod types { ");
    out.append(list.as_str());
    out.append(" }");
    Ok(out)
}

} // verus!
