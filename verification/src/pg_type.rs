//! Resolved database types: what a type is called in the database, what kind
//! of type it is, and the Rust type expressions that stand for it.

use vstd::prelude::*;
use crate::text::views;

verus! {

/// One member of a composite type.
#[derive(Debug)]
pub struct CornucopiaField {
    pub name: String,
    pub ty: CornucopiaType,
}

/// What kind of database type a [`CornucopiaType`] is.
#[derive(Debug)]
pub enum CornucopiaTypeKind {
    Base,
    Array(Box<CornucopiaType>),
    Domain(Box<CornucopiaType>),
    Composite(Vec<CornucopiaField>),
    Enum(Vec<String>),
}

/// A database type together with the Rust type expressions resolved for it.
///
/// `schema` and `name` identify the type in the database. The usage path is
/// the expression that refers to the type as a value, the definition path the
/// one under which it is declared.
#[derive(Debug)]
pub struct CornucopiaType {
    pub schema: String,
    pub name: String,
    pub kind: CornucopiaTypeKind,
    pub rust_ty_usage_path: String,
    pub rust_ty_definition_path: String,
    pub rust_ty_name: String,
}

/// Mathematical model of a [`CornucopiaField`].
pub struct FieldModel {
    pub name: Seq<char>,
    pub ty: TypeModel,
}

/// Mathematical model of a [`CornucopiaTypeKind`].
pub enum KindModel {
    Base,
    Array(Box<TypeModel>),
    Domain(Box<TypeModel>),
    Composite(Seq<FieldModel>),
    Enum(Seq<Seq<char>>),
}

/// Mathematical model of a [`CornucopiaType`].
pub struct TypeModel {
    pub schema: Seq<char>,
    pub name: Seq<char>,
    pub kind: KindModel,
    pub usage_path: Seq<char>,
    pub definition_path: Seq<char>,
    pub ty_name: Seq<char>,
}

/// The model of `ty`: every string by its characters, every list as a
/// sequence, nested types modelled in the same way.
pub open spec fn type_model(ty: CornucopiaType) -> TypeModel
    decreases ty,
{
    TypeModel {
        schema: ty.schema@,
        name: ty.name@,
        kind: match ty.kind {
            CornucopiaTypeKind::Base => KindModel::Base,
            CornucopiaTypeKind::Array(inner) => KindModel::Array(Box::new(type_model(*inner))),
            CornucopiaTypeKind::Domain(inner) => KindModel::Domain(Box::new(type_model(*inner))),
            CornucopiaTypeKind::Composite(fields) => KindModel::Composite(
                Seq::new(
                    fields.len() as nat,
                    |i: int|
                        if 0 <= i < fields.len() {
                            FieldModel { name: fields[i].name@, ty: type_model(fields[i].ty) }
                        } else {
                            arbitrary()
                        },
                ),
            ),
            CornucopiaTypeKind::Enum(variants) => KindModel::Enum(
                Seq::new(variants.len() as nat, |i: int| variants[i]@),
            ),
        },
        usage_path: ty.rust_ty_usage_path@,
        definition_path: ty.rust_ty_definition_path@,
        ty_name: ty.rust_ty_name@,
    }
}

impl View for CornucopiaType {
    type V = TypeModel;

    open spec fn view(&self) -> TypeModel {
        type_model(*self)
    }
}

impl View for CornucopiaField {
    type V = FieldModel;

    open spec fn view(&self) -> FieldModel {
        FieldModel { name: self.name@, ty: self.ty@ }
    }
}

/// The models of `fields`, in order.
pub open spec fn field_models(fields: Seq<CornucopiaField>) -> Seq<FieldModel> {
    Seq::new(fields.len(), |i: int| fields[i]@)
}

/// The models of `types`, in order.
pub open spec fn type_models(types: Seq<CornucopiaType>) -> Seq<TypeModel> {
    Seq::new(types.len(), |i: int| types[i]@)
}

/// The model of `kind`, as [`type_model`] models the kind of a type.
pub open spec fn kind_model(kind: CornucopiaTypeKind) -> KindModel {
    match kind {
        CornucopiaTypeKind::Base => KindModel::Base,
        CornucopiaTypeKind::Array(inner) => KindModel::Array(Box::new(type_model(*inner))),
        CornucopiaTypeKind::Domain(inner) => KindModel::Domain(Box::new(type_model(*inner))),
        CornucopiaTypeKind::Composite(fields) => KindModel::Composite(field_models(fields@)),
        CornucopiaTypeKind::Enum(variants) => KindModel::Enum(views(variants@)),
    }
}

impl View for CornucopiaTypeKind {
    type V = KindModel;

    open spec fn view(&self) -> KindModel {
        kind_model(*self)
    }
}

/// The kind of a type is modelled by the model of its kind.
pub proof fn lemma_kind_of_model(ty: CornucopiaType)
    ensures
        ty@.kind == ty.kind@,
{
    match ty.kind {
        CornucopiaTypeKind::Composite(fields) => {
            assert(ty@.kind->Composite_0 =~= field_models(fields@));
        },
        CornucopiaTypeKind::Enum(variants) => {
            assert(ty@.kind->Enum_0 =~= views(variants@));
        },
        _ => {},
    }
}

/// The type expression under which a value of `ty` is borrowed, as a
/// function takes it for a parameter.
pub open spec fn borrowed_type(ty: TypeModel) -> Seq<char> {
    "&"@ + ty.usage_path
}

/// The type expression under which a value of `ty` is owned, as a function
/// returns it or a structure holds it: the usage path, wrapped in `Option`
/// where the value may be null.
pub open spec fn owned_type(ty: TypeModel, is_nullable: bool) -> Seq<char> {
    if is_nullable {
        "Option<"@ + ty.usage_path + ">"@
    } else {
        ty.usage_path
    }
}

impl CornucopiaType {
    /// The type expression of a parameter of this type. It is a reference
    /// to the usage path; whether the value may be null does not change it.
    pub fn borrowed_rust_ty(&self) -> (res: String)
        ensures
            res@ == borrowed_type(self@),
    {
        let mut out = String::from_str("&");
        out.append(self.rust_ty_usage_path.as_str());
        out
    }

    /// The type expression of a returned value or a field of this type.
    pub fn owned_rust_ty(&self, is_nullable: bool) -> (res: String)
        ensures
            res@ == owned_type(self@, is_nullable),
    {
        if is_nullable {
            let mut out = String::from_str("Option<");
            out.append(self.rust_ty_usage_path.as_str());
            out.append(">");
            out
        } else {
            self.rust_ty_usage_path.clone()
        }
    }
}

fn clone_strings(strings: &Vec<String>) -> (res: Vec<String>)
    ensures
        views(res@) == views(strings@),
{
    let mut out: Vec<String> = Vec::new();
    let mut i: usize = 0;
    while i < strings.len()
        invariant
            i <= strings.len(),
            out.len() == i,
            forall|j: int| 0 <= j < i ==> (#[trigger] out[j])@ == strings[j]@,
        decreases strings.len() - i,
    {
        out.push(strings[i].clone());
        i = i + 1;
    }
    assert(views(out@) =~= views(strings@));
    out
}

fn clone_fields(fields: &Vec<CornucopiaField>) -> (res: Vec<CornucopiaField>)
    ensures
        field_models(res@) == field_models(fields@),
    decreases fields, 0nat,
{
    let mut out: Vec<CornucopiaField> = Vec::new();
    let mut i: usize = 0;
    while i < fields.len()
        invariant
            i <= fields.len(),
            out.len() == i,
            forall|j: int| 0 <= j < i ==> (#[trigger] out[j])@ == fields[j]@,
        decreases fields.len() - i,
    {
        let field = CornucopiaField { name: fields[i].name.clone(), ty: clone_type(&fields[i].ty) };
        out.push(field);
        i = i + 1;
    }
    assert(field_models(out@) =~= field_models(fields@));
    out
}

fn clone_kind(kind: &CornucopiaTypeKind) -> (res: CornucopiaTypeKind)
    ensures
        res@ == kind@,
    decreases kind, 1nat,
{
    match kind {
        CornucopiaTypeKind::Base => CornucopiaTypeKind::Base,
        CornucopiaTypeKind::Array(inner) => CornucopiaTypeKind::Array(Box::new(clone_type(inner))),
        CornucopiaTypeKind::Domain(inner) => CornucopiaTypeKind::Domain(
            Box::new(clone_type(inner)),
        ),
        CornucopiaTypeKind::Composite(fields) => CornucopiaTypeKind::Composite(
            clone_fields(fields),
        ),
        CornucopiaTypeKind::Enum(variants) => CornucopiaTypeKind::Enum(clone_strings(variants)),
    }
}

fn clone_type(ty: &CornucopiaType) -> (res: CornucopiaType)
    ensures
        res@ == ty@,
    decreases ty, 2nat,
{
    let res = CornucopiaType {
        schema: ty.schema.clone(),
        name: ty.name.clone(),
        kind: clone_kind(&ty.kind),
        rust_ty_usage_path: ty.rust_ty_usage_path.clone(),
        rust_ty_definition_path: ty.rust_ty_definition_path.clone(),
        rust_ty_name: ty.rust_ty_name.clone(),
    };
    proof {
        lemma_kind_of_model(res);
        lemma_kind_of_model(*ty);
    }
    res
}

impl Clone for CornucopiaType {
    /// A copy with the same model.
    fn clone(&self) -> (res: CornucopiaType)
        ensures
            res@ == self@,
    {
        clone_type(self)
    }
}

impl Clone for CornucopiaTypeKind {
    /// A copy with the same model.
    fn clone(&self) -> (res: CornucopiaTypeKind)
        ensures
            res@ == self@,
    {
        clone_kind(self)
    }
}

impl Clone for CornucopiaField {
    /// A copy with the same model.
    fn clone(&self) -> (res: CornucopiaField)
        ensures
            res@ == self@,
    {
        CornucopiaField { name: self.name.clone(), ty: clone_type(&self.ty) }
    }
}

/// Whether `a` and `b` are the same database type: same schema, same name.
pub open spec fn same_identity(a: TypeModel, b: TypeModel) -> bool {
    a.schema == b.schema && a.name == b.name
}

/// Whether no two entries of `types` are the same database type.
pub open spec fn distinct_identities(types: Seq<TypeModel>) -> bool {
    forall|i: int, j: int|
        0 <= i < j < types.len() ==> !same_identity(#[trigger] types[i], #[trigger] types[j])
}

/// The position in `types` of the type that `schema` and `name` identify.
pub open spec fn position_of(types: Seq<TypeModel>, schema: Seq<char>, name: Seq<char>) -> Option<
    int,
> {
    if exists|i: int| 0 <= i < types.len() && types[i].schema == schema && types[i].name == name {
        Some(
            choose|i: int| 0 <= i < types.len() && types[i].schema == schema && types[i].name == name,
        )
    } else {
        None
    }
}

/// Where no type is held twice, the position of a type is the one place at
/// which its schema and name are found.
pub proof fn lemma_position_of(types: Seq<TypeModel>, schema: Seq<char>, name: Seq<char>, i: int)
    requires
        distinct_identities(types),
        0 <= i < types.len(),
        types[i].schema == schema,
        types[i].name == name,
    ensures
        position_of(types, schema, name) == Some(i),
{
    let p = position_of(types, schema, name)->0;
    if p < i {
        assert(!same_identity(types[p], types[i]));
    } else if p > i {
        assert(!same_identity(types[i], types[p]));
    }
}

fn find(types: &Vec<CornucopiaType>, schema: &String, name: &String) -> (res: Option<usize>)
    ensures
        res matches Some(i) ==> i < types.len() && types[i as int]@.schema == schema@
            && types[i as int]@.name == name@,
        res is None ==> position_of(type_models(types@), schema@, name@) is None,
{
    let mut i: usize = 0;
    while i < types.len()
        invariant
            i <= types.len(),
            forall|j: int|
                0 <= j < i ==> !((#[trigger] type_models(types@)[j]).schema == schema@
                    && type_models(types@)[j].name == name@),
        decreases types.len() - i,
    {
        if types[i].schema == *schema && types[i].name == *name {
            return Some(i);
        }
        i = i + 1;
    }
    None
}

/// The catalog of custom database types, in the order in which they were
/// registered. No database type is held twice.
#[derive(Debug)]
pub struct TypeRegistrar {
    custom_types: Vec<CornucopiaType>,
}

impl View for TypeRegistrar {
    type V = Seq<TypeModel>;

    closed spec fn view(&self) -> Seq<TypeModel> {
        type_models(self.custom_types@)
    }
}

impl TypeRegistrar {
    #[verifier::type_invariant]
    spec fn distinct(&self) -> bool {
        distinct_identities(type_models(self.custom_types@))
    }

    /// A catalog without types.
    pub fn new() -> (res: TypeRegistrar)
        ensures
            res@ == Seq::<TypeModel>::empty(),
    {
        let res = TypeRegistrar { custom_types: Vec::new() };
        assert(res@ =~= Seq::<TypeModel>::empty());
        res
    }

    /// The registered types, in the order of registration.
    pub fn types(&self) -> (res: &Vec<CornucopiaType>)
        ensures
            type_models(res@) == self@,
            distinct_identities(self@),
    {
        proof {
            use_type_invariant(self);
        }
        &self.custom_types
    }

    /// Registers `ty`. A type with the same schema and name that is already
    /// held is replaced, in its place; otherwise `ty` comes last. Returns
    /// whether the catalog grew.
    pub fn register(&mut self, ty: CornucopiaType) -> (fresh: bool)
        ensures
            distinct_identities(final(self)@),
            fresh == (position_of(old(self)@, ty@.schema, ty@.name) is None),
            fresh ==> final(self)@ == old(self)@.push(ty@),
            !fresh ==> final(self)@ == old(self)@.update(
                position_of(old(self)@, ty@.schema, ty@.name)->0,
                ty@,
            ),
    {
        proof {
            use_type_invariant(&*self);
        }
        let mut types: Vec<CornucopiaType> = Vec::new();
        std::mem::swap(&mut self.custom_types, &mut types);
        let ghost before = type_models(types@);
        match find(&types, &ty.schema, &ty.name) {
            Some(i) => {
                proof {
                    lemma_position_of(before, ty@.schema, ty@.name, i as int);
                }
                types.set(i, ty);
                assert(type_models(types@) =~= before.update(i as int, ty@));
                std::mem::swap(&mut self.custom_types, &mut types);
                false
            },
            None => {
                types.push(ty);
                assert(type_models(types@) =~= before.push(ty@));
                std::mem::swap(&mut self.custom_types, &mut types);
                true
            },
        }
    }

    /// Looks up the type that `schema` and `name` identify.
    pub fn get(&self, schema: &str, name: &str) -> (res: Option<&CornucopiaType>)
        ensures
            res is Some == (position_of(self@, schema@, name@) is Some),
            res matches Some(ty) ==> ty@ == self@[position_of(self@, schema@, name@)->0],
    {
        proof {
            use_type_invariant(self);
        }
        let schema = schema.to_owned();
        let name = name.to_owned();
        match find(&self.custom_types, &schema, &name) {
            Some(i) => {
                proof {
                    lemma_position_of(self@, schema@, name@, i as int);
                }
                Some(&self.custom_types[i])
            },
            None => None,
        }
    }
}

impl Clone for TypeRegistrar {
    /// A copy with the same model.
    fn clone(&self) -> (res: TypeRegistrar)
        ensures
            res@ == self@,
    {
        proof {
            use_type_invariant(self);
        }
        let mut types: Vec<CornucopiaType> = Vec::new();
        let mut i: usize = 0;
        while i < self.custom_types.len()
            invariant
                i <= self.custom_types.len(),
                types.len() == i,
                forall|j: int| 0 <= j < i ==> (#[trigger] types[j])@ == self.custom_types[j]@,
            decreases self.custom_types.len() - i,
        {
            types.push(clone_type(&self.custom_types[i]));
            i = i + 1;
        }
        assert(type_models(types@) =~= type_models(self.custom_types@));
        TypeRegistrar { custom_types: types }
    }
}

} // verus!
