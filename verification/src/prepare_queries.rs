//! Prepared queries: the input of code generation.

use vstd::prelude::*;
use crate::parse::Quantifier;
use crate::pg_type::{CornucopiaType, TypeModel, type_models};

verus! {

/// A named, typed value: a parameter of a query, or a column of the row
/// structure that a query returns.
#[derive(Debug)]
pub struct Param {
    pub name: String,
    pub ty: CornucopiaType,
    pub is_nullable: bool,
}

/// The shape of what a query returns for one row.
#[derive(Debug)]
pub enum RustReturnType {
    Void,
    Scalar(CornucopiaType),
    Tuple(Vec<CornucopiaType>),
    Struct(Vec<Param>),
    Raw,
}

/// One query, ready for code generation. The order of `params` is the order
/// in which the SQL statement binds them.
#[derive(Debug)]
pub struct PreparedQuery {
    pub name: String,
    pub sql: String,
    pub params: Vec<Param>,
    pub ret: RustReturnType,
    pub quantifier: Quantifier,
}

/// The queries of one source module, in the order in which they were declared.
#[derive(Debug)]
pub struct PreparedModule {
    pub name: String,
    pub queries: Vec<PreparedQuery>,
}

/// Mathematical model of a [`Param`].
pub struct ParamModel {
    pub name: Seq<char>,
    pub ty: TypeModel,
    pub is_nullable: bool,
}

/// Mathematical model of a [`RustReturnType`].
pub enum ReturnModel {
    Void,
    Scalar(TypeModel),
    Tuple(Seq<TypeModel>),
    Struct(Seq<ParamModel>),
    Raw,
}

/// Mathematical model of a [`PreparedQuery`].
pub struct QueryModel {
    pub name: Seq<char>,
    pub sql: Seq<char>,
    pub params: Seq<ParamModel>,
    pub ret: ReturnModel,
    pub quantifier: Quantifier,
}

/// Mathematical model of a [`PreparedModule`].
pub struct ModuleModel {
    pub name: Seq<char>,
    pub queries: Seq<QueryModel>,
}

impl View for Param {
    type V = ParamModel;

    open spec fn view(&self) -> ParamModel {
        ParamModel { name: self.name@, ty: self.ty@, is_nullable: self.is_nullable }
    }
}

/// The models of `params`, in order.
pub open spec fn param_models(params: Seq<Param>) -> Seq<ParamModel> {
    Seq::new(params.len(), |i: int| params[i]@)
}

/// The models of `queries`, in order.
pub open spec fn query_models(queries: Seq<PreparedQuery>) -> Seq<QueryModel> {
    Seq::new(queries.len(), |i: int| queries[i]@)
}

/// The models of `modules`, in order.
pub open spec fn module_models(modules: Seq<PreparedModule>) -> Seq<ModuleModel> {
    Seq::new(modules.len(), |i: int| modules[i]@)
}

impl View for RustReturnType {
    type V = ReturnModel;

    open spec fn view(&self) -> ReturnModel {
        match self {
            RustReturnType::Void => ReturnModel::Void,
            RustReturnType::Scalar(ty) => ReturnModel::Scalar(ty@),
            RustReturnType::Tuple(tys) => ReturnModel::Tuple(type_models(tys@)),
            RustReturnType::Struct(fields) => ReturnModel::Struct(param_models(fields@)),
            RustReturnType::Raw => ReturnModel::Raw,
        }
    }
}

impl View for PreparedQuery {
    type V = QueryModel;

    open spec fn view(&self) -> QueryModel {
        QueryModel {
            name: self.name@,
            sql: self.sql@,
            params: param_models(self.params@),
            ret: self.ret@,
            quantifier: self.quantifier,
        }
    }
}

impl View for PreparedModule {
    type V = ModuleModel;

    open spec fn view(&self) -> ModuleModel {
        ModuleModel { name: self.name@, queries: query_models(self.queries@) }
    }
}

fn clone_types(types: &Vec<CornucopiaType>) -> (res: Vec<CornucopiaType>)
    ensures
        type_models(res@) == type_models(types@),
{
    let mut out: Vec<CornucopiaType> = Vec::new();
    let mut i: usize = 0;
    while i < types.len()
        invariant
            i <= types.len(),
            out.len() == i,
            forall|j: int| 0 <= j < i ==> (#[trigger] out[j])@ == types[j]@,
        decreases types.len() - i,
    {
        out.push(types[i].clone());
        i = i + 1;
    }
    assert(type_models(out@) =~= type_models(types@));
    out
}

fn clone_params(params: &Vec<Param>) -> (res: Vec<Param>)
    ensures
        param_models(res@) == param_models(params@),
{
    let mut out: Vec<Param> = Vec::new();
    let mut i: usize = 0;
    while i < params.len()
        invariant
            i <= params.len(),
            out.len() == i,
            forall|j: int| 0 <= j < i ==> (#[trigger] out[j])@ == params[j]@,
        decreases params.len() - i,
    {
        out.push(params[i].clone());
        i = i + 1;
    }
    assert(param_models(out@) =~= param_models(params@));
    out
}

impl Clone for Param {
    /// A copy with the same model.
    fn clone(&self) -> (res: Param)
        ensures
            res@ == self@,
    {
        Param { name: self.name.clone(), ty: self.ty.clone(), is_nullable: self.is_nullable }
    }
}

impl Clone for RustReturnType {
    /// A copy with the same model.
    fn clone(&self) -> (res: RustReturnType)
        ensures
            res@ == self@,
    {
        match self {
            RustReturnType::Void => RustReturnType::Void,
            RustReturnType::Scalar(ty) => RustReturnType::Scalar(ty.clone()),
            RustReturnType::Tuple(tys) => RustReturnType::Tuple(clone_types(tys)),
            RustReturnType::Struct(fields) => RustReturnType::Struct(clone_params(fields)),
            RustReturnType::Raw => RustReturnType::Raw,
        }
    }
}

impl Clone for PreparedQuery {
    /// A copy with the same model.
    fn clone(&self) -> (res: PreparedQuery)
        ensures
            res@ == self@,
    {
        PreparedQuery {
            name: self.name.clone(),
            sql: self.sql.clone(),
            params: clone_params(&self.params),
            ret: self.ret.clone(),
            quantifier: self.quantifier,
        }
    }
}

impl Clone for PreparedModule {
    /// A copy with the same model.
    fn clone(&self) -> (res: PreparedModule)
        ensures
            res@ == self@,
    {
        let mut queries: Vec<PreparedQuery> = Vec::new();
        let mut i: usize = 0;
        while i < self.queries.len()
            invariant
                i <= self.queries.len(),
                queries.len() == i,
                forall|j: int| 0 <= j < i ==> (#[trigger] queries[j])@ == self.queries[j]@,
            decreases self.queries.len() - i,
        {
            queries.push(self.queries[i].clone());
            i = i + 1;
        }
        assert(query_models(queries@) =~= query_models(self.queries@));
        PreparedModule { name: self.name.clone(), queries }
    }
}

} // verus!
