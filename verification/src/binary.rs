//! The typed program that the checker produces and code generation consumes.
use crate::lookup::{lemma_first_entry_is_lookup, lemma_lookup_index, lookup, lookup_index};
use crate::module::{Const, ConstView};
use vstd::prelude::*;

verus! {

/// One case of a linked type: its name and the identifiers of its field types.
#[derive(Debug, PartialEq, Eq)]
pub struct BinTypeCase {
    pub name: String,
    pub fields: Vec<String>,
}

/// The model of `BinTypeCase`: the same value over sequences of characters.
pub struct BinTypeCaseView {
    pub name: Seq<char>,
    pub fields: Seq<Seq<char>>,
}

impl DeepView for BinTypeCase {
    type V = BinTypeCaseView;

    open spec fn deep_view(&self) -> BinTypeCaseView {
        BinTypeCaseView { name: self.name@, fields: self.fields.deep_view() }
    }
}

/// The cases of a type as a table by name.
pub open spec fn case_table(cases: Seq<BinTypeCaseView>) -> Seq<(Seq<char>, BinTypeCaseView)> {
    Seq::new(cases.len(), |i: int| (cases[i].name, cases[i]))
}

/// The position of the first case of the name `case`.
pub open spec fn case_position(cases: Seq<BinTypeCaseView>, case: Seq<char>) -> Option<int> {
    lookup_index(case_table(cases), case)
}

/// The first case of the name `case`.
pub open spec fn find_case(cases: Seq<BinTypeCaseView>, case: Seq<char>) -> Option<
    BinTypeCaseView,
> {
    lookup(case_table(cases), case)
}

/// Finds the first case of the name `case`.
pub fn find_case_index(cases: &Vec<BinTypeCase>, case: &str) -> (r: Option<usize>)
    ensures
        match r {
            Some(i) => i < cases.len() && case_position(cases.deep_view(), case@) == Some(
                i as int,
            ) && find_case(cases.deep_view(), case@) == Some(cases[i as int].deep_view()),
            None => case_position(cases.deep_view(), case@) is None && find_case(
                cases.deep_view(),
                case@,
            ) is None,
        },
{
    let ghost table = case_table(cases.deep_view());
    let mut i: usize = 0;
    while i < cases.len()
        invariant
            i <= cases.len(),
            table == case_table(cases.deep_view()),
            forall|j: int| 0 <= j < i ==> (#[trigger] table[j]).0 != case@,
        decreases cases.len() - i,
    {
        if crate::text::str_eq(cases[i].name.as_str(), case) {
            proof {
                assert(table[i as int].0 == case@);
                lemma_first_entry_is_lookup(table, case@, i as int);
            }
            return Some(i);
        }
        assert(table[i as int].0 != case@);
        i += 1;
    }
    proof {
        lemma_lookup_index(table, case@);
    }
    None
}

/// A linked type: its cases in declaration order.
#[derive(Debug, PartialEq, Eq)]
pub struct BinType {
    pub cases: Vec<BinTypeCase>,
}

/// The model of `BinType`: the same value over sequences of characters.
pub struct BinTypeView {
    pub cases: Seq<BinTypeCaseView>,
}

impl DeepView for BinType {
    type V = BinTypeView;

    open spec fn deep_view(&self) -> BinTypeView {
        BinTypeView { cases: self.cases.deep_view() }
    }
}

/// A parameter of a linked function, with the identifier of its type.
#[derive(Debug, PartialEq, Eq)]
pub struct BinParamDef {
    pub name: String,
    pub param_type: String,
}

/// The model of `BinParamDef`: the same value over sequences of characters.
pub struct BinParamDefView {
    pub name: Seq<char>,
    pub param_type: Seq<char>,
}

impl DeepView for BinParamDef {
    type V = BinParamDefView;

    open spec fn deep_view(&self) -> BinParamDefView {
        BinParamDefView { name: self.name@, param_type: self.param_type@ }
    }
}

/// An expression together with the identifier of its type.
#[derive(Debug, PartialEq, Eq)]
pub struct TypedExpr {
    pub expr: BinExpr,
    pub expr_type: String,
}

/// The node kinds of a typed expression. A `match` does not occur: the
/// checker has turned it into conditionals.
#[derive(Debug, PartialEq, Eq)]
pub enum BinExpr {
    Const(Const),
    FuncCall(String, Vec<TypedExpr>),
    GetTypeCaseField(Box<TypedExpr>, String, usize),
    If(Box<TypedExpr>, Box<TypedExpr>, Box<TypedExpr>),
    IsCase(Box<TypedExpr>, String),
    Let(String, Box<TypedExpr>, Box<TypedExpr>),
    Sequence(Box<TypedExpr>, Box<TypedExpr>),
    TypeCase(String, String, Vec<TypedExpr>),
    Var(String),
}

/// The model of `TypedExpr`: the same value over sequences of characters.
pub struct TypedExprView {
    pub expr: BinExprView,
    pub expr_type: Seq<char>,
}

/// The model of `BinExpr`: the same value over sequences of characters.
pub enum BinExprView {
    Const(ConstView),
    FuncCall(Seq<char>, Seq<TypedExprView>),
    GetTypeCaseField(Box<TypedExprView>, Seq<char>, usize),
    If(Box<TypedExprView>, Box<TypedExprView>, Box<TypedExprView>),
    IsCase(Box<TypedExprView>, Seq<char>),
    Let(Seq<char>, Box<TypedExprView>, Box<TypedExprView>),
    Sequence(Box<TypedExprView>, Box<TypedExprView>),
    TypeCase(Seq<char>, Seq<char>, Seq<TypedExprView>),
    Var(Seq<char>),
}

/// The model of a typed expression: the same tree over character sequences.
pub open spec fn typed_expr_view(e: &TypedExpr) -> TypedExprView
    decreases e, 1nat,
{
    TypedExprView { expr: bin_expr_view(&e.expr), expr_type: e.expr_type@ }
}

/// The model of one typed node.
pub open spec fn bin_expr_view(e: &BinExpr) -> BinExprView
    decreases e, 0nat,
{
    match e {
        BinExpr::Const(c) => BinExprView::Const(c.deep_view()),
        BinExpr::FuncCall(id, args) => BinExprView::FuncCall(
            id@,
            Seq::new(
                args@.len(),
                |i: int|
                    if 0 <= i < args@.len() {
                        typed_expr_view(&args@[i])
                    } else {
                        arbitrary()
                    },
            ),
        ),
        BinExpr::GetTypeCaseField(obj, case, index) => BinExprView::GetTypeCaseField(
            Box::new(typed_expr_view(&**obj)),
            case@,
            *index,
        ),
        BinExpr::If(cond, then_expr, else_expr) => BinExprView::If(
            Box::new(typed_expr_view(&**cond)),
            Box::new(typed_expr_view(&**then_expr)),
            Box::new(typed_expr_view(&**else_expr)),
        ),
        BinExpr::IsCase(obj, case) => BinExprView::IsCase(
            Box::new(typed_expr_view(&**obj)),
            case@,
        ),
        BinExpr::Let(name, definition, body) => BinExprView::Let(
            name@,
            Box::new(typed_expr_view(&**definition)),
            Box::new(typed_expr_view(&**body)),
        ),
        BinExpr::Sequence(first, second) => BinExprView::Sequence(
            Box::new(typed_expr_view(&**first)),
            Box::new(typed_expr_view(&**second)),
        ),
        BinExpr::TypeCase(ty, case, fields) => BinExprView::TypeCase(
            ty@,
            case@,
            Seq::new(
                fields@.len(),
                |i: int|
                    if 0 <= i < fields@.len() {
                        typed_expr_view(&fields@[i])
                    } else {
                        arbitrary()
                    },
            ),
        ),
        BinExpr::Var(name) => BinExprView::Var(name@),
    }
}

/// The number of nodes of a typed expression.
pub open spec fn expr_size(e: TypedExprView) -> nat
    decreases e,
{
    match e.expr {
        BinExprView::Const(_) => 1,
        BinExprView::FuncCall(_, args) => 1 + exprs_size(args),
        BinExprView::GetTypeCaseField(obj, _, _) => 1 + expr_size(*obj),
        BinExprView::If(cond, then_expr, else_expr) => 1 + expr_size(*cond) + expr_size(
            *then_expr,
        ) + expr_size(*else_expr),
        BinExprView::IsCase(obj, _) => 1 + expr_size(*obj),
        BinExprView::Let(_, definition, body) => 1 + expr_size(*definition) + expr_size(*body),
        BinExprView::Sequence(first, second) => 1 + expr_size(*first) + expr_size(*second),
        BinExprView::TypeCase(_, _, fields) => 1 + exprs_size(fields),
        BinExprView::Var(_) => 1,
    }
}

/// The number of nodes of a list of typed expressions.
pub open spec fn exprs_size(exprs: Seq<TypedExprView>) -> nat
    decreases exprs,
{
    if exprs.len() == 0 {
        0
    } else {
        exprs_size(exprs.drop_last()) + expr_size(exprs.last())
    }
}

/// Every expression has a node.
pub proof fn lemma_expr_size_positive(e: TypedExprView)
    ensures
        expr_size(e) >= 1,
{
}

/// An expression of a list has no more nodes than the list.
pub proof fn lemma_exprs_size_bounds(exprs: Seq<TypedExprView>, i: int)
    requires
        0 <= i < exprs.len(),
    ensures
        expr_size(exprs[i]) <= exprs_size(exprs),
    decreases exprs.len(),
{
    if i < exprs.len() - 1 {
        lemma_exprs_size_bounds(exprs.drop_last(), i);
    }
}

impl DeepView for TypedExpr {
    type V = TypedExprView;

    open spec fn deep_view(&self) -> TypedExprView {
        typed_expr_view(self)
    }
}

impl DeepView for BinExpr {
    type V = BinExprView;

    open spec fn deep_view(&self) -> BinExprView {
        bin_expr_view(self)
    }
}

/// A linked function: parameters, return type and typed body.
#[derive(Debug, PartialEq, Eq)]
pub struct BinFunction {
    pub args: Vec<BinParamDef>,
    pub ret_type: String,
    pub body: TypedExpr,
}

/// The model of `BinFunction`: the same value over sequences of characters.
pub struct BinFunctionView {
    pub args: Seq<BinParamDefView>,
    pub ret_type: Seq<char>,
    pub body: TypedExprView,
}

impl DeepView for BinFunction {
    type V = BinFunctionView;

    open spec fn deep_view(&self) -> BinFunctionView {
        BinFunctionView {
            args: self.args.deep_view(),
            ret_type: self.ret_type@,
            body: self.body.deep_view(),
        }
    }
}

/// The whole program: every function and every type under its global
/// identifier. Both tables are association lists, looked up from the front.
#[derive(Debug, PartialEq, Eq)]
pub struct Binary {
    pub functions: Vec<(String, BinFunction)>,
    pub types: Vec<(String, BinType)>,
}

/// The model of `Binary`: the same value over sequences of characters.
pub struct BinaryView {
    pub functions: Seq<(Seq<char>, BinFunctionView)>,
    pub types: Seq<(Seq<char>, BinTypeView)>,
}

impl DeepView for Binary {
    type V = BinaryView;

    open spec fn deep_view(&self) -> BinaryView {
        BinaryView { functions: self.functions.deep_view(), types: self.types.deep_view() }
    }
}

} // verus!
