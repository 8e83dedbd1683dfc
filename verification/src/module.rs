//! The untyped syntax tree of one source module, as a parser hands it over.
use crate::text::{replace_all, replaced};
use std::rc::Rc;
use vstd::prelude::*;

verus! {

/// A reference to a type or a function: local, or qualified by an import alias.
#[derive(Debug, PartialEq, Eq)]
pub enum IdLoc {
    Here(String),
    Other(String, String),
}

/// The model of `IdLoc`: the same value over sequences of characters.
pub enum IdLocView {
    Here(Seq<char>),
    Other(Seq<char>, Seq<char>),
}

impl DeepView for IdLoc {
    type V = IdLocView;

    open spec fn deep_view(&self) -> IdLocView {
        match self {
            IdLoc::Here(name) => IdLocView::Here(name@),
            IdLoc::Other(module, name) => IdLocView::Other(module@, name@),
        }
    }
}

/// A literal.
#[derive(Debug, PartialEq, Eq)]
pub enum Const {
    Bool(bool),
    U8(u8),
    I32(i32),
    Str(String),
    Void,
}

/// The model of `Const`: the same value over sequences of characters.
pub enum ConstView {
    Bool(bool),
    U8(u8),
    I32(i32),
    Str(Seq<char>),
    Void,
}

impl DeepView for Const {
    type V = ConstView;

    open spec fn deep_view(&self) -> ConstView {
        match self {
            Const::Bool(b) => ConstView::Bool(*b),
            Const::U8(n) => ConstView::U8(*n),
            Const::I32(n) => ConstView::I32(*n),
            Const::Str(s) => ConstView::Str(s@),
            Const::Void => ConstView::Void,
        }
    }
}

/// One pattern of a `match` arm.
#[derive(Debug, PartialEq, Eq)]
pub enum MatchPattern {
    Literal(Const),
    TypeCase(IdLoc, String, Vec<MatchPattern>),
    Var(String),
    Wildcard,
}

/// The model of `MatchPattern`: the same value over sequences of characters.
pub enum MatchPatternView {
    Literal(ConstView),
    TypeCase(IdLocView, Seq<char>, Seq<MatchPatternView>),
    Var(Seq<char>),
    Wildcard,
}

/// The model of a pattern: the same tree over character sequences.
pub open spec fn pattern_view(pattern: &MatchPattern) -> MatchPatternView
    decreases pattern,
{
    match pattern {
        MatchPattern::Literal(c) => MatchPatternView::Literal(c.deep_view()),
        MatchPattern::TypeCase(ty, case, fields) => MatchPatternView::TypeCase(
            ty.deep_view(),
            case@,
            Seq::new(
                fields@.len(),
                |i: int|
                    if 0 <= i < fields@.len() {
                        pattern_view(&fields@[i])
                    } else {
                        arbitrary()
                    },
            ),
        ),
        MatchPattern::Var(name) => MatchPatternView::Var(name@),
        MatchPattern::Wildcard => MatchPatternView::Wildcard,
    }
}

impl DeepView for MatchPattern {
    type V = MatchPatternView;

    open spec fn deep_view(&self) -> MatchPatternView {
        pattern_view(self)
    }
}

/// An untyped expression.
#[derive(Debug, PartialEq, Eq)]
pub enum Expr {
    Const(Const),
    FuncCall(IdLoc, Vec<Rc<Expr>>),
    GetTypeCaseField(Rc<Expr>, String, usize),
    If(Box<Expr>, Rc<Expr>, Box<Expr>),
    IsTypeCase(Rc<Expr>, IdLoc, String),
    Let(String, Rc<Expr>, Rc<Expr>),
    Match(Box<Expr>, Vec<(MatchPattern, Rc<Expr>)>),
    Sequence(Box<Expr>, Box<Expr>),
    TypeCase(IdLoc, String, Vec<Expr>),
    Var(String),
}

/// The model of `Expr`: the same value over sequences of characters.
pub enum ExprView {
    Const(ConstView),
    FuncCall(IdLocView, Seq<ExprView>),
    GetTypeCaseField(Box<ExprView>, Seq<char>, usize),
    If(Box<ExprView>, Box<ExprView>, Box<ExprView>),
    IsTypeCase(Box<ExprView>, IdLocView, Seq<char>),
    Let(Seq<char>, Box<ExprView>, Box<ExprView>),
    Match(Box<ExprView>, Seq<(MatchPatternView, ExprView)>),
    Sequence(Box<ExprView>, Box<ExprView>),
    TypeCase(IdLocView, Seq<char>, Seq<ExprView>),
    Var(Seq<char>),
}

/// The model of an expression: the same tree over character sequences.
pub open spec fn expr_view(e: &Expr) -> ExprView
    decreases e,
{
    match e {
        Expr::Const(c) => ExprView::Const(c.deep_view()),
        Expr::FuncCall(id, args) => ExprView::FuncCall(
            id.deep_view(),
            Seq::new(
                args@.len(),
                |i: int|
                    if 0 <= i < args@.len() {
                        expr_view(&*args@[i])
                    } else {
                        arbitrary()
                    },
            ),
        ),
        Expr::GetTypeCaseField(obj, case, index) => ExprView::GetTypeCaseField(
            Box::new(expr_view(&**obj)),
            case@,
            *index,
        ),
        Expr::If(cond, then_expr, else_expr) => ExprView::If(
            Box::new(expr_view(&**cond)),
            Box::new(expr_view(&**then_expr)),
            Box::new(expr_view(&**else_expr)),
        ),
        Expr::IsTypeCase(obj, ty, case) => ExprView::IsTypeCase(
            Box::new(expr_view(&**obj)),
            ty.deep_view(),
            case@,
        ),
        Expr::Let(name, definition, body) => ExprView::Let(
            name@,
            Box::new(expr_view(&**definition)),
            Box::new(expr_view(&**body)),
        ),
        Expr::Match(obj, arms) => ExprView::Match(
            Box::new(expr_view(&**obj)),
            Seq::new(
                arms@.len(),
                |i: int|
                    if 0 <= i < arms@.len() {
                        (arms@[i].0.deep_view(), expr_view(&*arms@[i].1))
                    } else {
                        arbitrary()
                    },
            ),
        ),
        Expr::Sequence(first, second) => ExprView::Sequence(
            Box::new(expr_view(&**first)),
            Box::new(expr_view(&**second)),
        ),
        Expr::TypeCase(ty, case, args) => ExprView::TypeCase(
            ty.deep_view(),
            case@,
            Seq::new(
                args@.len(),
                |i: int|
                    if 0 <= i < args@.len() {
                        expr_view(&args@[i])
                    } else {
                        arbitrary()
                    },
            ),
        ),
        Expr::Var(name) => ExprView::Var(name@),
    }
}

impl DeepView for Expr {
    type V = ExprView;

    open spec fn deep_view(&self) -> ExprView {
        expr_view(self)
    }
}

/// A named parameter of a function.
#[derive(Debug, PartialEq, Eq)]
pub struct ParamDef {
    pub name: String,
    pub param_type: IdLoc,
}

/// The model of `ParamDef`: the same value over sequences of characters.
pub struct ParamDefView {
    pub name: Seq<char>,
    pub param_type: IdLocView,
}

impl DeepView for ParamDef {
    type V = ParamDefView;

    open spec fn deep_view(&self) -> ParamDefView {
        ParamDefView { name: self.name@, param_type: self.param_type.deep_view() }
    }
}

/// One overload of a function.
#[derive(Debug, PartialEq, Eq)]
pub struct Function {
    pub args: Vec<ParamDef>,
    pub ret_type: IdLoc,
    pub body: Expr,
}

/// The model of `Function`: the same value over sequences of characters.
pub struct FunctionView {
    pub args: Seq<ParamDefView>,
    pub ret_type: IdLocView,
    pub body: ExprView,
}

impl DeepView for Function {
    type V = FunctionView;

    open spec fn deep_view(&self) -> FunctionView {
        FunctionView {
            args: self.args.deep_view(),
            ret_type: self.ret_type.deep_view(),
            body: self.body.deep_view(),
        }
    }
}

/// One case of a tagged union, with the types of its fields.
#[derive(Debug, PartialEq, Eq)]
pub struct TypeCase {
    pub name: String,
    pub fields: Vec<IdLoc>,
}

/// The model of `TypeCase`: the same value over sequences of characters.
pub struct TypeCaseView {
    pub name: Seq<char>,
    pub fields: Seq<IdLocView>,
}

impl DeepView for TypeCase {
    type V = TypeCaseView;

    open spec fn deep_view(&self) -> TypeCaseView {
        TypeCaseView { name: self.name@, fields: self.fields.deep_view() }
    }
}

/// A tagged union: its cases in declaration order.
#[derive(Debug, PartialEq, Eq)]
pub struct Type {
    pub cases: Vec<TypeCase>,
}

/// The model of `Type`: the same value over sequences of characters.
pub struct TypeView {
    pub cases: Seq<TypeCaseView>,
}

impl DeepView for Type {
    type V = TypeView;

    open spec fn deep_view(&self) -> TypeView {
        TypeView { cases: self.cases.deep_view() }
    }
}

/// One parsed module. Each table is an association list in declaration
/// order; a key is looked up from the front.
///
/// `imports` maps an alias to the identity of the imported module,
/// `types` a type name to its definition, and `functions` a function name
/// to its overloads, each keyed by its parameter types.
#[derive(Debug, PartialEq, Eq)]
pub struct Module {
    pub imports: Vec<(String, String)>,
    pub types: Vec<(String, Type)>,
    pub functions: Vec<(String, Vec<(Vec<IdLoc>, Function)>)>,
}

/// The model of `Module`: the same value over sequences of characters.
pub struct ModuleView {
    pub imports: Seq<(Seq<char>, Seq<char>)>,
    pub types: Seq<(Seq<char>, TypeView)>,
    pub functions: Seq<(Seq<char>, Seq<(Seq<IdLocView>, FunctionView)>)>,
}

impl DeepView for Module {
    type V = ModuleView;

    open spec fn deep_view(&self) -> ModuleView {
        ModuleView {
            imports: self.imports.deep_view(),
            types: self.types.deep_view(),
            functions: self.functions.deep_view(),
        }
    }
}

/// The text that a string literal of the source stands for: the escape
/// sequences for the double quote, the line feed, the carriage return, the
/// tabulator and the backslash give way to the characters they name. The
/// sequences are replaced one kind after the other, in this order.
pub open spec fn unescaped(s: Seq<char>) -> Seq<char> {
    replaced(
        replaced(
            replaced(
                replaced(replaced(s, "\\\""@, "\""@), "\\n"@, "\n"@),
                "\\r"@,
                "\r"@,
            ),
            "\\t"@,
            "\t"@,
        ),
        "\\\\"@,
        "\\"@,
    )
}

/// Replaces the escape sequences of a string literal by what they name.
pub fn replace_escape_characters(str_in: String) -> (r: String)
    ensures
        r@ == unescaped(str_in@),
{
    let quotes = replace_all(str_in.as_str(), "\\\"", "\"");
    let feeds = replace_all(quotes.as_str(), "\\n", "\n");
    let carriage = replace_all(feeds.as_str(), "\\r", "\r");
    let tabs = replace_all(carriage.as_str(), "\\t", "\t");
    replace_all(tabs.as_str(), "\\\\", "\\")
}

} // verus!
