//! Pattern matching as conditionals: a `match` is rewritten into a binding
//! of the matched value and a chain of `if`s, one per arm.
use crate::module::{
    Const, ConstView, Expr, ExprView, IdLoc, IdLocView, MatchPattern, MatchPatternView,
};
use std::rc::Rc;
use vstd::prelude::*;

verus! {

/// The variable that holds the matched value while the arms are tried.
pub const MATCH_OBJ: &'static str = "$match_obj$";

/// The text that the fallback of a `match` prints.
pub const NOT_EXHAUSTIVE: &'static str = "Not exhaustive match\n";

/// The test that a value `obj` matches `pattern`.
///
/// A literal is compared with `eq`; a variable and a wildcard always
/// match; a case pattern tests the case and then, field after field, the
/// sub-patterns, each only where all before it matched.
pub open spec fn pattern_condition(obj: ExprView, pattern: MatchPatternView) -> ExprView
    decreases pattern, 0nat,
{
    match pattern {
        MatchPatternView::Literal(c) => ExprView::FuncCall(
            IdLocView::Here("eq"@),
            seq![ExprView::Const(c), obj],
        ),
        MatchPatternView::TypeCase(ty, case, fields) => fields_condition(
            obj,
            ty,
            case,
            fields,
            fields.len(),
        ),
        MatchPatternView::Var(_) => ExprView::Const(ConstView::Bool(true)),
        MatchPatternView::Wildcard => ExprView::Const(ConstView::Bool(true)),
    }
}

/// The test that `obj` is of the case `case` and that its first `n` fields
/// match the first `n` of `fields`.
pub open spec fn fields_condition(
    obj: ExprView,
    ty: IdLocView,
    case: Seq<char>,
    fields: Seq<MatchPatternView>,
    n: nat,
) -> ExprView
    decreases fields, n,
{
    if n == 0 || n > fields.len() {
        ExprView::IsTypeCase(Box::new(obj), ty, case)
    } else {
        ExprView::If(
            Box::new(fields_condition(obj, ty, case, fields, (n - 1) as nat)),
            Box::new(
                pattern_condition(
                    ExprView::GetTypeCaseField(Box::new(obj), case, (n - 1) as usize),
                    fields[n - 1],
                ),
            ),
            Box::new(ExprView::Const(ConstView::Bool(false))),
        )
    }
}

/// The variables that `pattern` binds, each with the expression that reads
/// its value out of `obj`, in the order of the pattern.
pub open spec fn pattern_bindings(obj: ExprView, pattern: MatchPatternView) -> Seq<
    (Seq<char>, ExprView),
>
    decreases pattern, 0nat,
{
    match pattern {
        MatchPatternView::Literal(_) => seq![],
        MatchPatternView::TypeCase(_, case, fields) => fields_bindings(
            obj,
            case,
            fields,
            fields.len(),
        ),
        MatchPatternView::Var(name) => seq![(name, obj)],
        MatchPatternView::Wildcard => seq![],
    }
}

/// The variables that the first `n` of `fields` bind.
pub open spec fn fields_bindings(
    obj: ExprView,
    case: Seq<char>,
    fields: Seq<MatchPatternView>,
    n: nat,
) -> Seq<(Seq<char>, ExprView)>
    decreases fields, n,
{
    if n == 0 || n > fields.len() {
        seq![]
    } else {
        fields_bindings(obj, case, fields, (n - 1) as nat) + pattern_bindings(
            ExprView::GetTypeCaseField(Box::new(obj), case, (n - 1) as usize),
            fields[n - 1],
        )
    }
}

/// `body` inside one `let` per binding, the first binding outermost.
pub open spec fn let_chain(bindings: Seq<(Seq<char>, ExprView)>, body: ExprView) -> ExprView
    decreases bindings.len(),
{
    if bindings.len() == 0 {
        body
    } else {
        let_chain(
            bindings.drop_last(),
            ExprView::Let(bindings.last().0, Box::new(bindings.last().1), Box::new(body)),
        )
    }
}

/// The matched value, read back from its variable.
pub open spec fn match_obj() -> ExprView {
    ExprView::Var(MATCH_OBJ@)
}

/// What runs where no arm matches: a message, then `exit(1)`.
pub open spec fn match_failure() -> ExprView {
    ExprView::Sequence(
        Box::new(
            ExprView::FuncCall(
                IdLocView::Here("print"@),
                seq![ExprView::Const(ConstView::Str(NOT_EXHAUSTIVE@))],
            ),
        ),
        Box::new(
            ExprView::FuncCall(
                IdLocView::Here("exit"@),
                seq![ExprView::Const(ConstView::I32(1))],
            ),
        ),
    )
}

/// The conditional chain of a `match`: each arm is an `if` whose test is
/// the arm's pattern against the matched value, whose `then` is the arm's
/// body under the pattern's bindings, and whose `else` is the chain of the
/// arms before it. The chain ends in the failure. So the last arm is tried
/// first.
pub open spec fn arms_ifs(arms: Seq<(MatchPatternView, ExprView)>) -> ExprView
    decreases arms.len(),
{
    if arms.len() == 0 {
        match_failure()
    } else {
        ExprView::If(
            Box::new(pattern_condition(match_obj(), arms.last().0)),
            Box::new(let_chain(pattern_bindings(match_obj(), arms.last().0), arms.last().1)),
            Box::new(arms_ifs(arms.drop_last())),
        )
    }
}

/// A copy of a reference.
pub fn clone_id_loc(id: &IdLoc) -> (r: IdLoc)
    ensures
        r.deep_view() == id.deep_view(),
{
    match id {
        IdLoc::Here(name) => IdLoc::Here(name.clone()),
        IdLoc::Other(module, name) => IdLoc::Other(module.clone(), name.clone()),
    }
}

/// A copy of a literal.
pub fn clone_const(c: &Const) -> (r: Const)
    ensures
        r.deep_view() == c.deep_view(),
{
    match c {
        Const::Bool(b) => Const::Bool(*b),
        Const::U8(n) => Const::U8(*n),
        Const::I32(n) => Const::I32(*n),
        Const::Str(s) => Const::Str(s.clone()),
        Const::Void => Const::Void,
    }
}

/// A copy of a pattern.
pub fn clone_pattern(pattern: &MatchPattern) -> (r: MatchPattern)
    ensures
        r.deep_view() == pattern.deep_view(),
    decreases pattern,
{
    match pattern {
        MatchPattern::Literal(c) => MatchPattern::Literal(clone_const(c)),
        MatchPattern::TypeCase(ty, case, fields) => {
            let mut copies: Vec<MatchPattern> = Vec::new();
            let mut i: usize = 0;
            while i < fields.len()
                invariant
                    i <= fields.len(),
                    copies.len() == i,
                    forall|j: int|
                        0 <= j < i ==> (#[trigger] copies[j]).deep_view() == fields[j].deep_view(),
                    decreases_to!(pattern => fields),
                decreases fields.len() - i,
            {
                let copy = clone_pattern(&fields[i]);
                copies.push(copy);
                i += 1;
            }
            let r = MatchPattern::TypeCase(clone_id_loc(ty), case.clone(), copies);
            assert(sub_patterns(r.deep_view()) =~= sub_patterns(pattern.deep_view()));
            r
        },
        MatchPattern::Var(name) => MatchPattern::Var(name.clone()),
        MatchPattern::Wildcard => MatchPattern::Wildcard,
    }
}

/// A copy of shared expressions, each shared anew.
fn clone_shared(exprs: &Vec<Rc<Expr>>) -> (r: Vec<Rc<Expr>>)
    ensures
        r.len() == exprs.len(),
        forall|j: int| 0 <= j < r.len() ==> (#[trigger] r[j]).deep_view() == exprs[j].deep_view(),
    decreases exprs, 0nat,
{
    let mut copies: Vec<Rc<Expr>> = Vec::new();
    let mut i: usize = 0;
    while i < exprs.len()
        invariant
            i <= exprs.len(),
            copies.len() == i,
            forall|j: int| 0 <= j < i ==> (#[trigger] copies[j]).deep_view() == exprs[j].deep_view(),
        decreases exprs.len() - i,
    {
        let copy = clone_expr(&exprs[i]);
        copies.push(Rc::new(copy));
        i += 1;
    }
    copies
}

/// A copy of an expression.
pub fn clone_expr(e: &Expr) -> (r: Expr)
    ensures
        r.deep_view() == e.deep_view(),
    decreases e, 1nat,
{
    match e {
        Expr::Const(c) => Expr::Const(clone_const(c)),
        Expr::FuncCall(id, args) => {
            let copies = clone_shared(args);
            let r = Expr::FuncCall(clone_id_loc(id), copies);
            assert(r.deep_view()->FuncCall_1 =~= e.deep_view()->FuncCall_1);
            r
        },
        Expr::GetTypeCaseField(obj, case, index) => Expr::GetTypeCaseField(
            Rc::new(clone_expr(obj)),
            case.clone(),
            *index,
        ),
        Expr::If(cond, then_expr, else_expr) => Expr::If(
            Box::new(clone_expr(cond)),
            Rc::new(clone_expr(then_expr)),
            Box::new(clone_expr(else_expr)),
        ),
        Expr::IsTypeCase(obj, ty, case) => Expr::IsTypeCase(
            Rc::new(clone_expr(obj)),
            clone_id_loc(ty),
            case.clone(),
        ),
        Expr::Let(name, definition, body) => Expr::Let(
            name.clone(),
            Rc::new(clone_expr(definition)),
            Rc::new(clone_expr(body)),
        ),
        Expr::Match(obj, arms) => {
            let mut copies: Vec<(MatchPattern, Rc<Expr>)> = Vec::new();
            let mut i: usize = 0;
            while i < arms.len()
                invariant
                    i <= arms.len(),
                    copies.len() == i,
                    forall|j: int|
                        0 <= j < i ==> (#[trigger] copies[j]).0.deep_view()
                            == arms[j].0.deep_view() && copies[j].1.deep_view()
                            == arms[j].1.deep_view(),
                    decreases_to!(e => arms),
                decreases arms.len() - i,
            {
                let pattern = clone_pattern(&arms[i].0);
                let body = clone_expr(&arms[i].1);
                copies.push((pattern, Rc::new(body)));
                i += 1;
            }
            let r = Expr::Match(Box::new(clone_expr(obj)), copies);
            assert(r.deep_view()->Match_1 =~= e.deep_view()->Match_1);
            r
        },
        Expr::Sequence(first, second) => Expr::Sequence(
            Box::new(clone_expr(first)),
            Box::new(clone_expr(second)),
        ),
        Expr::TypeCase(ty, case, args) => {
            let mut copies: Vec<Expr> = Vec::new();
            let mut i: usize = 0;
            while i < args.len()
                invariant
                    i <= args.len(),
                    copies.len() == i,
                    forall|j: int|
                        0 <= j < i ==> (#[trigger] copies[j]).deep_view() == args[j].deep_view(),
                    decreases_to!(e => args),
                decreases args.len() - i,
            {
                let copy = clone_expr(&args[i]);
                copies.push(copy);
                i += 1;
            }
            let r = Expr::TypeCase(clone_id_loc(ty), case.clone(), copies);
            assert(r.deep_view()->TypeCase_2 =~= e.deep_view()->TypeCase_2);
            r
        },
        Expr::Var(name) => Expr::Var(name.clone()),
    }
}

/// One more handle on the expression that `e` holds: a copy of it.
fn share(e: &Rc<Expr>) -> (r: Rc<Expr>)
    ensures
        r.deep_view() == e.deep_view(),
{
    Rc::new(clone_expr(e))
}

/// The sub-patterns of a case pattern.
pub open spec fn sub_patterns(pattern: MatchPatternView) -> Seq<MatchPatternView> {
    match pattern {
        MatchPatternView::TypeCase(_, _, fields) => fields,
        _ => seq![],
    }
}

/// Turns one pattern into the test that `obj` matches it and the list of
/// the variables it binds.
pub fn get_condition_vars_pattern(obj: Rc<Expr>, pattern: &MatchPattern) -> (r: (
    Expr,
    Vec<(String, Rc<Expr>)>,
))
    ensures
        r.0.deep_view() == pattern_condition(obj.deep_view(), pattern.deep_view()),
        r.1.deep_view() == pattern_bindings(obj.deep_view(), pattern.deep_view()),
    decreases pattern,
{
    match pattern {
        MatchPattern::Literal(c) => {
            let mut args: Vec<Rc<Expr>> = Vec::new();
            args.push(Rc::new(Expr::Const(clone_const(c))));
            args.push(obj);
            let cond = Expr::FuncCall(IdLoc::Here("eq".to_owned()), args);
            let vars: Vec<(String, Rc<Expr>)> = Vec::new();
            proof {
                assert(args@[0].deep_view() == ExprView::Const(c.deep_view()));
                assert(cond.deep_view()->FuncCall_1 =~= seq![
                    ExprView::Const(c.deep_view()),
                    obj.deep_view(),
                ]);
                assert(vars.deep_view() =~= seq![]);
            }
            (cond, vars)
        },
        MatchPattern::TypeCase(ty, case, fields) => {
            let ghost fv = sub_patterns(pattern.deep_view());
            let mut acc_expr = Expr::IsTypeCase(share(&obj), clone_id_loc(ty), case.clone());
            let mut acc_vars: Vec<(String, Rc<Expr>)> = Vec::new();
            assert(acc_vars.deep_view() =~= seq![]);
            let mut i: usize = 0;
            while i < fields.len()
                invariant
                    i <= fields.len(),
                    fv.len() == fields.len(),
                    forall|j: int| 0 <= j < fields.len() ==> fv[j] == (#[trigger] fields[j]).deep_view(),
                    acc_expr.deep_view() == fields_condition(
                        obj.deep_view(),
                        ty.deep_view(),
                        case@,
                        fv,
                        i as nat,
                    ),
                    acc_vars.deep_view() == fields_bindings(obj.deep_view(), case@, fv, i as nat),
                    decreases_to!(pattern => fields),
                decreases fields.len() - i,
            {
                let field_obj = Rc::new(Expr::GetTypeCaseField(share(&obj), case.clone(), i));
                assert(field_obj.deep_view() == ExprView::GetTypeCaseField(
                    Box::new(obj.deep_view()),
                    case@,
                    i,
                ));
                let ghost before = acc_vars.deep_view();
                let (cond, mut vars) = get_condition_vars_pattern(field_obj, &fields[i]);
                let ghost added = vars.deep_view();
                acc_vars.append(&mut vars);
                let otherwise = Expr::Const(Const::Bool(false));
                assert(otherwise.deep_view() == ExprView::Const(ConstView::Bool(false)));
                acc_expr = Expr::If(Box::new(acc_expr), Rc::new(cond), Box::new(otherwise));
                proof {
                    assert(acc_vars.deep_view() =~= before + added);
                }
                i += 1;
            }
            (acc_expr, acc_vars)
        },
        MatchPattern::Var(name) => {
            let mut vars: Vec<(String, Rc<Expr>)> = Vec::new();
            vars.push((name.clone(), obj));
            proof {
                assert(vars.deep_view() =~= seq![(name@, obj.deep_view())]);
            }
            (Expr::Const(Const::Bool(true)), vars)
        },
        MatchPattern::Wildcard => {
            let vars: Vec<(String, Rc<Expr>)> = Vec::new();
            proof {
                assert(vars.deep_view() =~= seq![]);
            }
            (Expr::Const(Const::Bool(true)), vars)
        },
    }
}

/// Wraps `body` in one `let` per binding, the first binding outermost.
fn wrap_lets(bindings: Vec<(String, Rc<Expr>)>, body: Rc<Expr>) -> (r: Rc<Expr>)
    ensures
        r.deep_view() == let_chain(bindings.deep_view(), body.deep_view()),
{
    let mut rest = bindings;
    let mut acc = body;
    while rest.len() > 0
        invariant
            let_chain(bindings.deep_view(), body.deep_view()) == let_chain(
                rest.deep_view(),
                acc.deep_view(),
            ),
        decreases rest.len(),
    {
        let ghost before = rest.deep_view();
        let (name, definition) = rest.pop().unwrap();
        proof {
            assert(rest.deep_view() =~= before.drop_last());
            assert(before.last() == (name@, definition.deep_view()));
        }
        let wrapped = Expr::Let(name, definition, acc);
        assert(wrapped.deep_view() == ExprView::Let(
            before.last().0,
            Box::new(before.last().1),
            Box::new(acc.deep_view()),
        ));
        acc = Rc::new(wrapped);
    }
    acc
}

/// The expression that runs where no arm matches.
fn build_match_failure() -> (r: Expr)
    ensures
        r.deep_view() == match_failure(),
{
    let mut print_args: Vec<Rc<Expr>> = Vec::new();
    print_args.push(Rc::new(Expr::Const(Const::Str(NOT_EXHAUSTIVE.to_owned()))));
    let mut exit_args: Vec<Rc<Expr>> = Vec::new();
    exit_args.push(Rc::new(Expr::Const(Const::I32(1))));
    let print = Expr::FuncCall(IdLoc::Here("print".to_owned()), print_args);
    let exit = Expr::FuncCall(IdLoc::Here("exit".to_owned()), exit_args);
    proof {
        assert(print_args@[0].deep_view() == ExprView::Const(ConstView::Str(NOT_EXHAUSTIVE@)));
        assert(exit_args@[0].deep_view() == ExprView::Const(ConstView::I32(1)));
        assert(print.deep_view()->FuncCall_1 =~= seq![
            ExprView::Const(ConstView::Str(NOT_EXHAUSTIVE@)),
        ]);
        assert(exit.deep_view()->FuncCall_1 =~= seq![ExprView::Const(ConstView::I32(1))]);
    }
    Expr::Sequence(Box::new(print), Box::new(exit))
}

/// Builds the conditional chain of a `match` from its arms. The matched
/// value is read from the variable `MATCH_OBJ`, which the caller binds.
pub fn build_ifs_from_arms(match_arms: &Vec<(MatchPattern, Rc<Expr>)>) -> (r: Expr)
    ensures
        r.deep_view() == arms_ifs(match_arms.deep_view()),
{
    let ghost arms = match_arms.deep_view();
    let mut acc = build_match_failure();
    let mut i: usize = 0;
    assert(arms.take(0) =~= seq![]);
    while i < match_arms.len()
        invariant
            i <= match_arms.len(),
            arms == match_arms.deep_view(),
            acc.deep_view() == arms_ifs(arms.take(i as int)),
        decreases match_arms.len() - i,
    {
        let obj = Rc::new(Expr::Var(MATCH_OBJ.to_owned()));
        assert(obj.deep_view() == match_obj());
        let (condition, bindings) = get_condition_vars_pattern(obj, &match_arms[i].0);
        let then_expr = wrap_lets(bindings, share(&match_arms[i].1));
        let ghost previous = acc.deep_view();
        acc = Expr::If(Box::new(condition), then_expr, Box::new(acc));
        proof {
            let next = arms.take(i + 1);
            assert(next.drop_last() =~= arms.take(i as int));
            assert(next.last() == arms[i as int]);
            assert(arms[i as int] == (match_arms[i as int].0.deep_view(), match_arms[i as int].1.deep_view()));
        }
        i += 1;
    }
    assert(arms.take(i as int) =~= arms);
    acc
}

/// A measure of an expression that the rewriting of a `match` makes
/// smaller: every node counts one, and a `match` counts what its
/// conditional chain counts, and two more.
pub open spec fn weight(e: ExprView) -> nat
    decreases e,
{
    match e {
        ExprView::Const(_) => 1,
        ExprView::FuncCall(_, args) => 1 + weight_all(args),
        ExprView::GetTypeCaseField(obj, _, _) => 1 + weight(*obj),
        ExprView::If(cond, then_expr, else_expr) => 1 + weight(*cond) + weight(*then_expr)
            + weight(*else_expr),
        ExprView::IsTypeCase(obj, _, _) => 1 + weight(*obj),
        ExprView::Let(_, definition, body) => 1 + weight(*definition) + weight(*body),
        ExprView::Match(obj, arms) => 2 + weight(*obj) + arms_weight(arms),
        ExprView::Sequence(first, second) => 1 + weight(*first) + weight(*second),
        ExprView::TypeCase(_, _, args) => 1 + weight_all(args),
        ExprView::Var(_) => 1,
    }
}

/// The weights of `exprs`, added up.
pub open spec fn weight_all(exprs: Seq<ExprView>) -> nat
    decreases exprs,
{
    if exprs.len() == 0 {
        0
    } else {
        weight_all(exprs.drop_last()) + weight(exprs.last())
    }
}

/// The weight of the conditional chain of `arms`.
pub open spec fn arms_weight(arms: Seq<(MatchPatternView, ExprView)>) -> nat
    decreases arms,
{
    if arms.len() == 0 {
        5
    } else {
        arms_weight(arms.drop_last()) + 1 + condition_weight(arms.last().0, 1) + bindings_weight(
            arms.last().0,
            1,
        ) + weight(arms.last().1)
    }
}

/// The weight of the test of `pattern` against a value of weight `obj`.
pub open spec fn condition_weight(pattern: MatchPatternView, obj: nat) -> nat
    decreases pattern, 0nat,
{
    match pattern {
        MatchPatternView::Literal(_) => 2 + obj,
        MatchPatternView::TypeCase(_, _, fields) => fields_condition_weight(
            fields,
            fields.len(),
            obj,
        ),
        MatchPatternView::Var(_) => 1,
        MatchPatternView::Wildcard => 1,
    }
}

/// The weight of the test of the first `n` of `fields`.
pub open spec fn fields_condition_weight(fields: Seq<MatchPatternView>, n: nat, obj: nat) -> nat
    decreases fields, n,
{
    if n == 0 || n > fields.len() {
        1 + obj
    } else {
        2 + fields_condition_weight(fields, (n - 1) as nat, obj) + condition_weight(
            fields[n - 1],
            obj + 1,
        )
    }
}

/// What the bindings of `pattern` add to the weight of an arm.
pub open spec fn bindings_weight(pattern: MatchPatternView, obj: nat) -> nat
    decreases pattern, 0nat,
{
    match pattern {
        MatchPatternView::Literal(_) => 0,
        MatchPatternView::TypeCase(_, _, fields) => fields_bindings_weight(
            fields,
            fields.len(),
            obj,
        ),
        MatchPatternView::Var(_) => 1 + obj,
        MatchPatternView::Wildcard => 0,
    }
}

/// What the bindings of the first `n` of `fields` add.
pub open spec fn fields_bindings_weight(fields: Seq<MatchPatternView>, n: nat, obj: nat) -> nat
    decreases fields, n,
{
    if n == 0 || n > fields.len() {
        0
    } else {
        fields_bindings_weight(fields, (n - 1) as nat, obj) + bindings_weight(
            fields[n - 1],
            obj + 1,
        )
    }
}

/// What a list of bindings adds to the weight of the body they wrap.
pub open spec fn bindings_total(bindings: Seq<(Seq<char>, ExprView)>) -> nat
    decreases bindings.len(),
{
    if bindings.len() == 0 {
        0
    } else {
        bindings_total(bindings.drop_last()) + 1 + weight(bindings.last().1)
    }
}

proof fn lemma_bindings_total_concat(
    a: Seq<(Seq<char>, ExprView)>,
    b: Seq<(Seq<char>, ExprView)>,
)
    ensures
        bindings_total(a + b) == bindings_total(a) + bindings_total(b),
    decreases b.len(),
{
    if b.len() == 0 {
        assert(a + b =~= a);
    } else {
        lemma_bindings_total_concat(a, b.drop_last());
        assert((a + b).drop_last() =~= a + b.drop_last());
        assert((a + b).last() == b.last());
    }
}

proof fn lemma_pattern_weight(obj: ExprView, pattern: MatchPatternView)
    ensures
        weight(pattern_condition(obj, pattern)) == condition_weight(pattern, weight(obj)),
        bindings_total(pattern_bindings(obj, pattern)) == bindings_weight(pattern, weight(obj)),
    decreases pattern, 0nat,
{
    match pattern {
        MatchPatternView::Literal(c) => {
            let args = seq![ExprView::Const(c), obj];
            assert(weight(ExprView::Const(c)) == 1);
            assert(args.drop_last() =~= seq![ExprView::Const(c)]);
            assert(args.drop_last().drop_last() =~= Seq::<ExprView>::empty());
            assert(weight_all(args) == weight_all(args.drop_last()) + weight(obj));
            assert(weight_all(args.drop_last()) == weight_all(args.drop_last().drop_last()) + 1);
        },
        MatchPatternView::TypeCase(ty, case, fields) => {
            lemma_fields_weight(obj, ty, case, fields, fields.len());
        },
        MatchPatternView::Var(name) => {
            let b = seq![(name, obj)];
            assert(b.drop_last() =~= Seq::<(Seq<char>, ExprView)>::empty());
            assert(bindings_total(b) == bindings_total(b.drop_last()) + 1 + weight(obj));
        },
        MatchPatternView::Wildcard => {},
    }
}

proof fn lemma_fields_weight(
    obj: ExprView,
    ty: IdLocView,
    case: Seq<char>,
    fields: Seq<MatchPatternView>,
    n: nat,
)
    ensures
        weight(fields_condition(obj, ty, case, fields, n)) == fields_condition_weight(
            fields,
            n,
            weight(obj),
        ),
        bindings_total(fields_bindings(obj, case, fields, n)) == fields_bindings_weight(
            fields,
            n,
            weight(obj),
        ),
    decreases fields, n,
{
    if n == 0 || n > fields.len() {
    } else {
        let field_obj = ExprView::GetTypeCaseField(Box::new(obj), case, (n - 1) as usize);
        assert(weight(field_obj) == 1 + weight(obj));
        assert(weight(ExprView::Const(ConstView::Bool(false))) == 1);
        lemma_fields_weight(obj, ty, case, fields, (n - 1) as nat);
        lemma_pattern_weight(field_obj, fields[n - 1]);
        lemma_bindings_total_concat(
            fields_bindings(obj, case, fields, (n - 1) as nat),
            pattern_bindings(field_obj, fields[n - 1]),
        );
    }
}

proof fn lemma_let_chain_weight(bindings: Seq<(Seq<char>, ExprView)>, body: ExprView)
    ensures
        weight(let_chain(bindings, body)) == weight(body) + bindings_total(bindings),
    decreases bindings.len(),
{
    if bindings.len() > 0 {
        lemma_let_chain_weight(
            bindings.drop_last(),
            ExprView::Let(bindings.last().0, Box::new(bindings.last().1), Box::new(body)),
        );
    }
}

/// The conditional chain of a `match` weighs what `arms_weight` says, so
/// it weighs less than the `match`.
pub proof fn lemma_arms_ifs_weight(arms: Seq<(MatchPatternView, ExprView)>)
    ensures
        weight(arms_ifs(arms)) == arms_weight(arms),
    decreases arms.len(),
{
    if arms.len() == 0 {
        let print_args = seq![ExprView::Const(ConstView::Str(NOT_EXHAUSTIVE@))];
        let exit_args = seq![ExprView::Const(ConstView::I32(1))];
        assert(weight(ExprView::Const(ConstView::Str(NOT_EXHAUSTIVE@))) == 1);
        assert(weight(ExprView::Const(ConstView::I32(1))) == 1);
        assert(print_args.drop_last() =~= Seq::<ExprView>::empty());
        assert(exit_args.drop_last() =~= Seq::<ExprView>::empty());
        assert(weight_all(print_args) == weight_all(print_args.drop_last()) + 1);
        assert(weight_all(exit_args) == weight_all(exit_args.drop_last()) + 1);
        assert(weight(ExprView::FuncCall(IdLocView::Here("print"@), print_args)) == 2);
        assert(weight(ExprView::FuncCall(IdLocView::Here("exit"@), exit_args)) == 2);
    } else {
        assert(weight(match_obj()) == 1);
        lemma_arms_ifs_weight(arms.drop_last());
        lemma_pattern_weight(match_obj(), arms.last().0);
        lemma_let_chain_weight(pattern_bindings(match_obj(), arms.last().0), arms.last().1);
    }
}

/// An expression of a list weighs no more than the list.
pub proof fn lemma_weight_all_bounds(exprs: Seq<ExprView>, i: int)
    requires
        0 <= i < exprs.len(),
    ensures
        weight(exprs[i]) <= weight_all(exprs),
        weight_all(exprs.take(i)) + weight(exprs[i]) <= weight_all(exprs),
    decreases exprs.len(),
{
    if i == exprs.len() - 1 {
        assert(exprs.take(i) =~= exprs.drop_last());
    } else {
        lemma_weight_all_bounds(exprs.drop_last(), i);
        assert(exprs.drop_last().take(i) =~= exprs.take(i));
    }
}

/// The body of an arm weighs less than the arms.
pub proof fn lemma_arms_weight_bounds(arms: Seq<(MatchPatternView, ExprView)>, i: int)
    requires
        0 <= i < arms.len(),
    ensures
        weight(arms[i].1) < arms_weight(arms),
    decreases arms.len(),
{
    if i < arms.len() - 1 {
        lemma_arms_weight_bounds(arms.drop_last(), i);
    }
}

} // verus!
