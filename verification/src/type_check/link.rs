//! The linker: global identifiers for the types and functions of all
//! modules, and every reference to a type replaced by its identifier.
use crate::binary::{BinType, BinTypeCase, BinTypeCaseView, BinTypeView};
use crate::collect::{lemma_try_collect_error, lemma_try_concat_error, try_collect, try_concat};
use crate::module::{
    Function, FunctionView, IdLoc, IdLocView, Module, ModuleView, TypeCase, TypeCaseView, TypeView,
};
use crate::text::{
    decimal, lemma_decimal_digits, lemma_decimal_injective, lemma_split_at_last_sigil, to_decimal,
};
use crate::type_check::error::{result_view, TypeError, TypeErrorView};
use crate::type_check::expr::get_unique_type_id;
use crate::type_check::rules::{resolve_type, FnSig, FnSigView, TypeIds};
use vstd::prelude::*;
use vstd::string::StringExecFns;

verus! {

/// The global identifier of the type `name` of the module `module_id`:
/// the identity of the module, then the name.
pub open spec fn type_id(module_id: Seq<char>, name: Seq<char>) -> Seq<char> {
    module_id + name
}

/// The global identifier of overload number `index` of the function
/// `name` of the module `module_id`: the identity of the module, the name,
/// a `$`, and the number in decimal.
pub open spec fn function_id(module_id: Seq<char>, name: Seq<char>, index: nat) -> Seq<char> {
    module_id + name + seq!['$'] + decimal(index)
}

/// The identifiers of the types of one module, by their local names.
pub open spec fn module_type_ids(module_id: Seq<char>, types: Seq<(Seq<char>, TypeView)>) -> Seq<
    (Seq<char>, Seq<char>),
> {
    Seq::new(types.len(), |i: int| (types[i].0, type_id(module_id, types[i].0)))
}

/// The table of type identifiers of a program.
pub open spec fn all_type_ids(modules: Seq<(Seq<char>, ModuleView)>) -> TypeIds {
    Seq::new(
        modules.len(),
        |i: int| (modules[i].0, module_type_ids(modules[i].0, modules[i].1.types)),
    )
}

/// Step `i` of resolving the references `tys`.
pub open spec fn resolver(
    type_ids: TypeIds,
    imports: Seq<(Seq<char>, Seq<char>)>,
    module_id: Seq<char>,
    tys: Seq<IdLocView>,
) -> spec_fn(int) -> Result<Seq<char>, TypeErrorView> {
    |i: int| resolve_type(type_ids, imports, module_id, tys[i])
}

/// The identifiers that the references `tys` stand for, in order.
pub open spec fn link_type_refs(
    type_ids: TypeIds,
    imports: Seq<(Seq<char>, Seq<char>)>,
    module_id: Seq<char>,
    tys: Seq<IdLocView>,
) -> Result<Seq<Seq<char>>, TypeErrorView> {
    try_collect(tys.len(), resolver(type_ids, imports, module_id, tys))
}

/// A case with the types of its fields resolved.
pub open spec fn link_case(
    type_ids: TypeIds,
    imports: Seq<(Seq<char>, Seq<char>)>,
    module_id: Seq<char>,
    case: TypeCaseView,
) -> Result<BinTypeCaseView, TypeErrorView> {
    match link_type_refs(type_ids, imports, module_id, case.fields) {
        Err(e) => Err(e),
        Ok(fields) => Ok(BinTypeCaseView { name: case.name, fields }),
    }
}

/// Step `i` of linking the cases `cases`.
pub open spec fn case_linker(
    type_ids: TypeIds,
    imports: Seq<(Seq<char>, Seq<char>)>,
    module_id: Seq<char>,
    cases: Seq<TypeCaseView>,
) -> spec_fn(int) -> Result<BinTypeCaseView, TypeErrorView> {
    |i: int| link_case(type_ids, imports, module_id, cases[i])
}

/// A type under its global identifier, with its cases linked.
pub open spec fn link_type(
    type_ids: TypeIds,
    imports: Seq<(Seq<char>, Seq<char>)>,
    module_id: Seq<char>,
    name: Seq<char>,
    ty: TypeView,
) -> Result<(Seq<char>, BinTypeView), TypeErrorView> {
    match try_collect(ty.cases.len(), case_linker(type_ids, imports, module_id, ty.cases)) {
        Err(e) => Err(e),
        Ok(cases) => Ok((type_id(module_id, name), BinTypeView { cases })),
    }
}

/// Step `i` of linking the types `types` of one module.
pub open spec fn type_linker(
    type_ids: TypeIds,
    imports: Seq<(Seq<char>, Seq<char>)>,
    module_id: Seq<char>,
    types: Seq<(Seq<char>, TypeView)>,
) -> spec_fn(int) -> Result<(Seq<char>, BinTypeView), TypeErrorView> {
    |i: int| link_type(type_ids, imports, module_id, types[i].0, types[i].1)
}

/// The linked types of one module, in declaration order.
pub open spec fn link_module_types(type_ids: TypeIds, module_id: Seq<char>, m: ModuleView) -> Result<
    Seq<(Seq<char>, BinTypeView)>,
    TypeErrorView,
> {
    try_collect(m.types.len(), type_linker(type_ids, m.imports, module_id, m.types))
}

/// Step `i` of linking the types of the modules.
pub open spec fn module_types_linker(
    type_ids: TypeIds,
    modules: Seq<(Seq<char>, ModuleView)>,
) -> spec_fn(int) -> Result<Seq<(Seq<char>, BinTypeView)>, TypeErrorView> {
    |i: int| link_module_types(type_ids, modules[i].0, modules[i].1)
}

/// The linked types of a program: those of each module in turn.
pub open spec fn link_types(type_ids: TypeIds, modules: Seq<(Seq<char>, ModuleView)>) -> Result<
    Seq<(Seq<char>, BinTypeView)>,
    TypeErrorView,
> {
    try_concat(modules.len(), module_types_linker(type_ids, modules))
}

/// Joins two names.
fn join2(a: &String, b: &String) -> (r: String)
    ensures
        r@ == a@ + b@,
{
    let mut r = a.clone();
    r.append(b.as_str());
    r
}

/// The global identifier of a type.
pub fn make_type_id(module_id: &String, name: &String) -> (r: String)
    ensures
        r@ == type_id(module_id@, name@),
{
    join2(module_id, name)
}

/// The global identifier of an overload.
pub fn make_function_id(module_id: &String, name: &String, index: usize) -> (r: String)
    ensures
        r@ == function_id(module_id@, name@, index as nat),
{
    let mut r = join2(module_id, name);
    proof {
        reveal_strlit("$");
        assert("$"@ =~= seq!['$']);
    }
    r.append("$");
    r.append(to_decimal(index as u64).as_str());
    r
}

/// Builds the table of type identifiers.
pub fn link_type_names(modules: &Vec<(String, Module)>) -> (r: Vec<(String, Vec<(String, String)>)>)
    ensures
        r.deep_view() == all_type_ids(modules.deep_view()),
{
    let mut table: Vec<(String, Vec<(String, String)>)> = Vec::new();
    let mut i: usize = 0;
    while i < modules.len()
        invariant
            i <= modules.len(),
            table.len() == i,
            forall|j: int|
                0 <= j < i ==> (#[trigger] table.deep_view()[j]) == all_type_ids(
                    modules.deep_view(),
                )[j],
        decreases modules.len() - i,
    {
        let module_id = &modules[i].0;
        let types = &modules[i].1.types;
        let mut module_types: Vec<(String, String)> = Vec::new();
        let mut k: usize = 0;
        while k < types.len()
            invariant
                k <= types.len(),
                module_types.len() == k,
                forall|j: int|
                    0 <= j < k ==> (#[trigger] module_types.deep_view()[j]) == module_type_ids(
                        module_id@,
                        types.deep_view(),
                    )[j],
            decreases types.len() - k,
        {
            let ghost before = module_types.deep_view();
            module_types.push((types[k].0.clone(), make_type_id(module_id, &types[k].0)));
            assert(module_types.deep_view() =~= before.push(
                (types[k as int].0@, type_id(module_id@, types[k as int].0@)),
            ));
            k += 1;
        }
        assert(module_types.deep_view() =~= module_type_ids(module_id@, types.deep_view()));
        let ghost before = table.deep_view();
        table.push((module_id.clone(), module_types));
        assert(table.deep_view() =~= before.push((module_id@, module_types.deep_view())));
        assert(modules.deep_view()[i as int].1.types == types.deep_view());
        i += 1;
    }
    assert(table.deep_view() =~= all_type_ids(modules.deep_view()));
    table
}

/// Resolves a list of type references, in order.
pub fn link_fields(
    type_ids: &Vec<(String, Vec<(String, String)>)>,
    imports: &Vec<(String, String)>,
    module_id: &String,
    tys: &Vec<IdLoc>,
) -> (r: Result<Vec<String>, TypeError>)
    ensures
        result_view(r) == link_type_refs(
            type_ids.deep_view(),
            imports.deep_view(),
            module_id@,
            tys.deep_view(),
        ),
{
    let ghost step = resolver(
        type_ids.deep_view(),
        imports.deep_view(),
        module_id@,
        tys.deep_view(),
    );
    let mut ids: Vec<String> = Vec::new();
    let mut i: usize = 0;
    assert(ids.deep_view() =~= Seq::<Seq<char>>::empty());
    while i < tys.len()
        invariant
            i <= tys.len(),
            step == resolver(
                type_ids.deep_view(),
                imports.deep_view(),
                module_id@,
                tys.deep_view(),
            ),
            try_collect(i as nat, step) == Ok::<Seq<Seq<char>>, TypeErrorView>(ids.deep_view()),
        decreases tys.len() - i,
    {
        match get_unique_type_id(type_ids, imports, module_id, &tys[i]) {
            Err(e) => {
                proof {
                    lemma_try_collect_error(tys.len() as nat, step, (i + 1) as nat);
                }
                return Err(e);
            },
            Ok(id) => {
                let ghost before = ids.deep_view();
                ids.push(id);
                assert(ids.deep_view() =~= before.push(id@));
            },
        }
        i += 1;
    }
    Ok(ids)
}

/// Links the cases of one type.
fn link_cases(
    type_ids: &Vec<(String, Vec<(String, String)>)>,
    imports: &Vec<(String, String)>,
    module_id: &String,
    cases: &Vec<TypeCase>,
) -> (r: Result<Vec<BinTypeCase>, TypeError>)
    ensures
        result_view(r) == try_collect(
            cases.deep_view().len(),
            case_linker(
                type_ids.deep_view(),
                imports.deep_view(),
                module_id@,
                cases.deep_view(),
            ),
        ),
{
    let ghost step = case_linker(
        type_ids.deep_view(),
        imports.deep_view(),
        module_id@,
        cases.deep_view(),
    );
    let mut linked: Vec<BinTypeCase> = Vec::new();
    let mut i: usize = 0;
    assert(linked.deep_view() =~= Seq::<BinTypeCaseView>::empty());
    while i < cases.len()
        invariant
            i <= cases.len(),
            step == case_linker(
                type_ids.deep_view(),
                imports.deep_view(),
                module_id@,
                cases.deep_view(),
            ),
            try_collect(i as nat, step) == Ok::<Seq<BinTypeCaseView>, TypeErrorView>(
                linked.deep_view(),
            ),
        decreases cases.len() - i,
    {
        assert(cases.deep_view()[i as int] == cases[i as int].deep_view());
        match link_fields(type_ids, imports, module_id, &cases[i].fields) {
            Err(e) => {
                proof {
                    lemma_try_collect_error(cases.len() as nat, step, (i + 1) as nat);
                }
                return Err(e);
            },
            Ok(fields) => {
                let ghost before = linked.deep_view();
                let case = BinTypeCase { name: cases[i].name.clone(), fields };
                linked.push(case);
                assert(linked.deep_view() =~= before.push(case.deep_view()));
            },
        }
        i += 1;
    }
    Ok(linked)
}

/// Links the types of one module and appends them to `out`.
fn link_types_of_module(
    type_ids: &Vec<(String, Vec<(String, String)>)>,
    module_id: &String,
    module: &Module,
    out: &mut Vec<(String, BinType)>,
) -> (r: Result<(), TypeError>)
    ensures
        match r {
            Ok(_) => link_module_types(type_ids.deep_view(), module_id@, module.deep_view())
                matches Ok(linked) && final(out).deep_view() == old(out).deep_view() + linked,
            Err(e) => link_module_types(type_ids.deep_view(), module_id@, module.deep_view())
                == Err::<Seq<(Seq<char>, BinTypeView)>, TypeErrorView>(e.deep_view()),
        },
{
    let ghost step = type_linker(
        type_ids.deep_view(),
        module.imports.deep_view(),
        module_id@,
        module.types.deep_view(),
    );
    let ghost mut linked: Seq<(Seq<char>, BinTypeView)> = seq![];
    let mut i: usize = 0;
    assert(out.deep_view() =~= old(out).deep_view() + linked);
    while i < module.types.len()
        invariant
            i <= module.types.len(),
            step == type_linker(
                type_ids.deep_view(),
                module.imports.deep_view(),
                module_id@,
                module.types.deep_view(),
            ),
            try_collect(i as nat, step) == Ok::<Seq<(Seq<char>, BinTypeView)>, TypeErrorView>(
                linked,
            ),
            out.deep_view() == old(out).deep_view() + linked,
        decreases module.types.len() - i,
    {
        let name = &module.types[i].0;
        let ty = &module.types[i].1;
        assert(module.types.deep_view()[i as int] == (name@, ty.deep_view()));
        match link_cases(type_ids, &module.imports, module_id, &ty.cases) {
            Err(e) => {
                proof {
                    lemma_try_collect_error(module.types.len() as nat, step, (i + 1) as nat);
                }
                return Err(e);
            },
            Ok(cases) => {
                let ghost before = out.deep_view();
                let entry = (make_type_id(module_id, name), BinType { cases });
                out.push(entry);
                proof {
                    let added = (entry.0@, entry.1.deep_view());
                    assert(out.deep_view() =~= before.push(added));
                    assert(before.push(added) =~= old(out).deep_view() + linked.push(added));
                    linked = linked.push(added);
                }
            },
        }
        i += 1;
    }
    Ok(())
}

/// Links the types of all modules.
pub fn link_all_types(
    type_ids: &Vec<(String, Vec<(String, String)>)>,
    modules: &Vec<(String, Module)>,
) -> (r: Result<Vec<(String, BinType)>, TypeError>)
    ensures
        result_view(r) == link_types(type_ids.deep_view(), modules.deep_view()),
{
    let ghost step = module_types_linker(type_ids.deep_view(), modules.deep_view());
    let mut all: Vec<(String, BinType)> = Vec::new();
    let mut i: usize = 0;
    assert(all.deep_view() =~= Seq::<(Seq<char>, BinTypeView)>::empty());
    while i < modules.len()
        invariant
            i <= modules.len(),
            step == module_types_linker(type_ids.deep_view(), modules.deep_view()),
            try_concat(i as nat, step) == Ok::<Seq<(Seq<char>, BinTypeView)>, TypeErrorView>(
                all.deep_view(),
            ),
        decreases modules.len() - i,
    {
        assert(modules.deep_view()[i as int] == (
            modules[i as int].0@,
            modules[i as int].1.deep_view(),
        ));
        match link_types_of_module(type_ids, &modules[i].0, &modules[i].1, &mut all) {
            Err(e) => {
                proof {
                    lemma_try_concat_error(modules.len() as nat, step, (i + 1) as nat);
                }
                return Err(e);
            },
            Ok(_) => {},
        }
        i += 1;
    }
    Ok(all)
}

/// One overload in the table of functions: its parameter types and its
/// return type resolved, under the identifier of its position.
pub open spec fn link_overload(
    type_ids: TypeIds,
    imports: Seq<(Seq<char>, Seq<char>)>,
    module_id: Seq<char>,
    name: Seq<char>,
    index: int,
    signature: Seq<IdLocView>,
    f: FunctionView,
) -> Result<FnSigView, TypeErrorView> {
    match link_type_refs(type_ids, imports, module_id, signature) {
        Err(e) => Err(e),
        Ok(params) => match resolve_type(type_ids, imports, module_id, f.ret_type) {
            Err(e) => Err(e),
            Ok(ret_type) => Ok(
                FnSigView { params, id: function_id(module_id, name, index as nat), ret_type },
            ),
        },
    }
}

/// Step `i` of linking the overloads of the function `name`.
pub open spec fn overload_linker(
    type_ids: TypeIds,
    imports: Seq<(Seq<char>, Seq<char>)>,
    module_id: Seq<char>,
    name: Seq<char>,
    overloads: Seq<(Seq<IdLocView>, FunctionView)>,
) -> spec_fn(int) -> Result<FnSigView, TypeErrorView> {
    |i: int| link_overload(type_ids, imports, module_id, name, i, overloads[i].0, overloads[i].1)
}

/// The overloads of the function `name`, linked, under the name.
pub open spec fn link_named(
    type_ids: TypeIds,
    imports: Seq<(Seq<char>, Seq<char>)>,
    module_id: Seq<char>,
    name: Seq<char>,
    overloads: Seq<(Seq<IdLocView>, FunctionView)>,
) -> Result<(Seq<char>, Seq<FnSigView>), TypeErrorView> {
    match try_collect(
        overloads.len(),
        overload_linker(type_ids, imports, module_id, name, overloads),
    ) {
        Err(e) => Err(e),
        Ok(sigs) => Ok((name, sigs)),
    }
}

/// Step `i` of linking the functions of one module.
pub open spec fn named_linker(
    type_ids: TypeIds,
    imports: Seq<(Seq<char>, Seq<char>)>,
    module_id: Seq<char>,
    functions: Seq<(Seq<char>, Seq<(Seq<IdLocView>, FunctionView)>)>,
) -> spec_fn(int) -> Result<(Seq<char>, Seq<FnSigView>), TypeErrorView> {
    |i: int| link_named(type_ids, imports, module_id, functions[i].0, functions[i].1)
}

/// The table of the functions of one module, under the module's identity.
pub open spec fn link_module_functions(
    type_ids: TypeIds,
    module_id: Seq<char>,
    m: ModuleView,
) -> Result<(Seq<char>, Seq<(Seq<char>, Seq<FnSigView>)>), TypeErrorView> {
    match try_collect(
        m.functions.len(),
        named_linker(type_ids, m.imports, module_id, m.functions),
    ) {
        Err(e) => Err(e),
        Ok(functions) => Ok((module_id, functions)),
    }
}

/// Step `i` of linking the functions of the modules.
pub open spec fn module_functions_linker(
    type_ids: TypeIds,
    modules: Seq<(Seq<char>, ModuleView)>,
) -> spec_fn(int) -> Result<(Seq<char>, Seq<(Seq<char>, Seq<FnSigView>)>), TypeErrorView> {
    |i: int| link_module_functions(type_ids, modules[i].0, modules[i].1)
}

/// The table of functions of a program.
pub open spec fn link_functions(type_ids: TypeIds, modules: Seq<(Seq<char>, ModuleView)>) -> Result<
    Seq<(Seq<char>, Seq<(Seq<char>, Seq<FnSigView>)>)>,
    TypeErrorView,
> {
    try_collect(modules.len(), module_functions_linker(type_ids, modules))
}

/// Links the overloads of one function.
fn link_overloads(
    type_ids: &Vec<(String, Vec<(String, String)>)>,
    imports: &Vec<(String, String)>,
    module_id: &String,
    name: &String,
    overloads: &Vec<(Vec<IdLoc>, Function)>,
) -> (r: Result<Vec<FnSig>, TypeError>)
    ensures
        result_view(r) == try_collect(
            overloads.deep_view().len(),
            overload_linker(
                type_ids.deep_view(),
                imports.deep_view(),
                module_id@,
                name@,
                overloads.deep_view(),
            ),
        ),
{
    let ghost step = overload_linker(
        type_ids.deep_view(),
        imports.deep_view(),
        module_id@,
        name@,
        overloads.deep_view(),
    );
    let mut sigs: Vec<FnSig> = Vec::new();
    let mut i: usize = 0;
    assert(sigs.deep_view() =~= Seq::<FnSigView>::empty());
    while i < overloads.len()
        invariant
            i <= overloads.len(),
            step == overload_linker(
                type_ids.deep_view(),
                imports.deep_view(),
                module_id@,
                name@,
                overloads.deep_view(),
            ),
            try_collect(i as nat, step) == Ok::<Seq<FnSigView>, TypeErrorView>(sigs.deep_view()),
        decreases overloads.len() - i,
    {
        assert(overloads.deep_view()[i as int] == (
            overloads[i as int].0.deep_view(),
            overloads[i as int].1.deep_view(),
        ));
        let params = match link_fields(type_ids, imports, module_id, &overloads[i].0) {
            Err(e) => {
                proof {
                    lemma_try_collect_error(overloads.len() as nat, step, (i + 1) as nat);
                }
                return Err(e);
            },
            Ok(params) => params,
        };
        let ret_type = match get_unique_type_id(
            type_ids,
            imports,
            module_id,
            &overloads[i].1.ret_type,
        ) {
            Err(e) => {
                proof {
                    lemma_try_collect_error(overloads.len() as nat, step, (i + 1) as nat);
                }
                return Err(e);
            },
            Ok(ret_type) => ret_type,
        };
        let ghost before = sigs.deep_view();
        let sig = FnSig { params, id: make_function_id(module_id, name, i), ret_type };
        sigs.push(sig);
        assert(sigs.deep_view() =~= before.push(sig.deep_view()));
        i += 1;
    }
    Ok(sigs)
}

/// Links the functions of one module.
fn link_functions_of_module(
    type_ids: &Vec<(String, Vec<(String, String)>)>,
    module_id: &String,
    module: &Module,
) -> (r: Result<(String, Vec<(String, Vec<FnSig>)>), TypeError>)
    ensures
        result_view(r) == link_module_functions(
            type_ids.deep_view(),
            module_id@,
            module.deep_view(),
        ),
{
    let ghost step = named_linker(
        type_ids.deep_view(),
        module.imports.deep_view(),
        module_id@,
        module.functions.deep_view(),
    );
    let mut functions: Vec<(String, Vec<FnSig>)> = Vec::new();
    let mut i: usize = 0;
    assert(functions.deep_view() =~= Seq::<(Seq<char>, Seq<FnSigView>)>::empty());
    while i < module.functions.len()
        invariant
            i <= module.functions.len(),
            step == named_linker(
                type_ids.deep_view(),
                module.imports.deep_view(),
                module_id@,
                module.functions.deep_view(),
            ),
            try_collect(i as nat, step) == Ok::<
                Seq<(Seq<char>, Seq<FnSigView>)>,
                TypeErrorView,
            >(functions.deep_view()),
        decreases module.functions.len() - i,
    {
        let name = &module.functions[i].0;
        let overloads = &module.functions[i].1;
        assert(module.functions.deep_view()[i as int] == (name@, overloads.deep_view()));
        match link_overloads(type_ids, &module.imports, module_id, name, overloads) {
            Err(e) => {
                proof {
                    lemma_try_collect_error(module.functions.len() as nat, step, (i + 1) as nat);
                }
                return Err(e);
            },
            Ok(sigs) => {
                let ghost before = functions.deep_view();
                functions.push((name.clone(), sigs));
                assert(functions.deep_view() =~= before.push((name@, sigs.deep_view())));
            },
        }
        i += 1;
    }
    Ok((module_id.clone(), functions))
}

/// Builds the table of functions.
pub fn link_all_functions(
    type_ids: &Vec<(String, Vec<(String, String)>)>,
    modules: &Vec<(String, Module)>,
) -> (r: Result<Vec<(String, Vec<(String, Vec<FnSig>)>)>, TypeError>)
    ensures
        result_view(r) == link_functions(type_ids.deep_view(), modules.deep_view()),
{
    let ghost step = module_functions_linker(type_ids.deep_view(), modules.deep_view());
    let mut table: Vec<(String, Vec<(String, Vec<FnSig>)>)> = Vec::new();
    let mut i: usize = 0;
    assert(table.deep_view() =~= Seq::<(Seq<char>, Seq<(Seq<char>, Seq<FnSigView>)>)>::empty());
    while i < modules.len()
        invariant
            i <= modules.len(),
            step == module_functions_linker(type_ids.deep_view(), modules.deep_view()),
            try_collect(i as nat, step) == Ok::<
                Seq<(Seq<char>, Seq<(Seq<char>, Seq<FnSigView>)>)>,
                TypeErrorView,
            >(table.deep_view()),
        decreases modules.len() - i,
    {
        assert(modules.deep_view()[i as int] == (
            modules[i as int].0@,
            modules[i as int].1.deep_view(),
        ));
        match link_functions_of_module(type_ids, &modules[i].0, &modules[i].1) {
            Err(e) => {
                proof {
                    lemma_try_collect_error(modules.len() as nat, step, (i + 1) as nat);
                }
                return Err(e);
            },
            Ok(entry) => {
                let ghost before = table.deep_view();
                table.push(entry);
                assert(table.deep_view() =~= before.push(entry.deep_view()));
            },
        }
        i += 1;
    }
    Ok(table)
}

/// Within a module, two types have two identifiers.
pub proof fn lemma_type_ids_unique(module_id: Seq<char>, first: Seq<char>, second: Seq<char>)
    requires
        type_id(module_id, first) == type_id(module_id, second),
    ensures
        first == second,
{
    let a = module_id + first;
    let b = module_id + second;
    assert(first =~= a.subrange(module_id.len() as int, a.len() as int));
    assert(second =~= b.subrange(module_id.len() as int, b.len() as int));
}

/// Within a module, two overloads have two identifiers: the identifier
/// tells the name of the function and the number of the overload.
pub proof fn lemma_function_ids_unique(
    module_id: Seq<char>,
    first: Seq<char>,
    i: nat,
    second: Seq<char>,
    j: nat,
)
    requires
        function_id(module_id, first, i) == function_id(module_id, second, j),
    ensures
        first == second,
        i == j,
{
    lemma_decimal_digits(i);
    lemma_decimal_digits(j);
    lemma_split_at_last_sigil(module_id + first, decimal(i), module_id + second, decimal(j));
    lemma_decimal_injective(i, j);
    lemma_type_ids_unique(module_id, first, second);
}

/// The identifier of an overload is never `main`, the name of the entry
/// wrapper.
pub proof fn lemma_function_id_is_not_main(module_id: Seq<char>, name: Seq<char>, index: nat)
    ensures
        function_id(module_id, name, index) != "main"@,
{
    reveal_strlit("main");
    lemma_decimal_digits(index);
    let id = function_id(module_id, name, index);
    let sigil_at = (module_id + name).len() as int;
    assert(id[sigil_at] == '$');
    if id == "main"@ {
        let main = "main"@;
        assert(main.len() == 4);
        assert(main[0] == 'm' && main[1] == 'a' && main[2] == 'i' && main[3] == 'n');
        assert(0 <= sigil_at < 4);
        assert(main[sigil_at] == '$');
    }
}

} // verus!
