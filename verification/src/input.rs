//! From files to modules: the identity of a module is derived from its
//! path, and every import is rewritten to the identity it refers to.
use crate::lookup::{find_index, lookup};
use crate::module::{Module, ModuleView};
use crate::text::{hex, lemma_hex_digits, lemma_hex_injective, lemma_split_at_first_sigil, to_hex};
use std::collections::hash_map::DefaultHasher;
use std::hash::Hasher;
use vstd::prelude::*;
use vstd::std_specs::hash::DefaultHasherAdditionalSpecFns;
use vstd::string::{StringExecFns, StringSliceAdditionalSpecFns};
use vstd::utf8::encode_utf8;

verus! {

/// The hash of a path: that of the standard hasher, fed the path's bytes
/// in one piece.
pub open spec fn path_hash(path: Seq<char>) -> u64 {
    DefaultHasher::spec_finish(seq![encode_utf8(path)])
}

/// The identity that belongs to a hash: the hash in hexadecimal between
/// two `$`.
pub open spec fn prefix_of_hash(hash: u64) -> Seq<char> {
    seq!['$'] + hex(hash as nat) + seq!['$']
}

/// The identity of the module at `path`: the hash of the path in
/// hexadecimal between two `$`. The same path gives the same identity
/// whenever it is asked for.
pub open spec fn module_prefix(path: Seq<char>) -> Seq<char> {
    prefix_of_hash(path_hash(path))
}

/// An identifier tells the module it belongs to: where the identities of
/// two hashes, each followed by a name, give the same text, the hashes
/// are equal and the names are equal. So the types of two modules have
/// two identifiers, and so have their functions, unless the paths of the
/// modules have the same hash.
pub proof fn lemma_prefix_parts(first: u64, name1: Seq<char>, second: u64, name2: Seq<char>)
    requires
        prefix_of_hash(first) + name1 == prefix_of_hash(second) + name2,
    ensures
        first == second,
        name1 == name2,
{
    let h1 = hex(first as nat);
    let h2 = hex(second as nat);
    lemma_hex_digits(first as nat);
    lemma_hex_digits(second as nat);
    let a = prefix_of_hash(first) + name1;
    let b = prefix_of_hash(second) + name2;
    // Without the `$` in front, each text is digits, a `$`, and the name.
    assert(a.subrange(1, a.len() as int) =~= h1 + seq!['$'] + name1);
    assert(b.subrange(1, b.len() as int) =~= h2 + seq!['$'] + name2);
    lemma_split_at_first_sigil(h1, name1, h2, name2);
    lemma_hex_injective(first as nat, second as nat);
}

/// Every entry of the table pairs a path with its identity.
pub open spec fn prefixes_wf(table: Seq<(Seq<char>, Seq<char>)>) -> bool {
    forall|i: int| 0 <= i < table.len() ==> (#[trigger] table[i]).1 == module_prefix(table[i].0)
}

/// The identity of the module at the path `module`. `module_prefixes`
/// remembers the identities given so far: a path that is in it has the
/// identity that it holds, and a path that is not is given its identity
/// and added. So a table that holds nothing but identities goes on to do
/// so.
pub fn get_module_prefix(module: &String, module_prefixes: &mut Vec<(String, String)>) -> (r:
    String)
    ensures
        match lookup(old(module_prefixes).deep_view(), module@) {
            Some(known) => r@ == known && final(module_prefixes)@ == old(module_prefixes)@,
            None => r@ == module_prefix(module@) && final(module_prefixes).deep_view() == old(
                module_prefixes,
            ).deep_view().push((module@, module_prefix(module@))),
        },
        prefixes_wf(old(module_prefixes).deep_view()) ==> r@ == module_prefix(module@)
            && prefixes_wf(final(module_prefixes).deep_view()),
{
    match find_index(module_prefixes, module) {
        None => {
            let mut hasher = DefaultHasher::new();
            hasher.write(module.as_str().as_bytes());
            assert(hasher@ =~= seq![encode_utf8(module@)]);
            let mut prefix = "$".to_owned();
            prefix.append(to_hex(hasher.finish()).as_str());
            prefix.append("$");
            proof {
                reveal_strlit("$");
                assert(prefix@ =~= module_prefix(module@));
            }
            let ghost before = module_prefixes.deep_view();
            module_prefixes.push((module.clone(), prefix.clone()));
            assert(module_prefixes.deep_view() =~= before.push((module@, module_prefix(module@))));
            prefix
        },
        Some(i) => {
            assert(module_prefixes.deep_view()[i as int] == (
                module_prefixes[i as int].0@,
                module_prefixes[i as int].1@,
            ));
            module_prefixes[i].1.clone()
        },
    }
}

/// The imports of a module with each path replaced by the identity of
/// the module at that path.
pub open spec fn resolved_imports(imports: Seq<(Seq<char>, Seq<char>)>) -> Seq<
    (Seq<char>, Seq<char>),
> {
    Seq::new(imports.len(), |i: int| (imports[i].0, module_prefix(imports[i].1)))
}

/// A module under its identity, with its imports resolved.
pub open spec fn resolved_module(path: Seq<char>, m: ModuleView) -> (Seq<char>, ModuleView) {
    (
        module_prefix(path),
        ModuleView {
            imports: resolved_imports(m.imports),
            types: m.types,
            functions: m.functions,
        },
    )
}

/// The modules under their identities, in the order given.
pub open spec fn resolved_modules(asts: Seq<(Seq<char>, ModuleView)>) -> Seq<
    (Seq<char>, ModuleView),
> {
    Seq::new(asts.len(), |i: int| resolved_module(asts[i].0, asts[i].1))
}

/// Gives every module its identity and rewrites its imports to the
/// identities of the modules they name. `asts` holds each module under the
/// path of its file; the imports of a module hold, for each alias, the
/// path of the imported file. Returns the modules under their identities,
/// and the identity of the module at `main_module_path`.
pub fn resolve_all_imports(asts: Vec<(String, Module)>, main_module_path: &String) -> (r: (
    Vec<(String, Module)>,
    String,
))
    ensures
        r.0.deep_view() == resolved_modules(asts.deep_view()),
        r.1@ == module_prefix(main_module_path@),
{
    let mut module_prefixes: Vec<(String, String)> = Vec::new();
    let mut modules: Vec<(String, Module)> = Vec::new();
    let ghost all = asts.deep_view();
    let mut asts = asts;
    let mut done: Vec<(String, Module)> = Vec::new();
    let total = asts.len();
    // The modules are taken from the end, so the result is built in
    // reverse and turned around afterwards.
    while asts.len() > 0
        invariant
            total == all.len(),
            asts.len() + done.len() == total,
            prefixes_wf(module_prefixes.deep_view()),
            asts.deep_view() == all.take(asts.len() as int),
            forall|j: int|
                0 <= j < done.len() ==> (#[trigger] done.deep_view()[j]) == resolved_module(
                    all[total - 1 - j].0,
                    all[total - 1 - j].1,
                ),
        decreases asts.len(),
    {
        let ghost before = asts.deep_view();
        let (path, module) = asts.pop().unwrap();
        proof {
            assert(asts.deep_view() =~= before.drop_last());
            assert(before.drop_last() =~= all.take(asts.len() as int));
            assert(before.last() == (path@, module.deep_view()));
        }
        let id = get_module_prefix(&path, &mut module_prefixes);
        let Module { imports, types, functions } = module;
        let mut resolved: Vec<(String, String)> = Vec::new();
        let mut k: usize = 0;
        while k < imports.len()
            invariant
                k <= imports.len(),
                resolved.len() == k,
                prefixes_wf(module_prefixes.deep_view()),
                forall|j: int|
                    0 <= j < k ==> (#[trigger] resolved.deep_view()[j]) == resolved_imports(
                        imports.deep_view(),
                    )[j],
            decreases imports.len() - k,
        {
            let target = get_module_prefix(&imports[k].1, &mut module_prefixes);
            let ghost so_far = resolved.deep_view();
            resolved.push((imports[k].0.clone(), target));
            assert(resolved.deep_view() =~= so_far.push(
                (imports[k as int].0@, module_prefix(imports[k as int].1@)),
            ));
            k += 1;
        }
        assert(resolved.deep_view() =~= resolved_imports(imports.deep_view()));
        let ghost so_far = done.deep_view();
        let entry = (id, Module { imports: resolved, types, functions });
        done.push(entry);
        assert(done.deep_view() =~= so_far.push(entry.deep_view()));
    }
    while done.len() > 0
        invariant
            total == all.len(),
            modules.len() + done.len() == total,
            prefixes_wf(module_prefixes.deep_view()),
            forall|j: int|
                0 <= j < done.len() ==> (#[trigger] done.deep_view()[j]) == resolved_module(
                    all[total - 1 - j].0,
                    all[total - 1 - j].1,
                ),
            forall|j: int|
                0 <= j < modules.len() ==> (#[trigger] modules.deep_view()[j])
                    == resolved_modules(all)[j],
        decreases done.len(),
    {
        let ghost before = done.deep_view();
        let ghost so_far = modules.deep_view();
        let entry = done.pop().unwrap();
        proof {
            assert(done.deep_view() =~= before.drop_last());
            assert(before.last() == entry.deep_view());
        }
        modules.push(entry);
        assert(modules.deep_view() =~= so_far.push(entry.deep_view()));
    }
    assert(modules.deep_view() =~= resolved_modules(all));
    let main_module_id = get_module_prefix(main_module_path, &mut module_prefixes);
    (modules, main_module_id)
}

/// The paths of the files that a module imports, in the order of its
/// imports.
pub open spec fn imported_paths(m: ModuleView) -> Seq<Seq<char>> {
    Seq::new(m.imports.len(), |i: int| m.imports[i].1)
}

/// Lists the paths of the files that a module imports.
pub fn import_paths(module: &Module) -> (r: Vec<String>)
    ensures
        r.deep_view() == imported_paths(module.deep_view()),
{
    let mut paths: Vec<String> = Vec::new();
    let mut i: usize = 0;
    while i < module.imports.len()
        invariant
            i <= module.imports.len(),
            paths.len() == i,
            forall|j: int| 0 <= j < i ==> (#[trigger] paths[j])@ == module.imports[j].1@,
        decreases module.imports.len() - i,
    {
        paths.push(module.imports[i].1.clone());
        i += 1;
    }
    assert(paths.deep_view() =~= imported_paths(module.deep_view()));
    paths
}

/// The memory reclamation strategy that the command line selects.
#[derive(Clone, Copy, Debug, PartialEq, Eq, Structural)]
pub enum Strategy {
    Spill,
    Arc,
    Tgc,
}

/// What the command line asks for.
#[derive(Debug, PartialEq, Eq)]
pub struct Cli {
    /// Path of code to be compiled
    pub file_path: String,
    /// Print code, syntax tree and generated code
    pub verbose: bool,
    /// Print the syntax tree
    pub print_ast: bool,
    /// Print the typed syntax tree
    pub print_typed_ast: bool,
    /// Print the generated code
    pub print_llvm: bool,
    /// The memory reclamation strategy
    pub gc: Option<Strategy>,
}

impl Cli {
    /// Whether the syntax tree is to be printed.
    pub fn shows_ast(&self) -> (r: bool)
        ensures
            r == (self.verbose || self.print_ast),
    {
        self.verbose || self.print_ast
    }

    /// Whether the typed syntax tree is to be printed.
    pub fn shows_typed_ast(&self) -> (r: bool)
        ensures
            r == (self.verbose || self.print_typed_ast),
    {
        self.verbose || self.print_typed_ast
    }

    /// Whether the generated code is to be printed.
    pub fn shows_llvm(&self) -> (r: bool)
        ensures
            r == (self.verbose || self.print_llvm),
    {
        self.verbose || self.print_llvm
    }

    /// The strategy to generate code for: the one selected, or reference
    /// counting where none is.
    pub fn strategy(&self) -> (r: Strategy)
        ensures
            r == match self.gc {
                Some(s) => s,
                None => Strategy::Arc,
            },
    {
        match self.gc {
            Some(s) => s,
            None => Strategy::Arc,
        }
    }
}

} // verus!
