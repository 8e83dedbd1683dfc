use arena_lang::input::{get_module_prefix, import_paths, resolve_all_imports, Cli, Strategy};
use arena_lang::lookup::{find_index, find_last, find_name, names_eq, queue_imports};
use arena_lang::module::{Const, Expr, Function, IdLoc, Module, Type};
use std::collections::hash_map::DefaultHasher;
use std::hash::Hasher;

fn s(text: &str) -> String {
    text.to_string()
}

fn expected_prefix(path: &str) -> String {
    let mut hasher = DefaultHasher::new();
    hasher.write(path.as_bytes());
    format!("${:x}$", hasher.finish())
}

fn module(imports: &[(&str, &str)], ty: &str) -> Module {
    Module {
        imports: imports.iter().map(|(alias, path)| (s(alias), s(path))).collect(),
        types: vec![(s(ty), Type { cases: vec![] })],
        functions: vec![(
            s("f"),
            vec![(
                vec![],
                Function {
                    args: vec![],
                    ret_type: IdLoc::Here(s("void")),
                    body: Expr::Const(Const::Void),
                },
            )],
        )],
    }
}

#[test]
fn the_identity_of_a_module_is_the_hash_of_its_path_between_sigils() {
    let mut known = vec![];
    let prefix = get_module_prefix(&s("/src/main.arena"), &mut known);
    assert_eq!(prefix, expected_prefix("/src/main.arena"));
    assert!(prefix.starts_with('$'));
    assert!(prefix.ends_with('$'));
    assert!(prefix.len() > 2);
    assert!(prefix[1..prefix.len() - 1].chars().all(|c| c.is_ascii_hexdigit()));
    assert_eq!(known, vec![(s("/src/main.arena"), prefix)]);
}

#[test]
fn the_same_path_gives_the_same_identity() {
    let mut known = vec![];
    let first = get_module_prefix(&s("/a.arena"), &mut known);
    let again = get_module_prefix(&s("/a.arena"), &mut known);
    assert_eq!(first, again);
    assert_eq!(known.len(), 1);
    let mut fresh = vec![];
    assert_eq!(get_module_prefix(&s("/a.arena"), &mut fresh), first);
}

#[test]
fn two_paths_give_two_identities() {
    let mut known = vec![];
    let a = get_module_prefix(&s("/a.arena"), &mut known);
    let b = get_module_prefix(&s("/b.arena"), &mut known);
    assert_ne!(a, b);
    assert_eq!(known.len(), 2);
}

#[test]
fn imports_are_rewritten_to_the_identities_of_their_modules() {
    let asts = vec![
        (s("/main.arena"), module(&[("lib", "/lib.arena"), ("util", "/util.arena")], "Main")),
        (s("/lib.arena"), module(&[("util", "/util.arena")], "Lib")),
        (s("/util.arena"), module(&[], "Util")),
    ];
    let (modules, main_id) = resolve_all_imports(asts, &s("/main.arena"));
    assert_eq!(main_id, expected_prefix("/main.arena"));
    let ids: Vec<&str> = modules.iter().map(|(id, _)| id.as_str()).collect();
    assert_eq!(
        ids,
        vec![
            expected_prefix("/main.arena"),
            expected_prefix("/lib.arena"),
            expected_prefix("/util.arena")
        ]
    );
    assert_eq!(
        modules[0].1.imports,
        vec![
            (s("lib"), expected_prefix("/lib.arena")),
            (s("util"), expected_prefix("/util.arena"))
        ]
    );
    assert_eq!(modules[1].1.imports, vec![(s("util"), expected_prefix("/util.arena"))]);
    assert!(modules[2].1.imports.is_empty());
    // Types and functions are passed through as they are.
    assert_eq!(modules[0].1.types, module(&[], "Main").types);
    assert_eq!(modules[1].1.types, module(&[], "Lib").types);
    assert_eq!(modules[2].1.functions, module(&[], "Util").functions);
}

#[test]
fn resolving_no_modules_gives_none() {
    let (modules, main_id) = resolve_all_imports(vec![], &s("/main.arena"));
    assert!(modules.is_empty());
    assert_eq!(main_id, expected_prefix("/main.arena"));
}

#[test]
fn an_import_is_queued_unless_it_is_read_or_waits_already() {
    let files = vec![s("/main.arena"), s("/read.arena")];
    let mut queue = vec![s("/waiting.arena")];
    let imports =
        vec![s("/new.arena"), s("/read.arena"), s("/waiting.arena"), s("/new.arena"), s("/other.arena")];
    queue_imports(&files, &mut queue, &imports);
    assert_eq!(queue, vec![s("/waiting.arena"), s("/new.arena"), s("/other.arena")]);
    queue_imports(&files, &mut queue, &vec![]);
    assert_eq!(queue.len(), 3);
}

#[test]
fn tables_are_looked_up_from_the_front_and_scopes_from_the_back() {
    let table = vec![(s("a"), s("1")), (s("b"), s("2")), (s("a"), s("3"))];
    assert_eq!(find_index(&table, &s("a")), Some(0));
    assert_eq!(find_index(&table, &s("b")), Some(1));
    assert_eq!(find_index(&table, &s("c")), None);
    assert_eq!(find_last(&table, &s("a")), Some(&s("3")));
    assert_eq!(find_last(&table, &s("b")), Some(&s("2")));
    assert_eq!(find_last(&table, &s("c")), None);
    let names = vec![s("x"), s("y"), s("x")];
    assert_eq!(find_name(&names, "x"), Some(0));
    assert_eq!(find_name(&names, "y"), Some(1));
    assert_eq!(find_name(&names, "z"), None);
    assert!(names_eq(&names, &vec![s("x"), s("y"), s("x")]));
    assert!(!names_eq(&names, &vec![s("x"), s("y")]));
    assert!(!names_eq(&names, &vec![s("x"), s("y"), s("z")]));
    assert!(names_eq(&vec![], &vec![]));
}

#[test]
fn the_command_line_decides_what_is_shown() {
    let quiet = Cli {
        file_path: s("main.arena"),
        verbose: false,
        print_ast: false,
        print_typed_ast: false,
        print_llvm: false,
        gc: None,
    };
    assert!(!quiet.shows_ast());
    assert!(!quiet.shows_typed_ast());
    assert!(!quiet.shows_llvm());
    let verbose = Cli { verbose: true, ..quiet };
    assert!(verbose.shows_ast());
    assert!(verbose.shows_typed_ast());
    assert!(verbose.shows_llvm());
    let ast_only = Cli { verbose: false, print_ast: true, ..verbose };
    assert!(ast_only.shows_ast());
    assert!(!ast_only.shows_typed_ast());
    assert!(!ast_only.shows_llvm());
    let llvm_only = Cli { print_ast: false, print_llvm: true, ..ast_only };
    assert!(llvm_only.shows_llvm());
    assert!(!llvm_only.shows_ast());
    let typed_only = Cli { print_llvm: false, print_typed_ast: true, ..llvm_only };
    assert!(typed_only.shows_typed_ast());
}

#[test]
fn reference_counting_is_the_strategy_unless_another_is_selected() {
    let cli = |gc| Cli {
        file_path: s("main.arena"),
        verbose: false,
        print_ast: false,
        print_typed_ast: false,
        print_llvm: false,
        gc,
    };
    assert_eq!(cli(None).strategy(), Strategy::Arc);
    assert_eq!(cli(Some(Strategy::Arc)).strategy(), Strategy::Arc);
    assert_eq!(cli(Some(Strategy::Spill)).strategy(), Strategy::Spill);
    assert_eq!(cli(Some(Strategy::Tgc)).strategy(), Strategy::Tgc);
}

#[test]
fn the_imports_of_a_module_are_listed_in_order() {
    let m = module(&[("lib", "/lib.arena"), ("util", "/util.arena")], "Main");
    assert_eq!(import_paths(&m), vec![s("/lib.arena"), s("/util.arena")]);
    assert!(import_paths(&module(&[], "Alone")).is_empty());
}
