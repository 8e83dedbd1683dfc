//! The built-in functions: which surface names and argument types select
//! them, and which of them are symbols of the runtime library.
use crate::codegen::function::{append_func_call, call_instr, call_target, find_call_target};
use crate::codegen::ir::{
    BinaryOp, Builder, BuilderView, CodegenError, CodegenErrorView, copy_values, Instr, InstrView,
    IntPredicate, UnaryOp, Value,
};
use crate::codegen::{CodegenContext, CodegenContextView};
use crate::text::str_eq;
use crate::types::{
    BOOL_TYPE, EXIT_TYPE, I32_TYPE, I64_TYPE, STR_TYPE, U8_TYPE, VOID_PTR_TYPE, VOID_TYPE,
};
use vstd::prelude::*;

verus! {

/// Every function that the compiler knows without a definition in the
/// program. A variant is spelled as the symbol it names.
#[allow(non_camel_case_types)]
#[derive(Clone, Copy, Debug, PartialEq, Eq, Structural)]
pub enum BuildIn {
    print_str,
    print_u8,
    print_i32,
    printf,
    char_at,
    exit,
    malloc,
    eq_i32,
    eq_u8,
    eq_bool,
    neq_bool,
    neq_i32,
    neq_u8,
    lt_i32,
    lt_u8,
    le_i32,
    le_u8,
    gt_i32,
    gt_u8,
    ge_i32,
    ge_u8,
    add_i32,
    add_u8,
    sub_i32,
    sub_u8,
    mul_i32,
    mul_u8,
    div_i32,
    div_u8,
    mod_i32,
    mod_u8,
    neg_i32,
    neg_u8,
    not_bool,
    init_stack,
    close_stack,
    stack_alloc,
    init_heap,
    close_heap,
    type_alloc,
    arc_ptr_access,
    arc_drop_ptr,
    tgc_init_heap,
    tgc_close_heap,
    tgc_type_alloc,
}

impl BuildIn {
    /// The symbol that the variant names.
    pub open spec fn name(self) -> Seq<char> {
        match self {
            BuildIn::print_str => "print_str"@,
            BuildIn::print_u8 => "print_u8"@,
            BuildIn::print_i32 => "print_i32"@,
            BuildIn::printf => "printf"@,
            BuildIn::char_at => "char_at"@,
            BuildIn::exit => "exit"@,
            BuildIn::malloc => "malloc"@,
            BuildIn::eq_i32 => "eq_i32"@,
            BuildIn::eq_u8 => "eq_u8"@,
            BuildIn::eq_bool => "eq_bool"@,
            BuildIn::neq_bool => "neq_bool"@,
            BuildIn::neq_i32 => "neq_i32"@,
            BuildIn::neq_u8 => "neq_u8"@,
            BuildIn::lt_i32 => "lt_i32"@,
            BuildIn::lt_u8 => "lt_u8"@,
            BuildIn::le_i32 => "le_i32"@,
            BuildIn::le_u8 => "le_u8"@,
            BuildIn::gt_i32 => "gt_i32"@,
            BuildIn::gt_u8 => "gt_u8"@,
            BuildIn::ge_i32 => "ge_i32"@,
            BuildIn::ge_u8 => "ge_u8"@,
            BuildIn::add_i32 => "add_i32"@,
            BuildIn::add_u8 => "add_u8"@,
            BuildIn::sub_i32 => "sub_i32"@,
            BuildIn::sub_u8 => "sub_u8"@,
            BuildIn::mul_i32 => "mul_i32"@,
            BuildIn::mul_u8 => "mul_u8"@,
            BuildIn::div_i32 => "div_i32"@,
            BuildIn::div_u8 => "div_u8"@,
            BuildIn::mod_i32 => "mod_i32"@,
            BuildIn::mod_u8 => "mod_u8"@,
            BuildIn::neg_i32 => "neg_i32"@,
            BuildIn::neg_u8 => "neg_u8"@,
            BuildIn::not_bool => "not_bool"@,
            BuildIn::init_stack => "init_stack"@,
            BuildIn::close_stack => "close_stack"@,
            BuildIn::stack_alloc => "stack_alloc"@,
            BuildIn::init_heap => "init_heap"@,
            BuildIn::close_heap => "close_heap"@,
            BuildIn::type_alloc => "type_alloc"@,
            BuildIn::arc_ptr_access => "arc_ptr_access"@,
            BuildIn::arc_drop_ptr => "arc_drop_ptr"@,
            BuildIn::tgc_init_heap => "tgc_init_heap"@,
            BuildIn::tgc_close_heap => "tgc_close_heap"@,
            BuildIn::tgc_type_alloc => "tgc_type_alloc"@,
        }
    }

    /// The symbol that the variant names.
    pub fn as_str(&self) -> (r: &'static str)
        ensures
            r@ == self.name(),
    {
        match self {
            BuildIn::print_str => "print_str",
            BuildIn::print_u8 => "print_u8",
            BuildIn::print_i32 => "print_i32",
            BuildIn::printf => "printf",
            BuildIn::char_at => "char_at",
            BuildIn::exit => "exit",
            BuildIn::malloc => "malloc",
            BuildIn::eq_i32 => "eq_i32",
            BuildIn::eq_u8 => "eq_u8",
            BuildIn::eq_bool => "eq_bool",
            BuildIn::neq_bool => "neq_bool",
            BuildIn::neq_i32 => "neq_i32",
            BuildIn::neq_u8 => "neq_u8",
            BuildIn::lt_i32 => "lt_i32",
            BuildIn::lt_u8 => "lt_u8",
            BuildIn::le_i32 => "le_i32",
            BuildIn::le_u8 => "le_u8",
            BuildIn::gt_i32 => "gt_i32",
            BuildIn::gt_u8 => "gt_u8",
            BuildIn::ge_i32 => "ge_i32",
            BuildIn::ge_u8 => "ge_u8",
            BuildIn::add_i32 => "add_i32",
            BuildIn::add_u8 => "add_u8",
            BuildIn::sub_i32 => "sub_i32",
            BuildIn::sub_u8 => "sub_u8",
            BuildIn::mul_i32 => "mul_i32",
            BuildIn::mul_u8 => "mul_u8",
            BuildIn::div_i32 => "div_i32",
            BuildIn::div_u8 => "div_u8",
            BuildIn::mod_i32 => "mod_i32",
            BuildIn::mod_u8 => "mod_u8",
            BuildIn::neg_i32 => "neg_i32",
            BuildIn::neg_u8 => "neg_u8",
            BuildIn::not_bool => "not_bool",
            BuildIn::init_stack => "init_stack",
            BuildIn::close_stack => "close_stack",
            BuildIn::stack_alloc => "stack_alloc",
            BuildIn::init_heap => "init_heap",
            BuildIn::close_heap => "close_heap",
            BuildIn::type_alloc => "type_alloc",
            BuildIn::arc_ptr_access => "arc_ptr_access",
            BuildIn::arc_drop_ptr => "arc_drop_ptr",
            BuildIn::tgc_init_heap => "tgc_init_heap",
            BuildIn::tgc_close_heap => "tgc_close_heap",
            BuildIn::tgc_type_alloc => "tgc_type_alloc",
        }
    }

    /// The variant that `s` names, if it names one.
    pub open spec fn named(s: Seq<char>) -> Option<BuildIn> {
        if exists|b: BuildIn| b.name() == s {
            Some(choose|b: BuildIn| b.name() == s)
        } else {
            None
        }
    }

    /// The variant that `s` names, if it names one.
    pub fn from_str(s: &str) -> (r: Option<BuildIn>)
        ensures
            r == BuildIn::named(s@),
            match r {
                Some(b) => b.name() == s@,
                None => forall|b: BuildIn| b.name() != s@,
            },
    {
        let r = Self::find(s);
        proof {
            match r {
                Some(b) => {
                    lemma_names_distinct(b, BuildIn::named(s@)->0);
                },
                None => {},
            }
        }
        r
    }

    fn find(s: &str) -> (r: Option<BuildIn>)
        ensures
            match r {
                Some(b) => b.name() == s@,
                None => forall|b: BuildIn| b.name() != s@,
            },
    {
        if str_eq(s, "print_str") {
            Some(BuildIn::print_str)
        } else if str_eq(s, "print_u8") {
            Some(BuildIn::print_u8)
        } else if str_eq(s, "print_i32") {
            Some(BuildIn::print_i32)
        } else if str_eq(s, "printf") {
            Some(BuildIn::printf)
        } else if str_eq(s, "char_at") {
            Some(BuildIn::char_at)
        } else if str_eq(s, "exit") {
            Some(BuildIn::exit)
        } else if str_eq(s, "malloc") {
            Some(BuildIn::malloc)
        } else if str_eq(s, "eq_i32") {
            Some(BuildIn::eq_i32)
        } else if str_eq(s, "eq_u8") {
            Some(BuildIn::eq_u8)
        } else if str_eq(s, "eq_bool") {
            Some(BuildIn::eq_bool)
        } else if str_eq(s, "neq_bool") {
            Some(BuildIn::neq_bool)
        } else if str_eq(s, "neq_i32") {
            Some(BuildIn::neq_i32)
        } else if str_eq(s, "neq_u8") {
            Some(BuildIn::neq_u8)
        } else if str_eq(s, "lt_i32") {
            Some(BuildIn::lt_i32)
        } else if str_eq(s, "lt_u8") {
            Some(BuildIn::lt_u8)
        } else if str_eq(s, "le_i32") {
            Some(BuildIn::le_i32)
        } else if str_eq(s, "le_u8") {
            Some(BuildIn::le_u8)
        } else if str_eq(s, "gt_i32") {
            Some(BuildIn::gt_i32)
        } else if str_eq(s, "gt_u8") {
            Some(BuildIn::gt_u8)
        } else if str_eq(s, "ge_i32") {
            Some(BuildIn::ge_i32)
        } else if str_eq(s, "ge_u8") {
            Some(BuildIn::ge_u8)
        } else if str_eq(s, "add_i32") {
            Some(BuildIn::add_i32)
        } else if str_eq(s, "add_u8") {
            Some(BuildIn::add_u8)
        } else if str_eq(s, "sub_i32") {
            Some(BuildIn::sub_i32)
        } else if str_eq(s, "sub_u8") {
            Some(BuildIn::sub_u8)
        } else if str_eq(s, "mul_i32") {
            Some(BuildIn::mul_i32)
        } else if str_eq(s, "mul_u8") {
            Some(BuildIn::mul_u8)
        } else if str_eq(s, "div_i32") {
            Some(BuildIn::div_i32)
        } else if str_eq(s, "div_u8") {
            Some(BuildIn::div_u8)
        } else if str_eq(s, "mod_i32") {
            Some(BuildIn::mod_i32)
        } else if str_eq(s, "mod_u8") {
            Some(BuildIn::mod_u8)
        } else if str_eq(s, "neg_i32") {
            Some(BuildIn::neg_i32)
        } else if str_eq(s, "neg_u8") {
            Some(BuildIn::neg_u8)
        } else if str_eq(s, "not_bool") {
            Some(BuildIn::not_bool)
        } else if str_eq(s, "init_stack") {
            Some(BuildIn::init_stack)
        } else if str_eq(s, "close_stack") {
            Some(BuildIn::close_stack)
        } else if str_eq(s, "stack_alloc") {
            Some(BuildIn::stack_alloc)
        } else if str_eq(s, "init_heap") {
            Some(BuildIn::init_heap)
        } else if str_eq(s, "close_heap") {
            Some(BuildIn::close_heap)
        } else if str_eq(s, "type_alloc") {
            Some(BuildIn::type_alloc)
        } else if str_eq(s, "arc_ptr_access") {
            Some(BuildIn::arc_ptr_access)
        } else if str_eq(s, "arc_drop_ptr") {
            Some(BuildIn::arc_drop_ptr)
        } else if str_eq(s, "tgc_init_heap") {
            Some(BuildIn::tgc_init_heap)
        } else if str_eq(s, "tgc_close_heap") {
            Some(BuildIn::tgc_close_heap)
        } else if str_eq(s, "tgc_type_alloc") {
            Some(BuildIn::tgc_type_alloc)
        } else {
            assert forall|b: BuildIn| b.name() != s@ by {
                match b {
                    BuildIn::print_str => {},
                    BuildIn::print_u8 => {},
                    BuildIn::print_i32 => {},
                    BuildIn::printf => {},
                    BuildIn::char_at => {},
                    BuildIn::exit => {},
                    BuildIn::malloc => {},
                    BuildIn::eq_i32 => {},
                    BuildIn::eq_u8 => {},
                    BuildIn::eq_bool => {},
                    BuildIn::neq_bool => {},
                    BuildIn::neq_i32 => {},
                    BuildIn::neq_u8 => {},
                    BuildIn::lt_i32 => {},
                    BuildIn::lt_u8 => {},
                    BuildIn::le_i32 => {},
                    BuildIn::le_u8 => {},
                    BuildIn::gt_i32 => {},
                    BuildIn::gt_u8 => {},
                    BuildIn::ge_i32 => {},
                    BuildIn::ge_u8 => {},
                    BuildIn::add_i32 => {},
                    BuildIn::add_u8 => {},
                    BuildIn::sub_i32 => {},
                    BuildIn::sub_u8 => {},
                    BuildIn::mul_i32 => {},
                    BuildIn::mul_u8 => {},
                    BuildIn::div_i32 => {},
                    BuildIn::div_u8 => {},
                    BuildIn::mod_i32 => {},
                    BuildIn::mod_u8 => {},
                    BuildIn::neg_i32 => {},
                    BuildIn::neg_u8 => {},
                    BuildIn::not_bool => {},
                    BuildIn::init_stack => {},
                    BuildIn::close_stack => {},
                    BuildIn::stack_alloc => {},
                    BuildIn::init_heap => {},
                    BuildIn::close_heap => {},
                    BuildIn::type_alloc => {},
                    BuildIn::arc_ptr_access => {},
                    BuildIn::arc_drop_ptr => {},
                    BuildIn::tgc_init_heap => {},
                    BuildIn::tgc_close_heap => {},
                    BuildIn::tgc_type_alloc => {},
                }
            }
            None
        }
    }

    /// Whether the variant is a symbol of the runtime library, called as it
    /// is, rather than an operation expanded in place.
    pub open spec fn linked(self) -> bool {
        match self {
            BuildIn::printf
            | BuildIn::exit
            | BuildIn::malloc
            | BuildIn::init_stack
            | BuildIn::close_stack
            | BuildIn::stack_alloc
            | BuildIn::init_heap
            | BuildIn::close_heap
            | BuildIn::type_alloc
            | BuildIn::arc_ptr_access
            | BuildIn::arc_drop_ptr
            | BuildIn::tgc_init_heap
            | BuildIn::tgc_close_heap
            | BuildIn::tgc_type_alloc => true,
            _ => false,
        }
    }

    /// Whether the variant is a symbol of the runtime library.
    pub fn is_linked(&self) -> (r: bool)
        ensures
            r == self.linked(),
    {
        match self {
            BuildIn::printf
            | BuildIn::exit
            | BuildIn::malloc
            | BuildIn::init_stack
            | BuildIn::close_stack
            | BuildIn::stack_alloc
            | BuildIn::init_heap
            | BuildIn::close_heap
            | BuildIn::type_alloc
            | BuildIn::arc_ptr_access
            | BuildIn::arc_drop_ptr
            | BuildIn::tgc_init_heap
            | BuildIn::tgc_close_heap
            | BuildIn::tgc_type_alloc => true,
            _ => false,
        }
    }
}

/// What tells the symbols apart: the length and four of the characters.
pub open spec fn fingerprint(s: Seq<char>) -> (nat, char, char, char, char) {
    (s.len(), s[0], s[1], s[2], s.last())
}

proof fn lemma_fingerprint(b: BuildIn)
    ensures
        fingerprint(b.name()) == match b {
            BuildIn::print_str => (9nat, 'p', 'r', 'i', 'r'),
            BuildIn::print_u8 => (8nat, 'p', 'r', 'i', '8'),
            BuildIn::print_i32 => (9nat, 'p', 'r', 'i', '2'),
            BuildIn::printf => (6nat, 'p', 'r', 'i', 'f'),
            BuildIn::char_at => (7nat, 'c', 'h', 'a', 't'),
            BuildIn::exit => (4nat, 'e', 'x', 'i', 't'),
            BuildIn::malloc => (6nat, 'm', 'a', 'l', 'c'),
            BuildIn::eq_i32 => (6nat, 'e', 'q', '_', '2'),
            BuildIn::eq_u8 => (5nat, 'e', 'q', '_', '8'),
            BuildIn::eq_bool => (7nat, 'e', 'q', '_', 'l'),
            BuildIn::neq_bool => (8nat, 'n', 'e', 'q', 'l'),
            BuildIn::neq_i32 => (7nat, 'n', 'e', 'q', '2'),
            BuildIn::neq_u8 => (6nat, 'n', 'e', 'q', '8'),
            BuildIn::lt_i32 => (6nat, 'l', 't', '_', '2'),
            BuildIn::lt_u8 => (5nat, 'l', 't', '_', '8'),
            BuildIn::le_i32 => (6nat, 'l', 'e', '_', '2'),
            BuildIn::le_u8 => (5nat, 'l', 'e', '_', '8'),
            BuildIn::gt_i32 => (6nat, 'g', 't', '_', '2'),
            BuildIn::gt_u8 => (5nat, 'g', 't', '_', '8'),
            BuildIn::ge_i32 => (6nat, 'g', 'e', '_', '2'),
            BuildIn::ge_u8 => (5nat, 'g', 'e', '_', '8'),
            BuildIn::add_i32 => (7nat, 'a', 'd', 'd', '2'),
            BuildIn::add_u8 => (6nat, 'a', 'd', 'd', '8'),
            BuildIn::sub_i32 => (7nat, 's', 'u', 'b', '2'),
            BuildIn::sub_u8 => (6nat, 's', 'u', 'b', '8'),
            BuildIn::mul_i32 => (7nat, 'm', 'u', 'l', '2'),
            BuildIn::mul_u8 => (6nat, 'm', 'u', 'l', '8'),
            BuildIn::div_i32 => (7nat, 'd', 'i', 'v', '2'),
            BuildIn::div_u8 => (6nat, 'd', 'i', 'v', '8'),
            BuildIn::mod_i32 => (7nat, 'm', 'o', 'd', '2'),
            BuildIn::mod_u8 => (6nat, 'm', 'o', 'd', '8'),
            BuildIn::neg_i32 => (7nat, 'n', 'e', 'g', '2'),
            BuildIn::neg_u8 => (6nat, 'n', 'e', 'g', '8'),
            BuildIn::not_bool => (8nat, 'n', 'o', 't', 'l'),
            BuildIn::init_stack => (10nat, 'i', 'n', 'i', 'k'),
            BuildIn::close_stack => (11nat, 'c', 'l', 'o', 'k'),
            BuildIn::stack_alloc => (11nat, 's', 't', 'a', 'c'),
            BuildIn::init_heap => (9nat, 'i', 'n', 'i', 'p'),
            BuildIn::close_heap => (10nat, 'c', 'l', 'o', 'p'),
            BuildIn::type_alloc => (10nat, 't', 'y', 'p', 'c'),
            BuildIn::arc_ptr_access => (14nat, 'a', 'r', 'c', 's'),
            BuildIn::arc_drop_ptr => (12nat, 'a', 'r', 'c', 'r'),
            BuildIn::tgc_init_heap => (13nat, 't', 'g', 'c', 'p'),
            BuildIn::tgc_close_heap => (14nat, 't', 'g', 'c', 'p'),
            BuildIn::tgc_type_alloc => (14nat, 't', 'g', 'c', 'c'),
        },
{
    match b {
        BuildIn::print_str => {
            reveal_strlit("print_str");
        },
        BuildIn::print_u8 => {
            reveal_strlit("print_u8");
        },
        BuildIn::print_i32 => {
            reveal_strlit("print_i32");
        },
        BuildIn::printf => {
            reveal_strlit("printf");
        },
        BuildIn::char_at => {
            reveal_strlit("char_at");
        },
        BuildIn::exit => {
            reveal_strlit("exit");
        },
        BuildIn::malloc => {
            reveal_strlit("malloc");
        },
        BuildIn::eq_i32 => {
            reveal_strlit("eq_i32");
        },
        BuildIn::eq_u8 => {
            reveal_strlit("eq_u8");
        },
        BuildIn::eq_bool => {
            reveal_strlit("eq_bool");
        },
        BuildIn::neq_bool => {
            reveal_strlit("neq_bool");
        },
        BuildIn::neq_i32 => {
            reveal_strlit("neq_i32");
        },
        BuildIn::neq_u8 => {
            reveal_strlit("neq_u8");
        },
        BuildIn::lt_i32 => {
            reveal_strlit("lt_i32");
        },
        BuildIn::lt_u8 => {
            reveal_strlit("lt_u8");
        },
        BuildIn::le_i32 => {
            reveal_strlit("le_i32");
        },
        BuildIn::le_u8 => {
            reveal_strlit("le_u8");
        },
        BuildIn::gt_i32 => {
            reveal_strlit("gt_i32");
        },
        BuildIn::gt_u8 => {
            reveal_strlit("gt_u8");
        },
        BuildIn::ge_i32 => {
            reveal_strlit("ge_i32");
        },
        BuildIn::ge_u8 => {
            reveal_strlit("ge_u8");
        },
        BuildIn::add_i32 => {
            reveal_strlit("add_i32");
        },
        BuildIn::add_u8 => {
            reveal_strlit("add_u8");
        },
        BuildIn::sub_i32 => {
            reveal_strlit("sub_i32");
        },
        BuildIn::sub_u8 => {
            reveal_strlit("sub_u8");
        },
        BuildIn::mul_i32 => {
            reveal_strlit("mul_i32");
        },
        BuildIn::mul_u8 => {
            reveal_strlit("mul_u8");
        },
        BuildIn::div_i32 => {
            reveal_strlit("div_i32");
        },
        BuildIn::div_u8 => {
            reveal_strlit("div_u8");
        },
        BuildIn::mod_i32 => {
            reveal_strlit("mod_i32");
        },
        BuildIn::mod_u8 => {
            reveal_strlit("mod_u8");
        },
        BuildIn::neg_i32 => {
            reveal_strlit("neg_i32");
        },
        BuildIn::neg_u8 => {
            reveal_strlit("neg_u8");
        },
        BuildIn::not_bool => {
            reveal_strlit("not_bool");
        },
        BuildIn::init_stack => {
            reveal_strlit("init_stack");
        },
        BuildIn::close_stack => {
            reveal_strlit("close_stack");
        },
        BuildIn::stack_alloc => {
            reveal_strlit("stack_alloc");
        },
        BuildIn::init_heap => {
            reveal_strlit("init_heap");
        },
        BuildIn::close_heap => {
            reveal_strlit("close_heap");
        },
        BuildIn::type_alloc => {
            reveal_strlit("type_alloc");
        },
        BuildIn::arc_ptr_access => {
            reveal_strlit("arc_ptr_access");
        },
        BuildIn::arc_drop_ptr => {
            reveal_strlit("arc_drop_ptr");
        },
        BuildIn::tgc_init_heap => {
            reveal_strlit("tgc_init_heap");
        },
        BuildIn::tgc_close_heap => {
            reveal_strlit("tgc_close_heap");
        },
        BuildIn::tgc_type_alloc => {
            reveal_strlit("tgc_type_alloc");
        },
    }
}

/// No two variants name the same symbol.
pub proof fn lemma_names_distinct(a: BuildIn, b: BuildIn)
    requires
        a.name() == b.name(),
    ensures
        a == b,
{
    lemma_fingerprint(a);
    lemma_fingerprint(b);
}

/// Two variants name two symbols.
pub proof fn lemma_names_differ(a: BuildIn, b: BuildIn)
    requires
        a != b,
    ensures
        a.name() != b.name(),
{
    if a.name() == b.name() {
        lemma_names_distinct(a, b);
    }
}

/// The built-in that a call of `name` with one argument of type `a` selects.
pub open spec fn unary_build_in(name: Seq<char>, a: Seq<char>) -> Option<(BuildIn, Seq<char>)> {
    if name == "print"@ && a == STR_TYPE@ {
        Some((BuildIn::print_str, VOID_TYPE@))
    } else if name == "print"@ && a == U8_TYPE@ {
        Some((BuildIn::print_u8, VOID_TYPE@))
    } else if name == "print"@ && a == I32_TYPE@ {
        Some((BuildIn::print_i32, VOID_TYPE@))
    } else if name == "exit"@ && a == I32_TYPE@ {
        Some((BuildIn::exit, EXIT_TYPE@))
    } else if name == "neg"@ && a == U8_TYPE@ {
        Some((BuildIn::neg_u8, U8_TYPE@))
    } else if name == "neg"@ && a == I32_TYPE@ {
        Some((BuildIn::neg_i32, I32_TYPE@))
    } else if name == "not"@ && a == BOOL_TYPE@ {
        Some((BuildIn::not_bool, BOOL_TYPE@))
    } else {
        None
    }
}

/// The built-in that a call of `name` with arguments of types `a` and `b`
/// selects.
pub open spec fn binary_build_in(name: Seq<char>, a: Seq<char>, b: Seq<char>) -> Option<
    (BuildIn, Seq<char>),
> {
    if name == "char_at"@ && a == STR_TYPE@ && b == I32_TYPE@ {
        Some((BuildIn::char_at, U8_TYPE@))
    } else if name == "eq"@ && a == I32_TYPE@ && b == I32_TYPE@ {
        Some((BuildIn::eq_i32, BOOL_TYPE@))
    } else if name == "eq"@ && a == U8_TYPE@ && b == U8_TYPE@ {
        Some((BuildIn::eq_u8, BOOL_TYPE@))
    } else if name == "eq"@ && a == BOOL_TYPE@ && b == BOOL_TYPE@ {
        Some((BuildIn::eq_bool, BOOL_TYPE@))
    } else if name == "neq"@ && a == I32_TYPE@ && b == I32_TYPE@ {
        Some((BuildIn::neq_i32, BOOL_TYPE@))
    } else if name == "neq"@ && a == U8_TYPE@ && b == U8_TYPE@ {
        Some((BuildIn::neq_u8, BOOL_TYPE@))
    } else if name == "neq"@ && a == BOOL_TYPE@ && b == BOOL_TYPE@ {
        Some((BuildIn::neq_bool, BOOL_TYPE@))
    } else if name == "lt"@ && a == U8_TYPE@ && b == U8_TYPE@ {
        Some((BuildIn::lt_u8, BOOL_TYPE@))
    } else if name == "le"@ && a == U8_TYPE@ && b == U8_TYPE@ {
        Some((BuildIn::le_u8, BOOL_TYPE@))
    } else if name == "gt"@ && a == U8_TYPE@ && b == U8_TYPE@ {
        Some((BuildIn::gt_u8, BOOL_TYPE@))
    } else if name == "ge"@ && a == U8_TYPE@ && b == U8_TYPE@ {
        Some((BuildIn::ge_u8, BOOL_TYPE@))
    } else if name == "add"@ && a == U8_TYPE@ && b == U8_TYPE@ {
        Some((BuildIn::add_u8, U8_TYPE@))
    } else if name == "sub"@ && a == U8_TYPE@ && b == U8_TYPE@ {
        Some((BuildIn::sub_u8, U8_TYPE@))
    } else if name == "mul"@ && a == U8_TYPE@ && b == U8_TYPE@ {
        Some((BuildIn::mul_u8, U8_TYPE@))
    } else if name == "div"@ && a == U8_TYPE@ && b == U8_TYPE@ {
        Some((BuildIn::div_u8, U8_TYPE@))
    } else if name == "mod"@ && a == U8_TYPE@ && b == U8_TYPE@ {
        Some((BuildIn::mod_u8, U8_TYPE@))
    } else if name == "lt"@ && a == I32_TYPE@ && b == I32_TYPE@ {
        Some((BuildIn::lt_i32, BOOL_TYPE@))
    } else if name == "le"@ && a == I32_TYPE@ && b == I32_TYPE@ {
        Some((BuildIn::le_i32, BOOL_TYPE@))
    } else if name == "gt"@ && a == I32_TYPE@ && b == I32_TYPE@ {
        Some((BuildIn::gt_i32, BOOL_TYPE@))
    } else if name == "ge"@ && a == I32_TYPE@ && b == I32_TYPE@ {
        Some((BuildIn::ge_i32, BOOL_TYPE@))
    } else if name == "add"@ && a == I32_TYPE@ && b == I32_TYPE@ {
        Some((BuildIn::add_i32, I32_TYPE@))
    } else if name == "sub"@ && a == I32_TYPE@ && b == I32_TYPE@ {
        Some((BuildIn::sub_i32, I32_TYPE@))
    } else if name == "mul"@ && a == I32_TYPE@ && b == I32_TYPE@ {
        Some((BuildIn::mul_i32, I32_TYPE@))
    } else if name == "div"@ && a == I32_TYPE@ && b == I32_TYPE@ {
        Some((BuildIn::div_i32, I32_TYPE@))
    } else if name == "mod"@ && a == I32_TYPE@ && b == I32_TYPE@ {
        Some((BuildIn::mod_i32, I32_TYPE@))
    } else {
        None
    }
}

/// The table of built-in signatures: the built-in that a call of `name`
/// with arguments of exactly the types `arg_types` selects, and the type
/// of its result. There is no coercion, and no built-in of another arity.
pub open spec fn build_in_signature(name: Seq<char>, arg_types: Seq<Seq<char>>) -> Option<
    (BuildIn, Seq<char>),
> {
    if arg_types.len() == 1 {
        unary_build_in(name, arg_types[0])
    } else if arg_types.len() == 2 {
        binary_build_in(name, arg_types[0], arg_types[1])
    } else {
        None
    }
}

fn find_unary_build_in(name: &str, a: &str) -> (r: Option<(BuildIn, &'static str)>)
    ensures
        match r {
            Some((b, t)) => unary_build_in(name@, a@) == Some((b, t@)),
            None => unary_build_in(name@, a@) is None,
        },
{
    if str_eq(name, "print") && str_eq(a, STR_TYPE) {
        Some((BuildIn::print_str, VOID_TYPE))
    } else if str_eq(name, "print") && str_eq(a, U8_TYPE) {
        Some((BuildIn::print_u8, VOID_TYPE))
    } else if str_eq(name, "print") && str_eq(a, I32_TYPE) {
        Some((BuildIn::print_i32, VOID_TYPE))
    } else if str_eq(name, "exit") && str_eq(a, I32_TYPE) {
        Some((BuildIn::exit, EXIT_TYPE))
    } else if str_eq(name, "neg") && str_eq(a, U8_TYPE) {
        Some((BuildIn::neg_u8, U8_TYPE))
    } else if str_eq(name, "neg") && str_eq(a, I32_TYPE) {
        Some((BuildIn::neg_i32, I32_TYPE))
    } else if str_eq(name, "not") && str_eq(a, BOOL_TYPE) {
        Some((BuildIn::not_bool, BOOL_TYPE))
    } else {
        None
    }
}

fn find_binary_build_in(name: &str, a: &str, b: &str) -> (r: Option<(BuildIn, &'static str)>)
    ensures
        match r {
            Some((f, t)) => binary_build_in(name@, a@, b@) == Some((f, t@)),
            None => binary_build_in(name@, a@, b@) is None,
        },
{
    if str_eq(name, "char_at") && str_eq(a, STR_TYPE) && str_eq(b, I32_TYPE) {
        Some((BuildIn::char_at, U8_TYPE))
    } else if str_eq(name, "eq") && str_eq(a, I32_TYPE) && str_eq(b, I32_TYPE) {
        Some((BuildIn::eq_i32, BOOL_TYPE))
    } else if str_eq(name, "eq") && str_eq(a, U8_TYPE) && str_eq(b, U8_TYPE) {
        Some((BuildIn::eq_u8, BOOL_TYPE))
    } else if str_eq(name, "eq") && str_eq(a, BOOL_TYPE) && str_eq(b, BOOL_TYPE) {
        Some((BuildIn::eq_bool, BOOL_TYPE))
    } else if str_eq(name, "neq") && str_eq(a, I32_TYPE) && str_eq(b, I32_TYPE) {
        Some((BuildIn::neq_i32, BOOL_TYPE))
    } else if str_eq(name, "neq") && str_eq(a, U8_TYPE) && str_eq(b, U8_TYPE) {
        Some((BuildIn::neq_u8, BOOL_TYPE))
    } else if str_eq(name, "neq") && str_eq(a, BOOL_TYPE) && str_eq(b, BOOL_TYPE) {
        Some((BuildIn::neq_bool, BOOL_TYPE))
    } else if str_eq(name, "lt") && str_eq(a, U8_TYPE) && str_eq(b, U8_TYPE) {
        Some((BuildIn::lt_u8, BOOL_TYPE))
    } else if str_eq(name, "le") && str_eq(a, U8_TYPE) && str_eq(b, U8_TYPE) {
        Some((BuildIn::le_u8, BOOL_TYPE))
    } else if str_eq(name, "gt") && str_eq(a, U8_TYPE) && str_eq(b, U8_TYPE) {
        Some((BuildIn::gt_u8, BOOL_TYPE))
    } else if str_eq(name, "ge") && str_eq(a, U8_TYPE) && str_eq(b, U8_TYPE) {
        Some((BuildIn::ge_u8, BOOL_TYPE))
    } else if str_eq(name, "add") && str_eq(a, U8_TYPE) && str_eq(b, U8_TYPE) {
        Some((BuildIn::add_u8, U8_TYPE))
    } else if str_eq(name, "sub") && str_eq(a, U8_TYPE) && str_eq(b, U8_TYPE) {
        Some((BuildIn::sub_u8, U8_TYPE))
    } else if str_eq(name, "mul") && str_eq(a, U8_TYPE) && str_eq(b, U8_TYPE) {
        Some((BuildIn::mul_u8, U8_TYPE))
    } else if str_eq(name, "div") && str_eq(a, U8_TYPE) && str_eq(b, U8_TYPE) {
        Some((BuildIn::div_u8, U8_TYPE))
    } else if str_eq(name, "mod") && str_eq(a, U8_TYPE) && str_eq(b, U8_TYPE) {
        Some((BuildIn::mod_u8, U8_TYPE))
    } else if str_eq(name, "lt") && str_eq(a, I32_TYPE) && str_eq(b, I32_TYPE) {
        Some((BuildIn::lt_i32, BOOL_TYPE))
    } else if str_eq(name, "le") && str_eq(a, I32_TYPE) && str_eq(b, I32_TYPE) {
        Some((BuildIn::le_i32, BOOL_TYPE))
    } else if str_eq(name, "gt") && str_eq(a, I32_TYPE) && str_eq(b, I32_TYPE) {
        Some((BuildIn::gt_i32, BOOL_TYPE))
    } else if str_eq(name, "ge") && str_eq(a, I32_TYPE) && str_eq(b, I32_TYPE) {
        Some((BuildIn::ge_i32, BOOL_TYPE))
    } else if str_eq(name, "add") && str_eq(a, I32_TYPE) && str_eq(b, I32_TYPE) {
        Some((BuildIn::add_i32, I32_TYPE))
    } else if str_eq(name, "sub") && str_eq(a, I32_TYPE) && str_eq(b, I32_TYPE) {
        Some((BuildIn::sub_i32, I32_TYPE))
    } else if str_eq(name, "mul") && str_eq(a, I32_TYPE) && str_eq(b, I32_TYPE) {
        Some((BuildIn::mul_i32, I32_TYPE))
    } else if str_eq(name, "div") && str_eq(a, I32_TYPE) && str_eq(b, I32_TYPE) {
        Some((BuildIn::div_i32, I32_TYPE))
    } else if str_eq(name, "mod") && str_eq(a, I32_TYPE) && str_eq(b, I32_TYPE) {
        Some((BuildIn::mod_i32, I32_TYPE))
    } else {
        None
    }
}

/// Resolves a call of `func_name` with arguments of the types `arg_types`
/// against the table of built-ins. Returns the symbol of the built-in and
/// the type of its result, or `None` where the table has no such row.
pub fn get_build_in_signature(func_name: &str, arg_types: &Vec<String>) -> (r: Option<
    (String, String),
>)
    ensures
        match r {
            Some((symbol, ret_type)) => match build_in_signature(
                func_name@,
                arg_types.deep_view(),
            ) {
                Some((b, t)) => symbol@ == b.name() && ret_type@ == t,
                None => false,
            },
            None => build_in_signature(func_name@, arg_types.deep_view()) is None,
        },
{
    let found = if arg_types.len() == 1 {
        find_unary_build_in(func_name, arg_types[0].as_str())
    } else if arg_types.len() == 2 {
        find_binary_build_in(func_name, arg_types[0].as_str(), arg_types[1].as_str())
    } else {
        None
    };
    match found {
        Some((b, t)) => Some((b.as_str().to_owned(), t.to_owned())),
        None => None,
    }
}

/// The declaration of a runtime symbol: the types of its fixed parameters,
/// the type of its result, and whether it takes further arguments.
pub open spec fn linked_func_signature(b: BuildIn) -> (Seq<Seq<char>>, Seq<char>, bool) {
    match b {
        BuildIn::printf => (seq![STR_TYPE@], I32_TYPE@, true),
        BuildIn::exit => (seq![I32_TYPE@], EXIT_TYPE@, false),
        BuildIn::malloc => (seq![I64_TYPE@], VOID_PTR_TYPE@, false),
        BuildIn::init_stack => (seq![], VOID_PTR_TYPE@, false),
        BuildIn::close_stack => (seq![], VOID_TYPE@, false),
        BuildIn::stack_alloc => (seq![VOID_PTR_TYPE@], VOID_PTR_TYPE@, false),
        BuildIn::init_heap => (seq![], VOID_TYPE@, false),
        BuildIn::close_heap => (seq![], VOID_TYPE@, false),
        BuildIn::type_alloc => (seq![I64_TYPE@, VOID_PTR_TYPE@], VOID_PTR_TYPE@, false),
        BuildIn::arc_ptr_access => (seq![VOID_PTR_TYPE@, VOID_PTR_TYPE@], VOID_TYPE@, false),
        BuildIn::arc_drop_ptr => (seq![VOID_PTR_TYPE@, VOID_PTR_TYPE@], VOID_TYPE@, false),
        BuildIn::tgc_init_heap => (seq![], VOID_TYPE@, false),
        BuildIn::tgc_close_heap => (seq![], VOID_TYPE@, false),
        BuildIn::tgc_type_alloc => (seq![I64_TYPE@, VOID_PTR_TYPE@], VOID_PTR_TYPE@, false),
        _ => (seq![], VOID_TYPE@, false),
    }
}

/// Whether `func_id` is a symbol of the runtime library.
pub open spec fn is_linked_func(func_id: Seq<char>) -> bool {
    exists|b: BuildIn| b.name() == func_id && b.linked()
}

/// Whether `func_id` is a symbol of the runtime library.
pub fn is_linked_func_name(func_id: &String) -> (r: bool)
    ensures
        r == is_linked_func(func_id@),
{
    match BuildIn::from_str(func_id.as_str()) {
        Some(b) => {
            proof {
                if b.linked() {
                    assert(b.name() == func_id@ && b.linked());
                } else {
                    assert forall|c: BuildIn| !(c.name() == func_id@ && c.linked()) by {
                        if c.name() == func_id@ {
                            lemma_names_distinct(b, c);
                        }
                    }
                }
            }
            b.is_linked()
        },
        None => false,
    }
}

/// The declaration of the runtime symbol `b`.
pub fn linked_signature_of(b: BuildIn) -> (r: (Vec<&'static str>, &'static str, bool))
    ensures
        r.0.deep_view() == linked_func_signature(b).0,
        r.1@ == linked_func_signature(b).1,
        r.2 == linked_func_signature(b).2,
{
    let r = match b {
        BuildIn::printf => (vec![STR_TYPE], I32_TYPE, true),
        BuildIn::exit => (vec![I32_TYPE], EXIT_TYPE, false),
        BuildIn::malloc => (vec![I64_TYPE], VOID_PTR_TYPE, false),
        BuildIn::init_stack => (vec![], VOID_PTR_TYPE, false),
        BuildIn::close_stack => (vec![], VOID_TYPE, false),
        BuildIn::stack_alloc => (vec![VOID_PTR_TYPE], VOID_PTR_TYPE, false),
        BuildIn::init_heap => (vec![], VOID_TYPE, false),
        BuildIn::close_heap => (vec![], VOID_TYPE, false),
        BuildIn::type_alloc => (vec![I64_TYPE, VOID_PTR_TYPE], VOID_PTR_TYPE, false),
        BuildIn::arc_ptr_access => (vec![VOID_PTR_TYPE, VOID_PTR_TYPE], VOID_TYPE, false),
        BuildIn::arc_drop_ptr => (vec![VOID_PTR_TYPE, VOID_PTR_TYPE], VOID_TYPE, false),
        BuildIn::tgc_init_heap => (vec![], VOID_TYPE, false),
        BuildIn::tgc_close_heap => (vec![], VOID_TYPE, false),
        BuildIn::tgc_type_alloc => (vec![I64_TYPE, VOID_PTR_TYPE], VOID_PTR_TYPE, false),
        _ => (vec![], VOID_TYPE, false),
    };
    assert(r.0.deep_view() =~= linked_func_signature(b).0);
    r
}

/// The declaration of the runtime symbol `func_id`: the types of its fixed
/// parameters, the type of its result, and whether it takes further
/// arguments. Only a symbol of the runtime library has one.
pub fn get_linked_func_signature(func_id: &String) -> (r: (Vec<&'static str>, &'static str, bool))
    requires
        is_linked_func(func_id@),
    ensures
        BuildIn::named(func_id@) matches Some(b) && b.linked() && r.0.deep_view()
            == linked_func_signature(b).0 && r.1@ == linked_func_signature(b).1 && r.2
            == linked_func_signature(b).2,
{
    let found = BuildIn::from_str(func_id.as_str());
    proof {
        let w = choose|b: BuildIn| b.name() == func_id@ && b.linked();
        match found {
            Some(b) => {
                lemma_names_distinct(b, w);
            },
            None => {
                assert(false);
            },
        }
    }
    linked_signature_of(found.unwrap())
}

/// What stands in place of the call of a built-in that is no symbol of
/// the runtime library.
#[derive(Clone, Copy, Debug)]
pub enum Inline {
    /// A call of `printf`, after the format where one is given.
    Print(Option<&'static str>),
    /// The byte of a text at an index.
    CharAt,
    /// A comparison, with the name of its result.
    Compare(IntPredicate, &'static str),
    /// An operation on two integers, with the name of its result.
    Arith(BinaryOp, &'static str),
    /// An operation on one integer, with the name of its result.
    Unary(UnaryOp, &'static str),
}

impl BuildIn {
    /// The code that stands for the built-in, unless it is a symbol of
    /// the runtime library. Every comparison and division is signed.
    pub open spec fn inline(self) -> Option<Inline> {
        match self {
            BuildIn::print_str => Some(Inline::Print(None)),
            BuildIn::print_i32 => Some(Inline::Print(Some("%d"))),
            BuildIn::print_u8 => Some(Inline::Print(Some("%c"))),
            BuildIn::char_at => Some(Inline::CharAt),
            BuildIn::eq_u8 | BuildIn::eq_i32 | BuildIn::eq_bool => Some(
                Inline::Compare(IntPredicate::Equal, "eqtmp"),
            ),
            BuildIn::neq_u8 | BuildIn::neq_i32 | BuildIn::neq_bool => Some(
                Inline::Compare(IntPredicate::NotEqual, "neqtmp"),
            ),
            BuildIn::lt_u8 | BuildIn::lt_i32 => Some(
                Inline::Compare(IntPredicate::SignedLess, "lttmp"),
            ),
            BuildIn::le_u8 | BuildIn::le_i32 => Some(
                Inline::Compare(IntPredicate::SignedLessOrEqual, "letmp"),
            ),
            BuildIn::gt_u8 | BuildIn::gt_i32 => Some(
                Inline::Compare(IntPredicate::SignedGreater, "gttmp"),
            ),
            BuildIn::ge_u8 | BuildIn::ge_i32 => Some(
                Inline::Compare(IntPredicate::SignedGreaterOrEqual, "getmp"),
            ),
            BuildIn::add_u8 | BuildIn::add_i32 => Some(Inline::Arith(BinaryOp::Add, "addtmp")),
            BuildIn::sub_u8 | BuildIn::sub_i32 => Some(Inline::Arith(BinaryOp::Sub, "subtmp")),
            BuildIn::mul_u8 | BuildIn::mul_i32 => Some(Inline::Arith(BinaryOp::Mul, "multmp")),
            BuildIn::div_u8 | BuildIn::div_i32 => Some(
                Inline::Arith(BinaryOp::SignedDiv, "divtmp"),
            ),
            BuildIn::mod_u8 | BuildIn::mod_i32 => Some(
                Inline::Arith(BinaryOp::SignedRem, "modtmp"),
            ),
            BuildIn::neg_u8 | BuildIn::neg_i32 => Some(Inline::Unary(UnaryOp::Neg, "negtmp")),
            BuildIn::not_bool => Some(Inline::Unary(UnaryOp::Not, "nottmp")),
            _ => None,
        }
    }

    /// The code that stands for the built-in.
    pub fn inline_kind(&self) -> (r: Option<Inline>)
        ensures
            r == self.inline(),
    {
        match self {
            BuildIn::print_str => Some(Inline::Print(None)),
            BuildIn::print_i32 => Some(Inline::Print(Some("%d"))),
            BuildIn::print_u8 => Some(Inline::Print(Some("%c"))),
            BuildIn::char_at => Some(Inline::CharAt),
            BuildIn::eq_u8 | BuildIn::eq_i32 | BuildIn::eq_bool => Some(
                Inline::Compare(IntPredicate::Equal, "eqtmp"),
            ),
            BuildIn::neq_u8 | BuildIn::neq_i32 | BuildIn::neq_bool => Some(
                Inline::Compare(IntPredicate::NotEqual, "neqtmp"),
            ),
            BuildIn::lt_u8 | BuildIn::lt_i32 => Some(
                Inline::Compare(IntPredicate::SignedLess, "lttmp"),
            ),
            BuildIn::le_u8 | BuildIn::le_i32 => Some(
                Inline::Compare(IntPredicate::SignedLessOrEqual, "letmp"),
            ),
            BuildIn::gt_u8 | BuildIn::gt_i32 => Some(
                Inline::Compare(IntPredicate::SignedGreater, "gttmp"),
            ),
            BuildIn::ge_u8 | BuildIn::ge_i32 => Some(
                Inline::Compare(IntPredicate::SignedGreaterOrEqual, "getmp"),
            ),
            BuildIn::add_u8 | BuildIn::add_i32 => Some(Inline::Arith(BinaryOp::Add, "addtmp")),
            BuildIn::sub_u8 | BuildIn::sub_i32 => Some(Inline::Arith(BinaryOp::Sub, "subtmp")),
            BuildIn::mul_u8 | BuildIn::mul_i32 => Some(Inline::Arith(BinaryOp::Mul, "multmp")),
            BuildIn::div_u8 | BuildIn::div_i32 => Some(
                Inline::Arith(BinaryOp::SignedDiv, "divtmp"),
            ),
            BuildIn::mod_u8 | BuildIn::mod_i32 => Some(
                Inline::Arith(BinaryOp::SignedRem, "modtmp"),
            ),
            BuildIn::neg_u8 | BuildIn::neg_i32 => Some(Inline::Unary(UnaryOp::Neg, "negtmp")),
            BuildIn::not_bool => Some(Inline::Unary(UnaryOp::Not, "nottmp")),
            _ => None,
        }
    }
}

/// The call of `printf` with the arguments `params`.
pub open spec fn printf_code(
    cx: CodegenContextView,
    b: BuilderView,
    params: Seq<Value>,
    sp: Value,
) -> Result<(BuilderView, Value), CodegenErrorView> {
    match call_target(cx, "printf"@) {
        Err(e) => Err(e),
        Ok(None) => Err(CodegenErrorView::UnknownFunction("printf"@)),
        Ok(Some((declared, returns_void))) => Ok(
            (
                b.emit(call_instr("printf"@, declared, returns_void, params, sp)),
                b.next_value(),
            ),
        ),
    }
}

/// The code that stands in place of a call of the built-in `function`
/// of the kind `kind` with the arguments `params`.
///
/// A print is a call of `printf`: of a text with the text alone, of a
/// number or a byte with a format before it. Every other built-in is one
/// or two instructions on its first arguments; where an argument is
/// missing, that is the error.
pub open spec fn inline_code(
    cx: CodegenContextView,
    b: BuilderView,
    kind: Inline,
    function: Seq<char>,
    params: Seq<Value>,
    sp: Value,
) -> Result<(BuilderView, Value), CodegenErrorView> {
    match kind {
        Inline::Print(None) => printf_code(cx, b, params, sp),
        Inline::Print(Some(format)) => match call_target(cx, "printf"@) {
            Err(e) => Err(e),
            _ => printf_code(
                cx,
                b.emit(InstrView::GlobalString { text: format@, name: ".str"@ }),
                seq![b.next_value()] + params,
                sp,
            ),
        },
        Inline::CharAt => if params.len() < 2 {
            Err(CodegenErrorView::MissingArgument { function, index: params.len() as usize })
        } else {
            let at = b.emit(
                InstrView::ElementPtr {
                    ptr: params[0],
                    indices: seq![params[1]],
                    name: "char_at_ptr"@,
                },
            );
            Ok(
                (
                    at.emit(InstrView::Load { ptr: b.next_value(), name: "char_at"@ }),
                    at.next_value(),
                ),
            )
        },
        Inline::Compare(predicate, name) => if params.len() < 2 {
            Err(CodegenErrorView::MissingArgument { function, index: params.len() as usize })
        } else {
            Ok(
                (
                    b.emit(
                        InstrView::Compare {
                            predicate,
                            lhs: params[0],
                            rhs: params[1],
                            name: name@,
                        },
                    ),
                    b.next_value(),
                ),
            )
        },
        Inline::Arith(op, name) => if params.len() < 2 {
            Err(CodegenErrorView::MissingArgument { function, index: params.len() as usize })
        } else {
            Ok(
                (
                    b.emit(
                        InstrView::Binary { op, lhs: params[0], rhs: params[1], name: name@ },
                    ),
                    b.next_value(),
                ),
            )
        },
        Inline::Unary(op, name) => if params.len() < 1 {
            Err(CodegenErrorView::MissingArgument { function, index: 0 })
        } else {
            Ok((b.emit(InstrView::Unary { op, value: params[0], name: name@ }), b.next_value()))
        },
    }
}

/// The code of a built-in that is put in place of its call: `None` where
/// `func_id` is a symbol of the runtime library, which is called as a
/// function.
pub open spec fn build_in_code(
    cx: CodegenContextView,
    b: BuilderView,
    func_id: Seq<char>,
    params: Seq<Value>,
    sp: Value,
) -> Result<Option<(BuilderView, Value)>, CodegenErrorView> {
    match BuildIn::named(func_id) {
        None => Err(CodegenErrorView::UnknownFunction(func_id)),
        Some(build_in) => match build_in.inline() {
            None => Ok(None),
            Some(kind) => match inline_code(cx, b, kind, func_id, params, sp) {
                Err(e) => Err(e),
                Ok(done) => Ok(Some(done)),
            },
        },
    }
}

/// Emits the code that stands in place of a call of the built-in
/// `func_id`, and returns the handle on its result. Emits nothing and
/// returns `None` where `func_id` is a symbol of the runtime library.
pub fn get_build_in_func_call(
    cc: &CodegenContext,
    builder: &mut Builder,
    func_id: &String,
    computed_params: &Vec<Value>,
    sp: Value,
) -> (r: Result<Option<Value>, CodegenError>)
    ensures
        match build_in_code(
            cc.deep_view(),
            old(builder).deep_view(),
            func_id@,
            computed_params@,
            sp,
        ) {
            Ok(Some((b, v))) => {
                &&& r == Ok::<Option<Value>, CodegenError>(Some(v))
                &&& final(builder).deep_view() == b
            },
            Ok(None) => {
                &&& r == Ok::<Option<Value>, CodegenError>(None)
                &&& final(builder).deep_view() == old(builder).deep_view()
            },
            Err(e) => {
                &&& r matches Err(x) && x.deep_view() == e
                &&& final(builder).deep_view() == old(builder).deep_view()
            },
        },
{
    let build_in = match BuildIn::from_str(func_id.as_str()) {
        None => {
            return Err(CodegenError::UnknownFunction(func_id.clone()));
        },
        Some(b) => b,
    };
    let kind = match build_in.inline_kind() {
        None => {
            return Ok(None);
        },
        Some(k) => k,
    };
    let n = computed_params.len();
    match kind {
        Inline::Print(format) => {
            let (declared, returns_void) = match find_call_target(cc, &"printf".to_owned()) {
                Err(e) => {
                    return Err(e);
                },
                Ok(None) => {
                    return Err(CodegenError::UnknownFunction("printf".to_owned()));
                },
                Ok(Some(target)) => target,
            };
            let mut params = copy_values(computed_params);
            match format {
                None => {},
                Some(text) => {
                    let s = builder.emit(
                        Instr::GlobalString { text: text.to_owned(), name: ".str".to_owned() },
                    );
                    params.insert(0, s);
                    assert(params@ =~= seq![s] + computed_params@);
                },
            }
            Ok(Some(append_func_call(builder, "printf", declared, returns_void, params, sp)))
        },
        Inline::CharAt => {
            if n < 2 {
                return Err(
                    CodegenError::MissingArgument { function: func_id.clone(), index: n },
                );
            }
            let mut indices: Vec<Value> = Vec::new();
            indices.push(computed_params[1]);
            assert(indices@ =~= seq![computed_params@[1]]);
            let char_ptr = builder.emit(
                Instr::ElementPtr {
                    ptr: computed_params[0],
                    indices,
                    name: "char_at_ptr".to_owned(),
                },
            );
            Ok(Some(builder.emit(Instr::Load { ptr: char_ptr, name: "char_at".to_owned() })))
        },
        Inline::Compare(predicate, name) => {
            if n < 2 {
                return Err(
                    CodegenError::MissingArgument { function: func_id.clone(), index: n },
                );
            }
            Ok(
                Some(
                    builder.emit(
                        Instr::Compare {
                            predicate,
                            lhs: computed_params[0],
                            rhs: computed_params[1],
                            name: name.to_owned(),
                        },
                    ),
                ),
            )
        },
        Inline::Arith(op, name) => {
            if n < 2 {
                return Err(
                    CodegenError::MissingArgument { function: func_id.clone(), index: n },
                );
            }
            Ok(
                Some(
                    builder.emit(
                        Instr::Binary {
                            op,
                            lhs: computed_params[0],
                            rhs: computed_params[1],
                            name: name.to_owned(),
                        },
                    ),
                ),
            )
        },
        Inline::Unary(op, name) => {
            if n < 1 {
                return Err(
                    CodegenError::MissingArgument { function: func_id.clone(), index: 0 },
                );
            }
            Ok(
                Some(
                    builder.emit(
                        Instr::Unary { op, value: computed_params[0], name: name.to_owned() },
                    ),
                ),
            )
        },
    }
}

} // verus!
