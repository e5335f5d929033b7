use jslower::ast::{AnnotatedFunction, BinOp, Block, Expr, Lit, Param, Stmt};
use jslower::demo::{add_function, demo_functions, factorial_function};
use jslower::emit::DiagKind;
use jslower::lower::{lower_expr, lower_function};
use jslower::policy::{default_catalog, emit_name, is_reserved_word};
use jslower::registry::ProgramAssembler;
use jslower::render::{render_expr, render_function};

use jslower::demo::make_get_request_function;

fn s(t: &str) -> String {
    t.to_string()
}

fn assemble_all() -> ProgramAssembler {
    let mut assembler = ProgramAssembler::new(default_catalog());
    let fns = demo_functions();
    for f in &fns {
        assembler.add_function(f);
    }
    assembler
}

#[test]
fn renders_add_exactly() {
    let cat = default_catalog();
    let known: Vec<String> = Vec::new();
    let lowered = lower_function(&cat, &known, &add_function());
    let text = render_function(&lowered);
    assert_eq!(text, "function add(a, b) {\nreturn (a + b);\n}");
}

#[test]
fn renders_factorial_exactly() {
    let cat = default_catalog();
    let known: Vec<String> = Vec::new();
    let lowered = lower_function(&cat, &known, &factorial_function());
    let text = render_function(&lowered);
    assert_eq!(
        text,
        "function factorial(n) {\nlet result = 1;\nlet i = 1;\nwhile ((i <= n)) {\nresult *= i;\ni += 1;\n}\nreturn result;\n}"
    );
}

#[test]
fn call_arguments_keep_source_order() {
    let cat = default_catalog();
    let known: Vec<String> = Vec::new();
    let e = Expr::Call(
        s("f"),
        vec![Expr::Call(s("g"), vec![]), Expr::Call(s("h"), vec![])],
    );
    let text = render_expr(&lower_expr(&cat, &known, &e));
    assert_eq!(text, "f(g(), h())");
    let g_at = text.find("g()").unwrap();
    let h_at = text.find("h()").unwrap();
    assert!(g_at < h_at);
}

#[test]
fn rendering_is_deterministic() {
    let asm1 = assemble_all();
    let asm2 = assemble_all();
    let once = asm1.render();
    let again = asm1.render();
    assert_eq!(once, again);
    assert_eq!(once, asm2.render());
    assert!(!once.is_empty());
}

#[test]
fn duplicate_registration_keeps_one_fragment_and_warns() {
    let mut assembler = ProgramAssembler::new(default_catalog());
    assert!(assembler.add_function(&add_function()));
    assert!(assembler.add_function(&add_function()));
    assert_eq!(assembler.registry.fragments.len(), 1);
    let dups = assembler
        .diagnostics
        .iter()
        .filter(|d| matches!(d.kind, DiagKind::DuplicateSymbolWarning))
        .count();
    assert_eq!(dups, 1);
    assert_eq!(
        assembler.render(),
        "function add(a, b) {\nreturn (a + b);\n}"
    );
}

#[test]
fn unresolved_identifier_passes_through_with_diagnostic() {
    let mut assembler = ProgramAssembler::new(default_catalog());
    let f = AnnotatedFunction {
        name: s("probe"),
        params: vec![],
        body: Block { stmts: vec![Stmt::ExprStmt(Expr::Var(s("mystery")))] },
    };
    assert!(assembler.add_function(&f));
    assert!(assembler
        .diagnostics
        .iter()
        .any(|d| matches!(d.kind, DiagKind::UnresolvedIdentifier) && d.name == s("mystery")));
    assert_eq!(assembler.render(), "function probe() {\nmystery;\n}");
}

#[test]
fn duplicate_binding_in_one_block_warns_and_still_emits() {
    let mut assembler = ProgramAssembler::new(default_catalog());
    let f = AnnotatedFunction {
        name: s("twice"),
        params: vec![],
        body: Block {
            stmts: vec![
                Stmt::Let(s("v"), false, Expr::Lit(Lit::Int(1))),
                Stmt::Let(s("v"), false, Expr::Lit(Lit::Int(2))),
            ],
        },
    };
    assert!(assembler.add_function(&f));
    assert!(assembler
        .diagnostics
        .iter()
        .any(|d| matches!(d.kind, DiagKind::DuplicateSymbolWarning) && d.name == s("v")));
    assert_eq!(assembler.registry.fragments.len(), 1);
}

#[test]
fn structural_error_suppresses_only_that_function() {
    let mut assembler = ProgramAssembler::new(default_catalog());
    let bad = AnnotatedFunction {
        name: s("broken"),
        params: vec![],
        body: Block {
            stmts: vec![Stmt::ExprStmt(Expr::Closure(
                true,
                vec![s("nowhere")],
                Block { stmts: vec![] },
            ))],
        },
    };
    assert!(!assembler.add_function(&bad));
    assert!(assembler
        .diagnostics
        .iter()
        .any(|d| matches!(d.kind, DiagKind::StructuralError)));
    assert_eq!(assembler.registry.fragments.len(), 0);
    assert!(assembler.add_function(&add_function()));
    assert_eq!(assembler.registry.fragments.len(), 1);
}

#[test]
fn reserved_and_catalog_names_are_mangled_for_user_symbols() {
    let cat = default_catalog();
    assert!(is_reserved_word(&s("while")));
    assert!(!is_reserved_word(&s("result")));
    assert_eq!(emit_name(&cat, &s("let")), s("let_"));
    assert_eq!(emit_name(&cat, &s("document")), s("document_"));
    assert_eq!(emit_name(&cat, &s("result")), s("result"));
}

#[test]
fn host_names_pass_through_verbatim() {
    let cat = default_catalog();
    let known: Vec<String> = Vec::new();
    let e = Expr::MethodCall(
        Box::new(Expr::Var(s("document"))),
        s("getElementById"),
        vec![Expr::Lit(Lit::Str(s("test")))],
    );
    assert_eq!(
        render_expr(&lower_expr(&cat, &known, &e)),
        "document.getElementById(\"test\")"
    );
}

#[test]
fn catalog_lists_its_rows() {
    let cat = default_catalog();
    assert!(cat.is_receiver(&s("console")));
    assert!(cat.is_function(&s("setTimeout")));
    assert!(cat.is_constructor(&s("XMLHttpRequest")));
    assert!(cat.has_method(&s("document"), &s("getElementById")));
    assert!(cat.has_method(&s("storage"), &s("getItem")));
    assert!(!cat.has_method(&s("storage"), &s("shred")));
    assert!(!cat.is_receiver(&s("mystery")));
}

#[test]
fn shared_state_lowers_onto_the_mutex_shim() {
    let cat = default_catalog();
    let known: Vec<String> = Vec::new();
    let new_shared = Expr::NewShared(Box::new(Expr::Lit(Lit::Int(0))));
    assert_eq!(render_expr(&lower_expr(&cat, &known, &new_shared)), "new Mutex(0)");
    let acquire = Expr::Acquire(Box::new(Expr::Var(s("cell"))));
    assert_eq!(render_expr(&lower_expr(&cat, &known, &acquire)), "cell.lock()");
    let cloned = Expr::CloneHandle(Box::new(Expr::Var(s("cell"))));
    assert_eq!(render_expr(&lower_expr(&cat, &known, &cloned)), "cell");
}

#[test]
fn template_and_negative_number_render() {
    let cat = default_catalog();
    let known: Vec<String> = Vec::new();
    let e = Expr::Template(
        vec![s("a"), s("b")],
        vec![Expr::Var(s("x"))],
    );
    assert_eq!(render_expr(&lower_expr(&cat, &known, &e)), "`a${x}b`");
    assert_eq!(render_expr(&jslower::jsast::JsExpr::Num(-42)), "-42");
    assert_eq!(render_expr(&jslower::jsast::JsExpr::Num(0)), "0");
}

#[test]
fn equality_lowers_to_strict_forms() {
    let cat = default_catalog();
    let known: Vec<String> = Vec::new();
    let e = Expr::Binary(
        BinOp::Eq,
        Box::new(Expr::Var(s("p"))),
        Box::new(Expr::Var(s("q"))),
    );
    assert_eq!(render_expr(&lower_expr(&cat, &known, &e)), "(p === q)");
}

#[test]
fn duplicate_parameters_warn() {
    let mut assembler = ProgramAssembler::new(default_catalog());
    let f = AnnotatedFunction {
        name: s("pair"),
        params: vec![
            Param { name: s("p"), ty: s("i32") },
            Param { name: s("p"), ty: s("i32") },
        ],
        body: Block { stmts: vec![] },
    };
    assert!(assembler.add_function(&f));
    assert!(assembler
        .diagnostics
        .iter()
        .any(|d| matches!(d.kind, DiagKind::DuplicateSymbolWarning) && d.name == s("p")));
}

#[test]
fn corpus_renders_every_function_once() {
    let assembler = assemble_all();
    assert_eq!(assembler.registry.fragments.len(), 13);
    let out = assembler.render();
    assert!(out.contains("function add(a, b)"));
    assert!(out.contains("function factorial(n)"));
    assert!(out.contains("function make_get_request(url)"));
    assert!(out.contains("new Mutex(new XMLHttpRequest())"));
    let make_get = render_function(&lower_function(
        &default_catalog(),
        &Vec::new(),
        &make_get_request_function(),
    ));
    assert!(make_get.contains("xhr_orig.lock()"));
    assert!(make_get.contains("let xhr1 = xhr_orig;"));
}
