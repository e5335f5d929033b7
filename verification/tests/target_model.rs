use jslower::ast::{BinOp, Block, Expr, Lit, MatchKind, Stmt};
use jslower::demo::{add_function, factorial_function};
use jslower::eval::{eval_expr, eval_stmt, EvalErr, Flow, Machine, Value};
use jslower::jsast::{JsBlock, JsExpr, JsFunction, JsStmt};
use jslower::lower::{lower_expr, lower_function, lower_stmt};
use jslower::policy::default_catalog;

fn s(t: &str) -> String {
    t.to_string()
}

fn fresh_machine(env: Vec<(String, Value)>) -> Machine {
    Machine { env, heap: vec![], trace: vec![] }
}

fn corpus_funcs() -> Vec<JsFunction> {
    let cat = default_catalog();
    let known: Vec<String> = Vec::new();
    vec![
        lower_function(&cat, &known, &add_function()),
        lower_function(&cat, &known, &factorial_function()),
    ]
}

#[test]
fn lowered_add_computes_the_sum() {
    let funcs = corpus_funcs();
    let mut m = fresh_machine(vec![]);
    let call = JsExpr::Call(s("add"), vec![JsExpr::Num(5), JsExpr::Num(3)]);
    let r = eval_expr(&funcs, &mut m, &call, 1000);
    assert!(matches!(r, Ok(Value::Num(8))));
}

#[test]
fn lowered_factorial_loop_reaches_120() {
    let funcs = corpus_funcs();
    let mut m = fresh_machine(vec![]);
    let call = JsExpr::Call(s("factorial"), vec![JsExpr::Num(5)]);
    let r = eval_expr(&funcs, &mut m, &call, 100000);
    assert!(matches!(r, Ok(Value::Num(120))));
}

fn presence_match_over(binding: Value) -> Vec<Value> {
    let cat = default_catalog();
    let known: Vec<String> = Vec::new();
    let src = Stmt::IfMatch(
        MatchKind::Presence(s("x")),
        Expr::Var(s("maybe")),
        Block {
            stmts: vec![Stmt::ExprStmt(Expr::MethodCall(
                Box::new(Expr::Var(s("console"))),
                s("log"),
                vec![Expr::Lit(Lit::Str(s("present")))],
            ))],
        },
        Block {
            stmts: vec![Stmt::ExprStmt(Expr::MethodCall(
                Box::new(Expr::Var(s("console"))),
                s("log"),
                vec![Expr::Lit(Lit::Str(s("absent")))],
            ))],
        },
    );
    let lowered = lower_stmt(&cat, &known, &src);
    let funcs: Vec<JsFunction> = Vec::new();
    let mut m = fresh_machine(vec![(s("maybe"), binding)]);
    let r = eval_stmt(&funcs, &mut m, &lowered, 1000);
    assert!(matches!(r, Ok(Flow::Normal)));
    m.trace
}

#[test]
fn option_match_takes_the_absence_arm_for_null() {
    let trace = presence_match_over(Value::Null);
    assert_eq!(trace.len(), 1);
    assert!(matches!(&trace[0], Value::Str(t) if t == "absent"));
}

#[test]
fn option_match_binds_and_takes_the_presence_arm() {
    let cat = default_catalog();
    let known: Vec<String> = Vec::new();
    let src = Stmt::IfMatch(
        MatchKind::Presence(s("x")),
        Expr::Var(s("maybe")),
        Block {
            stmts: vec![Stmt::ExprStmt(Expr::MethodCall(
                Box::new(Expr::Var(s("console"))),
                s("log"),
                vec![Expr::Var(s("x"))],
            ))],
        },
        Block { stmts: vec![] },
    );
    let lowered = lower_stmt(&cat, &known, &src);
    let funcs: Vec<JsFunction> = Vec::new();
    let mut m = fresh_machine(vec![(s("maybe"), Value::Num(31))]);
    let r = eval_stmt(&funcs, &mut m, &lowered, 1000);
    assert!(matches!(r, Ok(Flow::Normal)));
    assert_eq!(m.trace.len(), 1);
    assert!(matches!(&m.trace[0], Value::Num(31)));
}

#[test]
fn for_each_visits_elements_in_order_with_rising_index() {
    let cat = default_catalog();
    let known: Vec<String> = Vec::new();
    let src = Stmt::ForEach(
        Some(s("i")),
        s("x"),
        Expr::Var(s("xs")),
        Block {
            stmts: vec![Stmt::ExprStmt(Expr::MethodCall(
                Box::new(Expr::Var(s("console"))),
                s("log"),
                vec![Expr::Var(s("i")), Expr::Var(s("x"))],
            ))],
        },
    );
    let lowered = lower_stmt(&cat, &known, &src);
    let funcs: Vec<JsFunction> = Vec::new();
    let xs = Value::Arr(vec![Value::Num(10), Value::Num(20), Value::Num(30)]);
    let mut m = fresh_machine(vec![(s("xs"), xs)]);
    let r = eval_stmt(&funcs, &mut m, &lowered, 1000);
    assert!(matches!(r, Ok(Flow::Normal)));
    let got: Vec<i64> = m
        .trace
        .iter()
        .map(|v| match v {
            Value::Num(n) => *n,
            _ => panic!("unexpected trace entry"),
        })
        .collect();
    assert_eq!(got, vec![0, 10, 1, 20, 2, 30]);
}

#[test]
fn cloned_handles_share_one_cell() {
    let cat = default_catalog();
    let known: Vec<String> = Vec::new();
    let funcs: Vec<JsFunction> = Vec::new();
    let mut m = fresh_machine(vec![]);
    let let_a = lower_stmt(
        &cat,
        &known,
        &Stmt::Let(s("a"), false, Expr::NewShared(Box::new(Expr::Lit(Lit::Int(0))))),
    );
    let let_b = lower_stmt(
        &cat,
        &known,
        &Stmt::Let(s("b"), false, Expr::CloneHandle(Box::new(Expr::Var(s("a"))))),
    );
    assert!(matches!(eval_stmt(&funcs, &mut m, &let_a, 100), Ok(Flow::Normal)));
    assert!(matches!(eval_stmt(&funcs, &mut m, &let_b, 100), Ok(Flow::Normal)));
    let ha = match &m.env[0] {
        (n, Value::Handle(h)) if n == "a" => *h,
        _ => panic!("first binding should be the handle a"),
    };
    let hb = match &m.env[1] {
        (n, Value::Handle(h)) if n == "b" => *h,
        _ => panic!("second binding should be the handle b"),
    };
    assert_eq!(ha, hb);
    assert!(matches!(m.heap[ha], Value::Num(0)));
    // Store through the cell that `a` acquires; read through `b`.
    m.heap[ha] = Value::Num(42);
    let acquire_b = lower_expr(&cat, &known, &Expr::Acquire(Box::new(Expr::Var(s("b")))));
    let r = eval_expr(&funcs, &mut m, &acquire_b, 100);
    assert!(matches!(r, Ok(Value::Num(42))));
}

#[test]
fn evaluation_reports_arithmetic_overflow() {
    let funcs: Vec<JsFunction> = Vec::new();
    let cat = default_catalog();
    let known: Vec<String> = Vec::new();
    let e = Expr::Binary(
        BinOp::Mul,
        Box::new(Expr::Lit(Lit::Int(i64::MAX))),
        Box::new(Expr::Lit(Lit::Int(2))),
    );
    let lowered = lower_expr(&cat, &known, &e);
    let mut m = fresh_machine(vec![]);
    let r = eval_expr(&funcs, &mut m, &lowered, 100);
    assert!(r.is_err());
}

#[test]
fn value_position_match_yields_the_arm_value() {
    let cat = default_catalog();
    let known: Vec<String> = Vec::new();
    let src = Expr::OptionMatch(
        Box::new(Expr::Var(s("maybe"))),
        s("x"),
        Block { stmts: vec![Stmt::ExprStmt(Expr::Var(s("x")))] },
        Block { stmts: vec![Stmt::ExprStmt(Expr::Lit(Lit::Int(-1)))] },
    );
    let lowered = lower_expr(&cat, &known, &src);
    let funcs: Vec<JsFunction> = Vec::new();
    let mut m = fresh_machine(vec![(s("maybe"), Value::Num(7))]);
    assert!(matches!(eval_expr(&funcs, &mut m, &lowered, 1000), Ok(Value::Num(7))));
    let mut m2 = fresh_machine(vec![(s("maybe"), Value::Null)]);
    assert!(matches!(eval_expr(&funcs, &mut m2, &lowered, 1000), Ok(Value::Num(-1))));
}

#[test]
fn unbound_names_and_missing_fuel_are_reported() {
    let funcs: Vec<JsFunction> = Vec::new();
    let mut m = fresh_machine(vec![]);
    let r = eval_expr(&funcs, &mut m, &JsExpr::Var(s("nobody")), 100);
    assert!(matches!(r, Err(EvalErr::UnboundName)));
    let mut m2 = fresh_machine(vec![]);
    let r2 = eval_expr(&funcs, &mut m2, &JsExpr::Num(1), 0);
    assert!(matches!(r2, Err(EvalErr::OutOfFuel)));
}

#[test]
fn host_facing_forms_are_left_to_the_host() {
    let funcs: Vec<JsFunction> = Vec::new();
    let mut m = fresh_machine(vec![]);
    let arrow = JsExpr::Arrow(JsBlock { stmts: vec![] });
    assert!(matches!(eval_expr(&funcs, &mut m, &arrow, 100), Err(EvalErr::Unsupported)));
}

#[test]
fn a_non_boolean_loop_condition_is_a_type_mismatch() {
    let funcs: Vec<JsFunction> = Vec::new();
    let mut m = fresh_machine(vec![]);
    let loop_stmt = JsStmt::While(JsExpr::Num(1), JsBlock { stmts: vec![] });
    assert!(matches!(eval_stmt(&funcs, &mut m, &loop_stmt, 100), Err(EvalErr::TypeMismatch)));
}
