//! The demonstration corpus: the annotated source functions the engine is
//! exercised on, written down as the trees the front end would hand over.
//! Together they cover arithmetic, loops, DOM and style calls, events,
//! timers, navigation, forms, animation, storage and a network request.

use vstd::prelude::*;

use crate::ast::{AnnotatedFunction, AssignOp, BinOp, Block, Expr, Lit, MatchKind, Param, Stmt};

verus! {

fn name(s: &str) -> (r: String)
    ensures
        r@ == s@,
{
    String::from_str(s)
}

fn var(s: &str) -> Expr {
    Expr::Var(name(s))
}

fn num(n: i64) -> Expr {
    Expr::Lit(Lit::Int(n))
}

fn text(s: &str) -> Expr {
    Expr::Lit(Lit::Str(name(s)))
}

fn bin(op: BinOp, l: Expr, r: Expr) -> Expr {
    Expr::Binary(op, Box::new(l), Box::new(r))
}

fn call1(f: &str, a: Expr) -> Expr {
    let mut args: Vec<Expr> = Vec::new();
    args.push(a);
    Expr::Call(name(f), args)
}

fn call2(f: &str, a: Expr, b: Expr) -> Expr {
    let mut args: Vec<Expr> = Vec::new();
    args.push(a);
    args.push(b);
    Expr::Call(name(f), args)
}

fn method0(recv: Expr, m: &str) -> Expr {
    Expr::MethodCall(Box::new(recv), name(m), Vec::new())
}

fn method1(recv: Expr, m: &str, a: Expr) -> Expr {
    let mut args: Vec<Expr> = Vec::new();
    args.push(a);
    Expr::MethodCall(Box::new(recv), name(m), args)
}

fn method2(recv: Expr, m: &str, a: Expr, b: Expr) -> Expr {
    let mut args: Vec<Expr> = Vec::new();
    args.push(a);
    args.push(b);
    Expr::MethodCall(Box::new(recv), name(m), args)
}

fn field(recv: Expr, f: &str) -> Expr {
    Expr::Field(Box::new(recv), name(f))
}

/// A template with one interpolation: `pre{e}post`.
fn tmpl1(pre: &str, e: Expr, post: &str) -> Expr {
    let mut parts: Vec<String> = Vec::new();
    parts.push(name(pre));
    parts.push(name(post));
    let mut interps: Vec<Expr> = Vec::new();
    interps.push(e);
    Expr::Template(parts, interps)
}

/// A template with two interpolations: `p0{a}p1{b}p2`.
fn tmpl2(p0: &str, a: Expr, p1: &str, b: Expr, p2: &str) -> Expr {
    let mut parts: Vec<String> = Vec::new();
    parts.push(name(p0));
    parts.push(name(p1));
    parts.push(name(p2));
    let mut interps: Vec<Expr> = Vec::new();
    interps.push(a);
    interps.push(b);
    Expr::Template(parts, interps)
}

fn closure0(body: Vec<Stmt>) -> Expr {
    Expr::Closure(false, Vec::new(), Block { stmts: body })
}

fn closure_move(captures: Vec<String>, body: Vec<Stmt>) -> Expr {
    Expr::Closure(true, captures, Block { stmts: body })
}

fn log(e: Expr) -> Stmt {
    Stmt::ExprStmt(method1(var("console"), "log", e))
}

fn expr_stmt(e: Expr) -> Stmt {
    Stmt::ExprStmt(e)
}

fn let_stmt(x: &str, e: Expr) -> Stmt {
    Stmt::Let(name(x), false, e)
}

fn param(x: &str, ty: &str) -> Param {
    Param { name: name(x), ty: name(ty) }
}

fn func(fname: &str, params: Vec<Param>, stmts: Vec<Stmt>) -> (r: AnnotatedFunction)
    ensures
        r.name@ == fname@,
{
    AnnotatedFunction { name: name(fname), params, body: Block { stmts } }
}

/// `add(a, b) = a + b`.
pub fn add_function() -> (r: AnnotatedFunction)
    ensures
        r.name@ == "add"@,
{
    let mut params: Vec<Param> = Vec::new();
    params.push(param("a", "i32"));
    params.push(param("b", "i32"));
    let mut stmts: Vec<Stmt> = Vec::new();
    stmts.push(Stmt::Return(Some(bin(BinOp::Add, var("a"), var("b")))));
    func("add", params, stmts)
}

/// `factorial(n)`: a counting loop multiplying into an accumulator.
pub fn factorial_function() -> (r: AnnotatedFunction)
    ensures
        r.name@ == "factorial"@,
{
    let mut params: Vec<Param> = Vec::new();
    params.push(param("n", "i32"));
    let mut stmts: Vec<Stmt> = Vec::new();
    stmts.push(let_stmt("result", num(1)));
    stmts.push(let_stmt("i", num(1)));
    let mut loop_body: Vec<Stmt> = Vec::new();
    loop_body.push(Stmt::Assign(name("result"), AssignOp::MulBy, var("i")));
    loop_body.push(Stmt::Assign(name("i"), AssignOp::AddBy, num(1)));
    stmts.push(Stmt::While(bin(BinOp::Le, var("i"), var("n")), Block { stmts: loop_body }));
    stmts.push(Stmt::Return(Some(var("result"))));
    func("factorial", params, stmts)
}

/// Appends a paragraph with the given text to the debug area.
pub fn log_string_function() -> (r: AnnotatedFunction)
    ensures
        r.name@ == "log_string"@,
{
    let mut params: Vec<Param> = Vec::new();
    params.push(param("s", "str"));
    let mut stmts: Vec<Stmt> = Vec::new();
    stmts.push(
        let_stmt("elt", method1(var("document"), "getElementById", text("debugs"))),
    );
    stmts.push(
        expr_stmt(
            method2(
                var("elt"),
                "insertAdjacentHTML",
                text("beforeend"),
                tmpl1("<p>New content: ", var("s"), "</p>"),
            ),
        ),
    );
    func("log_string", params, stmts)
}

/// Looks an element up and reports it, present or not.
pub fn test_func_function() -> (r: AnnotatedFunction)
    ensures
        r.name@ == "testFunc"@,
{
    let mut stmts: Vec<Stmt> = Vec::new();
    stmts.push(let_stmt("element", method1(var("document"), "getElementById", text("test"))));
    stmts.push(expr_stmt(call1("log_string", text("bla"))));
    let mut some_arm: Vec<Stmt> = Vec::new();
    some_arm.push(log(tmpl1("Found element with id: ", field(var("el"), "id"), "")));
    some_arm.push(
        expr_stmt(call1("alert", tmpl1("Test: ", call1("factorial", num(6)), " - Element found!"))),
    );
    let mut none_arm: Vec<Stmt> = Vec::new();
    none_arm.push(expr_stmt(method1(var("console"), "error", text("Element not found!"))));
    none_arm.push(expr_stmt(call1("alert", text("Element not found!"))));
    stmts.push(
        Stmt::IfMatch(
            MatchKind::Presence(name("el")),
            var("element"),
            Block { stmts: some_arm },
            Block { stmts: none_arm },
        ),
    );
    func("testFunc", Vec::new(), stmts)
}

/// Walks the paragraph list with indices and wires a button click.
pub fn dom_example_function() -> (r: AnnotatedFunction)
    ensures
        r.name@ == "domExample"@,
{
    let mut stmts: Vec<Stmt> = Vec::new();
    stmts.push(let_stmt("newElement", method1(var("document"), "createElement", text("div"))));
    stmts.push(
        let_stmt("elements", method1(var("document"), "getElementsByTagName", text("p"))),
    );
    let mut each_body: Vec<Stmt> = Vec::new();
    each_body.push(
        log(
            tmpl2(
                "Element ",
                var("i"),
                ": ",
                field(var("element"), "tagName"),
                "",
            ),
        ),
    );
    stmts.push(
        Stmt::ForEach(
            Some(name("i")),
            name("element"),
            var("elements"),
            Block { stmts: each_body },
        ),
    );
    let mut plain_body: Vec<Stmt> = Vec::new();
    plain_body.push(
        log(tmpl2("New element: ", field(var("e"), "tagName"), ": ", field(var("e"), "innerHTML"), "")),
    );
    stmts.push(Stmt::ForEach(None, name("e"), var("elements"), Block { stmts: plain_body }));
    stmts.push(let_stmt("button", method1(var("document"), "querySelector", text("#myButton"))));
    let mut click_body: Vec<Stmt> = Vec::new();
    click_body.push(log(text("Button clicked!")));
    let mut some_arm: Vec<Stmt> = Vec::new();
    some_arm.push(log(tmpl1("Button found: ", field(var("btn"), "id"), "")));
    some_arm.push(
        expr_stmt(method2(var("btn"), "addEventListener", text("click"), closure0(click_body))),
    );
    let mut none_arm: Vec<Stmt> = Vec::new();
    none_arm.push(expr_stmt(method1(var("console"), "warn", text("Button not found"))));
    stmts.push(
        Stmt::IfMatch(
            MatchKind::Presence(name("btn")),
            var("button"),
            Block { stmts: some_arm },
            Block { stmts: none_arm },
        ),
    );
    func("domExample", Vec::new(), stmts)
}

/// Reads a computed style and rewrites the element's style attribute.
pub fn style_example_function() -> (r: AnnotatedFunction)
    ensures
        r.name@ == "styleExample"@,
{
    let mut stmts: Vec<Stmt> = Vec::new();
    stmts.push(
        let_stmt("element", method1(var("document"), "getElementById", text("styledElement"))),
    );
    let mut some_arm: Vec<Stmt> = Vec::new();
    some_arm.push(let_stmt("styles", method1(var("window"), "getComputedStyle", var("el"))));
    some_arm.push(
        expr_stmt(call1("log_string", tmpl1("Current color: ", field(var("styles"), "color"), ""))),
    );
    some_arm.push(
        expr_stmt(
            method2(
                var("el"),
                "setAttribute",
                text("style"),
                text("background: red; fontSize: 20px"),
            ),
        ),
    );
    let mut none_arm: Vec<Stmt> = Vec::new();
    none_arm.push(
        expr_stmt(method1(var("console"), "error", text("Styled element not found"))),
    );
    stmts.push(
        Stmt::IfMatch(
            MatchKind::Presence(name("el")),
            var("element"),
            Block { stmts: some_arm },
            Block { stmts: none_arm },
        ),
    );
    func("styleExample", Vec::new(), stmts)
}

/// Attaches click handlers to every matching element and a resize handler
/// to the window.
pub fn event_example_function() -> (r: AnnotatedFunction)
    ensures
        r.name@ == "eventExample"@,
{
    let mut stmts: Vec<Stmt> = Vec::new();
    stmts.push(log(text("Event example")));
    stmts.push(
        let_stmt("elements", method1(var("document"), "querySelectorAll", text(".clickable"))),
    );
    let mut click_body: Vec<Stmt> = Vec::new();
    click_body.push(expr_stmt(call1("alert", text("clicked"))));
    click_body.push(log(text("Element clicked!")));
    let mut each_body: Vec<Stmt> = Vec::new();
    each_body.push(log(tmpl1("Adding event listener to element ", var("index"), "")));
    each_body.push(
        expr_stmt(
            method2(var("element"), "addEventListener", text("click"), closure0(click_body)),
        ),
    );
    stmts.push(
        Stmt::ForEach(
            Some(name("index")),
            name("element"),
            var("elements"),
            Block { stmts: each_body },
        ),
    );
    let mut resize_body: Vec<Stmt> = Vec::new();
    resize_body.push(
        log(
            tmpl2(
                "Window resized to: ",
                method0(var("window"), "innerWidth"),
                "x",
                method0(var("window"), "innerHeight"),
                "",
            ),
        ),
    );
    stmts.push(
        expr_stmt(
            method2(var("window"), "addEventListener", text("resize"), closure0(resize_body)),
        ),
    );
    func("eventExample", Vec::new(), stmts)
}

/// Sets up a timeout and an interval, then clears both from a later
/// timeout whose closure captures the two handles by move.
pub fn timer_example_function() -> (r: AnnotatedFunction)
    ensures
        r.name@ == "timerExample"@,
{
    let mut stmts: Vec<Stmt> = Vec::new();
    stmts.push(log(text("Setting up timers...")));
    let mut t_body: Vec<Stmt> = Vec::new();
    t_body.push(log(text("Timeout fired!")));
    stmts.push(let_stmt("timeoutId", call2("setTimeout", closure0(t_body), num(1000))));
    let mut i_body: Vec<Stmt> = Vec::new();
    i_body.push(log(text("Interval fired!")));
    stmts.push(let_stmt("intervalId", call2("setInterval", closure0(i_body), num(500))));
    let mut c_body: Vec<Stmt> = Vec::new();
    c_body.push(expr_stmt(call1("clearTimeout", var("timeoutId"))));
    c_body.push(expr_stmt(call1("clearInterval", var("intervalId"))));
    c_body.push(log(text("Timers cleared")));
    let mut caps: Vec<String> = Vec::new();
    caps.push(name("timeoutId"));
    caps.push(name("intervalId"));
    stmts.push(expr_stmt(call2("setTimeout", closure_move(caps, c_body), num(5000))));
    func("timerExample", Vec::new(), stmts)
}

/// Reports location and navigator details, then offers a reload.
pub fn navigation_example_function() -> (r: AnnotatedFunction)
    ensures
        r.name@ == "navigationExample"@,
{
    let mut stmts: Vec<Stmt> = Vec::new();
    stmts.push(log(tmpl1("Current URL: ", field(var("location"), "href"), "")));
    stmts.push(log(tmpl1("User Agent: ", field(var("navigator"), "userAgent"), "")));
    stmts.push(log(tmpl1("Language: ", field(var("navigator"), "language"), "")));
    let mut then_arm: Vec<Stmt> = Vec::new();
    then_arm.push(expr_stmt(method0(var("location"), "reload")));
    stmts.push(
        Stmt::IfMatch(
            MatchKind::Truth,
            call1("confirm", text("Do you want to reload the page?")),
            Block { stmts: then_arm },
            Block { stmts: Vec::new() },
        ),
    );
    func("navigationExample", Vec::new(), stmts)
}

/// Reads every input of the first form, if any.
pub fn form_example_function() -> (r: AnnotatedFunction)
    ensures
        r.name@ == "formExample"@,
{
    let mut stmts: Vec<Stmt> = Vec::new();
    stmts.push(log(text("FORM")));
    stmts.push(let_stmt("form", method1(var("document"), "querySelector", text("form"))));
    let mut each_body: Vec<Stmt> = Vec::new();
    each_body.push(
        log(
            tmpl2("Input ", var("i"), ": value = '", field(var("input"), "value"), "'"),
        ),
    );
    let mut some_arm: Vec<Stmt> = Vec::new();
    some_arm.push(let_stmt("inputs", method1(var("f"), "querySelectorAll", text("input"))));
    some_arm.push(
        Stmt::ForEach(Some(name("i")), name("input"), var("inputs"), Block { stmts: each_body }),
    );
    let mut none_arm: Vec<Stmt> = Vec::new();
    none_arm.push(log(text("No form found")));
    stmts.push(
        Stmt::IfMatch(
            MatchKind::Presence(name("f")),
            var("form"),
            Block { stmts: some_arm },
            Block { stmts: none_arm },
        ),
    );
    func("formExample", Vec::new(), stmts)
}

/// Drives a position counter from animation frames; the stepping closure
/// captures its state by move and re-schedules until done.
pub fn animation_example_function() -> (r: AnnotatedFunction)
    ensures
        r.name@ == "animationExample"@,
{
    let mut stmts: Vec<Stmt> = Vec::new();
    stmts.push(
        let_stmt("element", method1(var("document"), "getElementById", text("animatedElement"))),
    );
    let mut frame_body: Vec<Stmt> = Vec::new();
    frame_body.push(log(text("Next animation frame requested")));
    let mut anim_body: Vec<Stmt> = Vec::new();
    anim_body.push(Stmt::Assign(name("position"), AssignOp::AddBy, num(1)));
    anim_body.push(log(tmpl1("Animation frame: position = ", var("position"), "")));
    let mut then_arm: Vec<Stmt> = Vec::new();
    then_arm.push(expr_stmt(call1("requestAnimationFrame", closure0(frame_body))));
    let mut else_arm: Vec<Stmt> = Vec::new();
    else_arm.push(log(text("Animation complete")));
    anim_body.push(
        Stmt::IfMatch(
            MatchKind::Truth,
            bin(BinOp::Lt, var("position"), num(100)),
            Block { stmts: then_arm },
            Block { stmts: else_arm },
        ),
    );
    let mut anim_caps: Vec<String> = Vec::new();
    anim_caps.push(name("position"));
    let mut start_body: Vec<Stmt> = Vec::new();
    start_body.push(expr_stmt(Expr::Call(name("animate"), Vec::new())));
    let mut start_caps: Vec<String> = Vec::new();
    start_caps.push(name("animate"));
    let mut some_arm: Vec<Stmt> = Vec::new();
    some_arm.push(let_stmt("position", num(0)));
    some_arm.push(let_stmt("animate", closure_move(anim_caps, anim_body)));
    some_arm.push(
        expr_stmt(call1("requestAnimationFrame", closure_move(start_caps, start_body))),
    );
    let mut none_arm: Vec<Stmt> = Vec::new();
    none_arm.push(
        expr_stmt(method1(var("console"), "error", text("Animated element not found"))),
    );
    stmts.push(
        Stmt::IfMatch(
            MatchKind::Presence(name("el")),
            var("element"),
            Block { stmts: some_arm },
            Block { stmts: none_arm },
        ),
    );
    func("animationExample", Vec::new(), stmts)
}

/// Reads a key twice around an overwrite; each read is a value-position
/// presence match.
pub fn storage_example_function() -> (r: AnnotatedFunction)
    ensures
        r.name@ == "storageExample"@,
{
    let mut stmts: Vec<Stmt> = Vec::new();
    stmts.push(log(text("Storage operations go here")));
    let mut some1: Vec<Stmt> = Vec::new();
    some1.push(log(tmpl1("Local storage value: ", var("x"), "")));
    let mut none1: Vec<Stmt> = Vec::new();
    none1.push(log(text("Local storage value unset")));
    stmts.push(
        Stmt::Let(
            name("_x"),
            true,
            Expr::OptionMatch(
                Box::new(method1(var("localStorage"), "getItem", text("key"))),
                name("x"),
                Block { stmts: some1 },
                Block { stmts: none1 },
            ),
        ),
    );
    stmts.push(log(text("X")));
    stmts.push(
        expr_stmt(method2(var("localStorage"), "setItem", text("key"), text("value"))),
    );
    stmts.push(log(text("X1")));
    let mut some2: Vec<Stmt> = Vec::new();
    some2.push(log(tmpl1("Local storage value: ", var("x"), "")));
    let mut none2: Vec<Stmt> = Vec::new();
    none2.push(log(text("Local storage value unset")));
    stmts.push(
        Stmt::Let(
            name("_x1"),
            true,
            Expr::OptionMatch(
                Box::new(method1(var("localStorage"), "getItem", text("key"))),
                name("x"),
                Block { stmts: some2 },
                Block { stmts: none2 },
            ),
        ),
    );
    func("storageExample", Vec::new(), stmts)
}

/// Builds a request behind a shared-mutable handle, wires its listeners —
/// each closure holding its own copy of the handle — and sends it.
pub fn make_get_request_function() -> (r: AnnotatedFunction)
    ensures
        r.name@ == "make_get_request"@,
{
    let mut params: Vec<Param> = Vec::new();
    params.push(param("url", "str"));
    let mut stmts: Vec<Stmt> = Vec::new();
    stmts.push(
        let_stmt(
            "xhr_orig",
            Expr::NewShared(Box::new(Expr::NewHostObject(name("XMLHttpRequest"), Vec::new()))),
        ),
    );
    stmts.push(let_stmt("xhr", Expr::Acquire(Box::new(var("xhr_orig")))));
    stmts.push(let_stmt("xhr1", Expr::CloneHandle(Box::new(var("xhr_orig")))));
    let mut load_body: Vec<Stmt> = Vec::new();
    load_body.push(
        log(field(Expr::Acquire(Box::new(var("xhr1"))), "responseText")),
    );
    load_body.push(log(text("Request completed successfully")));
    let mut load_caps: Vec<String> = Vec::new();
    load_caps.push(name("xhr1"));
    stmts.push(
        expr_stmt(
            method2(var("xhr"), "addEventListener", text("load"), closure_move(load_caps, load_body)),
        ),
    );
    let mut err_body: Vec<Stmt> = Vec::new();
    err_body.push(log(text("Request failed")));
    stmts.push(
        expr_stmt(method2(var("xhr"), "addEventListener", text("error"), closure0(err_body))),
    );
    stmts.push(let_stmt("xhr2", Expr::CloneHandle(Box::new(var("xhr_orig")))));
    let mut rsc_body: Vec<Stmt> = Vec::new();
    rsc_body.push(log(text("ready state changed")));
    rsc_body.push(let_stmt("req", Expr::Acquire(Box::new(var("xhr2")))));
    rsc_body.push(log(tmpl1("Ready state changed: ", field(var("req"), "readyState"), "")));
    let mut ok_arm: Vec<Stmt> = Vec::new();
    ok_arm.push(log(tmpl1("Success: ", field(var("req"), "responseText"), "")));
    let mut bad_arm: Vec<Stmt> = Vec::new();
    bad_arm.push(
        log(tmpl2("Error: ", field(var("req"), "status"), " ", field(var("req"), "statusText"), "")),
    );
    let mut done_arm: Vec<Stmt> = Vec::new();
    done_arm.push(
        Stmt::IfMatch(
            MatchKind::Truth,
            bin(BinOp::Eq, field(var("req"), "status"), num(200)),
            Block { stmts: ok_arm },
            Block { stmts: bad_arm },
        ),
    );
    rsc_body.push(
        Stmt::IfMatch(
            MatchKind::Truth,
            bin(BinOp::Eq, field(var("req"), "readyState"), num(4)),
            Block { stmts: done_arm },
            Block { stmts: Vec::new() },
        ),
    );
    let mut rsc_caps: Vec<String> = Vec::new();
    rsc_caps.push(name("xhr2"));
    stmts.push(
        expr_stmt(
            method2(
                var("xhr"),
                "addEventListener",
                text("readystatechange"),
                closure_move(rsc_caps, rsc_body),
            ),
        ),
    );
    stmts.push(expr_stmt(method2(var("xhr"), "open", text("GET"), var("url"))));
    stmts.push(
        expr_stmt(method2(var("xhr"), "setRequestHeader", text("Accept"), text("application/json"))),
    );
    stmts.push(expr_stmt(method0(var("xhr"), "send")));
    func("make_get_request", params, stmts)
}

/// The whole corpus, in registration order.
pub fn demo_functions() -> (r: Vec<AnnotatedFunction>)
    ensures
        r@.len() == 13,
{
    let mut v: Vec<AnnotatedFunction> = Vec::new();
    v.push(add_function());
    v.push(factorial_function());
    v.push(log_string_function());
    v.push(test_func_function());
    v.push(dom_example_function());
    v.push(style_example_function());
    v.push(event_example_function());
    v.push(timer_example_function());
    v.push(navigation_example_function());
    v.push(form_example_function());
    v.push(animation_example_function());
    v.push(storage_example_function());
    v.push(make_get_request_function());
    v
}

} // verus!
