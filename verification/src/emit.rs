//! The function emitter: lowers one annotated function inside a fresh
//! symbol table seeded with its parameters, and reports diagnostics.  A
//! structural fault (a malformed template, a closure capturing an
//! undeclared name) suppresses the fragment; a duplicate binding or an
//! unresolved identifier is reported and the text is still emitted, the
//! unresolved name passing through verbatim as an optimistic guess.

use vstd::prelude::*;

use crate::ast::{AnnotatedFunction, Block, Expr, MatchKind, Param, Stmt};
use crate::lower::{lower_function, lower_function_s, names_view};
use crate::policy::{catalog_constructor, catalog_function, catalog_receiver, contains_name,
    name_in_list, HostCatalog};
use crate::render::{render_function, render_function_s};
use crate::jsast::jsfunction_view;

verus! {

/// The kinds of diagnostic the engine reports.
#[derive(Clone, Copy, PartialEq, Eq, Structural, Debug)]
pub enum DiagKind {
    /// Malformed or unsupported tree shape; fatal to one function's
    /// emission, the rest of the batch continues.
    StructuralError,
    /// A binding redeclared while live, or a function re-registered under
    /// a used name; the later declaration wins deterministically.
    DuplicateSymbolWarning,
    /// A name matching neither a binding nor the catalog; emitted verbatim
    /// and left to fail, if at all, in the target runtime.
    UnresolvedIdentifier,
}

/// One reported diagnostic: its kind and the offending name.
pub struct Diagnostic {
    pub kind: DiagKind,
    pub name: String,
}

/// The ghost reading of a diagnostic list.
pub open spec fn diags_view(ds: Seq<Diagnostic>) -> Seq<(DiagKind, Seq<char>)> {
    ds.map_values(|d: Diagnostic| (d.kind, d.name@))
}

/// Whether `x` resolves in value position: a live binding, a registered
/// function, or a catalog name.
pub open spec fn value_known(
    cat: HostCatalog,
    known: Seq<Seq<char>>,
    env: Seq<Seq<char>>,
    x: Seq<char>,
) -> bool {
    contains_name(env, x) || contains_name(known, x) || catalog_receiver(cat, x)
        || catalog_function(cat, x)
}

/// Whether `x` resolves in callee position.
pub open spec fn callee_known(
    cat: HostCatalog,
    known: Seq<Seq<char>>,
    env: Seq<Seq<char>>,
    x: Seq<char>,
) -> bool {
    contains_name(env, x) || contains_name(known, x) || catalog_function(cat, x)
}

/// Whether `x` is already declared in the current scope, the part of the
/// table from `base` on.
pub open spec fn live_in_scope(env: Seq<Seq<char>>, base: int, x: Seq<char>) -> bool {
    exists|i: int| base <= i < env.len() && env[i] == x
}

/// The diagnostics of one expression.  Expressions never alter the symbol
/// table.
pub open spec fn check_expr_s(
    cat: HostCatalog,
    known: Seq<Seq<char>>,
    env: Seq<Seq<char>>,
    e: Expr,
) -> Seq<(DiagKind, Seq<char>)>
    decreases e, 0int,
{
    match e {
        Expr::Lit(_) => Seq::empty(),
        Expr::Var(x) => if value_known(cat, known, env, x@) {
            Seq::empty()
        } else {
            seq![(DiagKind::UnresolvedIdentifier, x@)]
        },
        Expr::Binary(_, l, r) => check_expr_s(cat, known, env, *l) + check_expr_s(
            cat,
            known,
            env,
            *r,
        ),
        Expr::Call(f, args) => (if callee_known(cat, known, env, f@) {
            Seq::empty()
        } else {
            seq![(DiagKind::UnresolvedIdentifier, f@)]
        }) + check_args_s(cat, known, env, args@, 0),
        Expr::MethodCall(recv, _m, args) => check_expr_s(cat, known, env, *recv) + check_args_s(
            cat,
            known,
            env,
            args@,
            0,
        ),
        Expr::Field(recv, _f) => check_expr_s(cat, known, env, *recv),
        Expr::Template(parts, interps) => (if parts@.len() == interps@.len() + 1 {
            Seq::empty()
        } else {
            seq![(DiagKind::StructuralError, Seq::<char>::empty())]
        }) + check_args_s(cat, known, env, interps@, 0),
        Expr::Closure(_by_move, captures, body) => capture_diags_s(
            env,
            captures@.map_values(|c: String| c@),
            0,
        )
            + check_stmts_s(
            cat,
            known,
            captures@.map_values(|c: String| c@),
            0,
            body.stmts@,
            0,
        ).0,
        Expr::OptionMatch(scrut, bind, some_arm, none_arm) => check_expr_s(cat, known, env, *scrut)
            + check_stmts_s(
            cat,
            known,
            env.push(bind@),
            env.len() as int,
            some_arm.stmts@,
            0,
        ).0 + check_stmts_s(cat, known, env, env.len() as int, none_arm.stmts@, 0).0,
        Expr::NewShared(inner) => check_expr_s(cat, known, env, *inner),
        Expr::Acquire(inner) => check_expr_s(cat, known, env, *inner),
        Expr::CloneHandle(inner) => check_expr_s(cat, known, env, *inner),
        Expr::NewHostObject(class, args) => (if catalog_constructor(cat, class@) {
            Seq::empty()
        } else {
            seq![(DiagKind::UnresolvedIdentifier, class@)]
        }) + check_args_s(cat, known, env, args@, 0),
    }
}

/// The diagnostics of the expressions from position `i` on.
pub open spec fn check_args_s(
    cat: HostCatalog,
    known: Seq<Seq<char>>,
    env: Seq<Seq<char>>,
    es: Seq<Expr>,
    i: int,
) -> Seq<(DiagKind, Seq<char>)>
    decreases es, es.len() - i,
{
    if 0 <= i < es.len() {
        check_expr_s(cat, known, env, es[i]) + check_args_s(cat, known, env, es, i + 1)
    } else {
        Seq::empty()
    }
}

/// A structural error for each captured name, from position `i` on, that
/// is not a live binding of the enclosing table.
pub open spec fn capture_diags_s(env: Seq<Seq<char>>, caps: Seq<Seq<char>>, i: int) -> Seq<
    (DiagKind, Seq<char>),
>
    decreases caps.len() - i,
{
    if 0 <= i < caps.len() {
        (if contains_name(env, caps[i]) {
            Seq::empty()
        } else {
            seq![(DiagKind::StructuralError, caps[i])]
        }) + capture_diags_s(env, caps, i + 1)
    } else {
        Seq::empty()
    }
}

/// The diagnostics and resulting symbol table of one statement.  `base`
/// marks where the current scope begins in the table.
pub open spec fn check_stmt_s(
    cat: HostCatalog,
    known: Seq<Seq<char>>,
    env: Seq<Seq<char>>,
    base: int,
    s: Stmt,
) -> (Seq<(DiagKind, Seq<char>)>, Seq<Seq<char>>)
    decreases s, 0int,
{
    match s {
        Stmt::Let(x, _flag, e) => (
            check_expr_s(cat, known, env, e) + (if live_in_scope(env, base, x@) {
                seq![(DiagKind::DuplicateSymbolWarning, x@)]
            } else {
                Seq::empty()
            }),
            env.push(x@),
        ),
        Stmt::ExprStmt(e) => (check_expr_s(cat, known, env, e), env),
        Stmt::Assign(x, _op, e) => (
            (if contains_name(env, x@) {
                Seq::empty()
            } else {
                seq![(DiagKind::UnresolvedIdentifier, x@)]
            }) + check_expr_s(cat, known, env, e),
            env,
        ),
        Stmt::While(c, body) => (
            check_expr_s(cat, known, env, c) + check_block_s(cat, known, env, body),
            env,
        ),
        Stmt::ForEach(idx, x, iter, body) => (
            check_expr_s(cat, known, env, iter) + check_stmts_s(
                cat,
                known,
                (match idx {
                    Some(i) => env.push(i@),
                    None => env,
                }).push(x@),
                env.len() as int,
                body.stmts@,
                0,
            ).0,
            env,
        ),
        Stmt::IfMatch(kind, scrut, arm1, arm2) => (
            check_expr_s(cat, known, env, scrut) + (match kind {
                MatchKind::Truth => check_block_s(cat, known, env, arm1),
                MatchKind::Presence(b) => check_stmts_s(
                    cat,
                    known,
                    env.push(b@),
                    env.len() as int,
                    arm1.stmts@,
                    0,
                ).0,
            }) + check_block_s(cat, known, env, arm2),
            env,
        ),
        Stmt::Return(e) => (
            match e {
                Some(e) => check_expr_s(cat, known, env, e),
                None => Seq::empty(),
            },
            env,
        ),
    }
}

/// The diagnostics and resulting table of the statements from `i` on.
pub open spec fn check_stmts_s(
    cat: HostCatalog,
    known: Seq<Seq<char>>,
    env: Seq<Seq<char>>,
    base: int,
    ss: Seq<Stmt>,
    i: int,
) -> (Seq<(DiagKind, Seq<char>)>, Seq<Seq<char>>)
    decreases ss, ss.len() - i,
{
    if 0 <= i < ss.len() {
        let first = check_stmt_s(cat, known, env, base, ss[i]);
        let rest = check_stmts_s(cat, known, first.1, base, ss, i + 1);
        (first.0 + rest.0, rest.1)
    } else {
        (Seq::empty(), env)
    }
}

/// The diagnostics of a nested block: its bindings live in a scope of
/// their own and are dropped on exit.
pub open spec fn check_block_s(
    cat: HostCatalog,
    known: Seq<Seq<char>>,
    env: Seq<Seq<char>>,
    b: Block,
) -> Seq<(DiagKind, Seq<char>)>
    decreases b, 1int,
{
    check_stmts_s(cat, known, env, env.len() as int, b.stmts@, 0).0
}

/// A duplicate-symbol warning for every parameter, from position `i` on,
/// whose name repeats an earlier parameter.
pub open spec fn param_dups_s(params: Seq<Param>, i: int) -> Seq<(DiagKind, Seq<char>)>
    decreases params.len() - i,
{
    if 0 <= i < params.len() {
        (if exists|j: int| 0 <= j < i && params[j].name@ == params[i].name@ {
            seq![(DiagKind::DuplicateSymbolWarning, params[i].name@)]
        } else {
            Seq::empty()
        }) + param_dups_s(params, i + 1)
    } else {
        Seq::empty()
    }
}

/// Whether a diagnostic list holds a structural error.
pub open spec fn has_structural_s(ds: Seq<(DiagKind, Seq<char>)>) -> bool {
    exists|i: int| 0 <= i < ds.len() && ds[i].0 == DiagKind::StructuralError
}

/// The rendered text of one annotated source function.
pub struct EmittedFragment {
    pub source_name: String,
    pub text: String,
}

/// The ghost reading of an optional fragment.
pub open spec fn opt_frag_view(o: Option<EmittedFragment>) -> Option<(Seq<char>, Seq<char>)> {
    match o {
        Some(f) => Some((f.source_name@, f.text@)),
        None => None,
    }
}

/// The emitter's outcome for one function: all diagnostics of its body,
/// and the fragment — present exactly when no structural error occurred,
/// named after the function, its text the rendering of the lowered tree.
pub open spec fn emit_function_s(
    cat: HostCatalog,
    known: Seq<Seq<char>>,
    f: AnnotatedFunction,
) -> (Seq<(DiagKind, Seq<char>)>, Option<(Seq<char>, Seq<char>)>) {
    let ds = param_dups_s(f.params@, 0) + check_stmts_s(
        cat,
        known,
        f.params@.map_values(|p: Param| p.name@),
        0,
        f.body.stmts@,
        0,
    ).0;
    if has_structural_s(ds) {
        (ds, None)
    } else {
        (ds, Some((f.name@, render_function_s(lower_function_s(cat, known, f)))))
    }
}

fn push_diag(out: &mut Vec<Diagnostic>, kind: DiagKind, name: String)
    ensures
        diags_view(final(out)@) == diags_view(old(out)@) + seq![(kind, name@)],
{
    let ghost nv = name@;
    out.push(Diagnostic { kind, name });
    assert(diags_view(out@) =~= diags_view(old(out)@) + seq![(kind, nv)]);
}

/// Copies a name table.
fn clone_names(v: &Vec<String>) -> (r: Vec<String>)
    ensures
        r@ == v@,
{
    let mut r: Vec<String> = Vec::new();
    for j in 0..v.len()
        invariant
            r@.len() == j,
            forall|k: int| 0 <= k < j ==> r@[k] == v@[k],
    {
        r.push(v[j].clone());
    }
    assert(r@ =~= v@);
    r
}

fn is_value_known(
    cat: &HostCatalog,
    known: &Vec<String>,
    env: &Vec<String>,
    x: &String,
) -> (r: bool)
    ensures
        r == value_known(*cat, names_view(known@), names_view(env@), x@),
{
    name_in_list(env, x) || name_in_list(known, x) || cat.is_receiver(x) || cat.is_function(x)
}

fn is_callee_known(
    cat: &HostCatalog,
    known: &Vec<String>,
    env: &Vec<String>,
    x: &String,
) -> (r: bool)
    ensures
        r == callee_known(*cat, names_view(known@), names_view(env@), x@),
{
    name_in_list(env, x) || name_in_list(known, x) || cat.is_function(x)
}

fn is_live_in_scope(env: &Vec<String>, base: usize, x: &String) -> (r: bool)
    requires
        base <= env@.len(),
    ensures
        r == live_in_scope(names_view(env@), base as int, x@),
{
    let mut j = base;
    while j < env.len()
        invariant
            base <= j <= env@.len(),
            forall|i: int| base <= i < j ==> names_view(env@)[i] != x@,
        decreases env@.len() - j,
    {
        if env[j] == *x {
            assert(names_view(env@)[j as int] == x@);
            return true;
        }
        j = j + 1;
    }
    false
}

/// Checks one expression, appending its diagnostics.
fn check_expr(
    cat: &HostCatalog,
    known: &Vec<String>,
    env: &Vec<String>,
    e: &Expr,
    out: &mut Vec<Diagnostic>,
)
    ensures
        diags_view(final(out)@) == diags_view(old(out)@) + check_expr_s(
            *cat,
            names_view(known@),
            names_view(env@),
            *e,
        ),
    decreases *e, 0int,
{
    let ghost pre = diags_view(out@);
    match e {
        Expr::Lit(_) => {
            assert(diags_view(out@) =~= pre + Seq::empty());
        },
        Expr::Var(x) => {
            if !is_value_known(cat, known, env, x) {
                push_diag(out, DiagKind::UnresolvedIdentifier, x.clone());
            } else {
                assert(diags_view(out@) =~= pre + Seq::empty());
            }
        },
        Expr::Binary(_, l, r) => {
            check_expr(cat, known, env, &**l, out);
            check_expr(cat, known, env, &**r, out);
            assert(diags_view(out@) =~= pre + (check_expr_s(
                *cat,
                names_view(known@),
                names_view(env@),
                **l,
            ) + check_expr_s(*cat, names_view(known@), names_view(env@), **r)));
        },
        Expr::Call(f, args) => {
            if !is_callee_known(cat, known, env, f) {
                push_diag(out, DiagKind::UnresolvedIdentifier, f.clone());
            }
            check_args(cat, known, env, args, 0, out);
            assert(diags_view(out@) =~= pre + check_expr_s(
                *cat,
                names_view(known@),
                names_view(env@),
                *e,
            ));
        },
        Expr::MethodCall(recv, _m, args) => {
            check_expr(cat, known, env, &**recv, out);
            check_args(cat, known, env, args, 0, out);
            assert(diags_view(out@) =~= pre + check_expr_s(
                *cat,
                names_view(known@),
                names_view(env@),
                *e,
            ));
        },
        Expr::Field(recv, _f) => {
            check_expr(cat, known, env, &**recv, out);
        },
        Expr::Template(parts, interps) => {
            let np = parts.len();
            let ni = interps.len();
            if ni == usize::MAX || np != ni + 1 {
                push_diag(out, DiagKind::StructuralError, String::new());
            }
            check_args(cat, known, env, interps, 0, out);
            assert(diags_view(out@) =~= pre + check_expr_s(
                *cat,
                names_view(known@),
                names_view(env@),
                *e,
            ));
        },
        Expr::Closure(_by_move, captures, body) => {
            capture_checks(env, captures, 0, out);
            let mut env2 = clone_names(captures);
            check_stmts(cat, known, &mut env2, 0, &body.stmts, 0, out);
            assert(diags_view(out@) =~= pre + check_expr_s(
                *cat,
                names_view(known@),
                names_view(env@),
                *e,
            ));
        },
        Expr::OptionMatch(scrut, bind, some_arm, none_arm) => {
            check_expr(cat, known, env, &**scrut, out);
            let mut env2 = clone_names(env);
            env2.push(bind.clone());
            proof {
                assert(names_view(env2@) =~= names_view(env@).push(bind@));
            }
            check_stmts(cat, known, &mut env2, env.len(), &some_arm.stmts, 0, out);
            let mut env3 = clone_names(env);
            check_stmts(cat, known, &mut env3, env.len(), &none_arm.stmts, 0, out);
            assert(diags_view(out@) =~= pre + check_expr_s(
                *cat,
                names_view(known@),
                names_view(env@),
                *e,
            ));
        },
        Expr::NewShared(inner) => {
            check_expr(cat, known, env, &**inner, out);
        },
        Expr::Acquire(inner) => {
            check_expr(cat, known, env, &**inner, out);
        },
        Expr::CloneHandle(inner) => {
            check_expr(cat, known, env, &**inner, out);
        },
        Expr::NewHostObject(class, args) => {
            if !cat.is_constructor(class) {
                push_diag(out, DiagKind::UnresolvedIdentifier, class.clone());
            }
            check_args(cat, known, env, args, 0, out);
            assert(diags_view(out@) =~= pre + check_expr_s(
                *cat,
                names_view(known@),
                names_view(env@),
                *e,
            ));
        },
    }
}

fn check_args(
    cat: &HostCatalog,
    known: &Vec<String>,
    env: &Vec<String>,
    es: &Vec<Expr>,
    i: usize,
    out: &mut Vec<Diagnostic>,
)
    requires
        i <= es@.len(),
    ensures
        diags_view(final(out)@) == diags_view(old(out)@) + check_args_s(
            *cat,
            names_view(known@),
            names_view(env@),
            es@,
            i as int,
        ),
    decreases es@, es@.len() - i,
{
    let ghost pre = diags_view(out@);
    if i < es.len() {
        check_expr(cat, known, env, &es[i], out);
        check_args(cat, known, env, es, i + 1, out);
        assert(diags_view(out@) =~= pre + check_args_s(
            *cat,
            names_view(known@),
            names_view(env@),
            es@,
            i as int,
        ));
    } else {
        assert(diags_view(out@) =~= pre + Seq::empty());
    }
}

fn capture_checks(env: &Vec<String>, caps: &Vec<String>, i: usize, out: &mut Vec<Diagnostic>)
    requires
        i <= caps@.len(),
    ensures
        diags_view(final(out)@) == diags_view(old(out)@) + capture_diags_s(
            names_view(env@),
            names_view(caps@),
            i as int,
        ),
    decreases caps@.len() - i,
{
    let ghost pre = diags_view(out@);
    if i < caps.len() {
        if !name_in_list(env, &caps[i]) {
            push_diag(out, DiagKind::StructuralError, caps[i].clone());
        }
        capture_checks(env, caps, i + 1, out);
        assert(diags_view(out@) =~= pre + capture_diags_s(
            names_view(env@),
            names_view(caps@),
            i as int,
        ));
    } else {
        assert(diags_view(out@) =~= pre + Seq::empty());
    }
}

/// Checks one statement, appending diagnostics and growing the table.
fn check_stmt(
    cat: &HostCatalog,
    known: &Vec<String>,
    env: &mut Vec<String>,
    base: usize,
    s: &Stmt,
    out: &mut Vec<Diagnostic>,
)
    requires
        base <= old(env)@.len(),
    ensures
        diags_view(final(out)@) == diags_view(old(out)@) + check_stmt_s(
            *cat,
            names_view(known@),
            names_view(old(env)@),
            base as int,
            *s,
        ).0,
        names_view(final(env)@) == check_stmt_s(
            *cat,
            names_view(known@),
            names_view(old(env)@),
            base as int,
            *s,
        ).1,
        final(env)@.len() >= old(env)@.len(),
    decreases *s, 0int,
{
    let ghost pre = diags_view(out@);
    let ghost env0 = names_view(env@);
    match s {
        Stmt::Let(x, _flag, e) => {
            check_expr(cat, known, env, e, out);
            if is_live_in_scope(env, base, x) {
                push_diag(out, DiagKind::DuplicateSymbolWarning, x.clone());
            }
            env.push(x.clone());
            proof {
                assert(names_view(env@) =~= env0.push(x@));
                assert(diags_view(out@) =~= pre + check_stmt_s(
                    *cat,
                    names_view(known@),
                    env0,
                    base as int,
                    *s,
                ).0);
            }
        },
        Stmt::ExprStmt(e) => {
            check_expr(cat, known, env, e, out);
        },
        Stmt::Assign(x, _op, e) => {
            if !name_in_list(env, x) {
                push_diag(out, DiagKind::UnresolvedIdentifier, x.clone());
            }
            check_expr(cat, known, env, e, out);
            assert(diags_view(out@) =~= pre + check_stmt_s(
                *cat,
                names_view(known@),
                env0,
                base as int,
                *s,
            ).0);
        },
        Stmt::While(c, body) => {
            check_expr(cat, known, env, c, out);
            check_block(cat, known, env, body, out);
            assert(diags_view(out@) =~= pre + check_stmt_s(
                *cat,
                names_view(known@),
                env0,
                base as int,
                *s,
            ).0);
        },
        Stmt::ForEach(idx, x, iter, body) => {
            check_expr(cat, known, env, iter, out);
            let mut env2 = clone_names(env);
            match idx {
                Some(i) => {
                    env2.push(i.clone());
                },
                None => {},
            }
            env2.push(x.clone());
            proof {
                assert(names_view(env2@) =~= (match *idx {
                    Some(i) => env0.push(i@),
                    None => env0,
                }).push(x@));
            }
            check_stmts(cat, known, &mut env2, env.len(), &body.stmts, 0, out);
            assert(diags_view(out@) =~= pre + check_stmt_s(
                *cat,
                names_view(known@),
                env0,
                base as int,
                *s,
            ).0);
        },
        Stmt::IfMatch(kind, scrut, arm1, arm2) => {
            check_expr(cat, known, env, scrut, out);
            match kind {
                MatchKind::Truth => {
                    check_block(cat, known, env, arm1, out);
                },
                MatchKind::Presence(b) => {
                    let mut env2 = clone_names(env);
                    env2.push(b.clone());
                    proof {
                        assert(names_view(env2@) =~= names_view(env@).push(b@));
                    }
                    check_stmts(cat, known, &mut env2, env.len(), &arm1.stmts, 0, out);
                },
            }
            check_block(cat, known, env, arm2, out);
            assert(diags_view(out@) =~= pre + check_stmt_s(
                *cat,
                names_view(known@),
                env0,
                base as int,
                *s,
            ).0);
        },
        Stmt::Return(e) => {
            match e {
                Some(e) => {
                    check_expr(cat, known, env, e, out);
                },
                None => {
                    assert(diags_view(out@) =~= pre + Seq::empty());
                },
            }
        },
    }
}

fn check_stmts(
    cat: &HostCatalog,
    known: &Vec<String>,
    env: &mut Vec<String>,
    base: usize,
    ss: &Vec<Stmt>,
    i: usize,
    out: &mut Vec<Diagnostic>,
)
    requires
        base <= old(env)@.len(),
        i <= ss@.len(),
    ensures
        diags_view(final(out)@) == diags_view(old(out)@) + check_stmts_s(
            *cat,
            names_view(known@),
            names_view(old(env)@),
            base as int,
            ss@,
            i as int,
        ).0,
        names_view(final(env)@) == check_stmts_s(
            *cat,
            names_view(known@),
            names_view(old(env)@),
            base as int,
            ss@,
            i as int,
        ).1,
        final(env)@.len() >= old(env)@.len(),
    decreases ss@, ss@.len() - i,
{
    let ghost pre = diags_view(out@);
    let ghost env0 = names_view(env@);
    if i < ss.len() {
        check_stmt(cat, known, env, base, &ss[i], out);
        check_stmts(cat, known, env, base, ss, i + 1, out);
        assert(diags_view(out@) =~= pre + check_stmts_s(
            *cat,
            names_view(known@),
            env0,
            base as int,
            ss@,
            i as int,
        ).0);
    } else {
        assert(diags_view(out@) =~= pre + Seq::empty());
    }
}

/// Checks a nested block against a copy of the enclosing table.
fn check_block(
    cat: &HostCatalog,
    known: &Vec<String>,
    env: &Vec<String>,
    b: &Block,
    out: &mut Vec<Diagnostic>,
)
    ensures
        diags_view(final(out)@) == diags_view(old(out)@) + check_block_s(
            *cat,
            names_view(known@),
            names_view(env@),
            *b,
        ),
    decreases *b, 1int,
{
    let mut env2 = clone_names(env);
    check_stmts(cat, known, &mut env2, env.len(), &b.stmts, 0, out);
}

fn param_checks(params: &Vec<Param>, i: usize, out: &mut Vec<Diagnostic>)
    requires
        i <= params@.len(),
    ensures
        diags_view(final(out)@) == diags_view(old(out)@) + param_dups_s(params@, i as int),
    decreases params@.len() - i,
{
    let ghost pre = diags_view(out@);
    if i < params.len() {
        let mut dup = false;
        for j in 0..i
            invariant
                i < params@.len(),
                dup == exists|k: int| 0 <= k < j && params@[k].name@ == params@[i as int].name@,
        {
            if params[j].name == params[i].name {
                dup = true;
            }
        }
        if dup {
            push_diag(out, DiagKind::DuplicateSymbolWarning, params[i].name.clone());
        }
        param_checks(params, i + 1, out);
        assert(diags_view(out@) =~= pre + param_dups_s(params@, i as int));
    } else {
        assert(diags_view(out@) =~= pre + Seq::empty());
    }
}

fn has_structural(ds: &Vec<Diagnostic>) -> (r: bool)
    ensures
        r == has_structural_s(diags_view(ds@)),
{
    for j in 0..ds.len()
        invariant
            forall|i: int| 0 <= i < j ==> diags_view(ds@)[i].0 != DiagKind::StructuralError,
    {
        let is_structural = matches!(ds[j].kind, DiagKind::StructuralError);
        if is_structural {
            assert(diags_view(ds@)[j as int].0 == DiagKind::StructuralError);
            return true;
        }
    }
    false
}

/// Emits one annotated function: checks it inside a fresh table seeded
/// with its parameters, reports every diagnostic, and renders the
/// fragment unless a structural error suppresses it.
pub fn emit_function(cat: &HostCatalog, known: &Vec<String>, f: &AnnotatedFunction) -> (r: (
    Vec<Diagnostic>,
    Option<EmittedFragment>,
))
    ensures
        diags_view(r.0@) == emit_function_s(*cat, names_view(known@), *f).0,
        opt_frag_view(r.1) == emit_function_s(*cat, names_view(known@), *f).1,
{
    let mut out: Vec<Diagnostic> = Vec::new();
    proof {
        assert(diags_view(out@) =~= Seq::empty());
    }
    param_checks(&f.params, 0, &mut out);
    let mut env: Vec<String> = Vec::new();
    for j in 0..f.params.len()
        invariant
            env@.len() == j,
            forall|k: int| 0 <= k < j ==> env@[k]@ == f.params@[k].name@,
    {
        env.push(f.params[j].name.clone());
    }
    proof {
        assert(names_view(env@) =~= f.params@.map_values(|p: Param| p.name@));
    }
    check_stmts(cat, known, &mut env, 0, &f.body.stmts, 0, &mut out);
    proof {
        assert(diags_view(out@) =~= param_dups_s(f.params@, 0) + check_stmts_s(
            *cat,
            names_view(known@),
            f.params@.map_values(|p: Param| p.name@),
            0,
            f.body.stmts@,
            0,
        ).0);
    }
    if has_structural(&out) {
        (out, None)
    } else {
        let lowered = lower_function(cat, known, f);
        let text = render_function(&lowered);
        let frag = EmittedFragment { source_name: f.name.clone(), text };
        (out, Some(frag))
    }
}

} // verus!
