//! The lowering engine: a pure structural mapping from source trees to
//! target trees.  Identifier treatment follows the catalog policy: host
//! names pass through verbatim, user symbols are emitted under their own
//! (possibly mangled) name.  Shared-mutable primitives map onto the shim
//! runtime: construction becomes the `Mutex` shim, acquisition its `lock`
//! method, and a handle copy is a plain reference copy, so every copy of a
//! handle refers to the same target-side object.

use vstd::prelude::*;

use crate::ast::{AnnotatedFunction, AssignOp, BinOp, Block, Expr, Lit, MatchKind, Param, Stmt};
use crate::jsast::{
    jsblock_view, jsexpr_view, jsexprs_view, jsexprs_view_props, jsfunction_view, jsstmt_view,
    jsstmts_view, jsstmts_view_props, JsAssignOp, JsBlock, JsBlockS, JsExpr, JsExprS, JsFunction,
    JsFunctionS, JsOp, JsStmt, JsStmtS,
};
use crate::policy::{
    catalog_function, catalog_receiver, contains_name, emit_name, emit_name_s, HostCatalog,
};
use crate::render::{render_args_s, render_expr_s};

verus! {

/// The target operator for a source operator; equality and inequality
/// become the strict target forms.
pub open spec fn op_lower(op: BinOp) -> JsOp {
    match op {
        BinOp::Add => JsOp::Add,
        BinOp::Sub => JsOp::Sub,
        BinOp::Mul => JsOp::Mul,
        BinOp::Le => JsOp::Le,
        BinOp::Lt => JsOp::Lt,
        BinOp::Ge => JsOp::Ge,
        BinOp::Gt => JsOp::Gt,
        BinOp::Eq => JsOp::Eq,
        BinOp::Ne => JsOp::Ne,
        BinOp::And => JsOp::And,
        BinOp::Or => JsOp::Or,
    }
}

pub open spec fn assign_op_lower(op: AssignOp) -> JsAssignOp {
    match op {
        AssignOp::Plain => JsAssignOp::Plain,
        AssignOp::AddBy => JsAssignOp::AddBy,
        AssignOp::SubBy => JsAssignOp::SubBy,
        AssignOp::MulBy => JsAssignOp::MulBy,
    }
}

/// The emitted callee of a bare call: catalog functions and already
/// registered function names pass through verbatim, anything else is a
/// user symbol.
pub open spec fn callee_name_s(cat: HostCatalog, known: Seq<Seq<char>>, f: Seq<char>) -> Seq<
    char,
> {
    if catalog_function(cat, f) || contains_name(known, f) {
        f
    } else {
        emit_name_s(cat, f)
    }
}

/// The synthesised scrutinee temporary of a presence match, derived from
/// the binding name; `$` keeps it apart from every user symbol.
pub open spec fn match_tmp_s(cat: HostCatalog, bind: Seq<char>) -> Seq<char> {
    emit_name_s(cat, bind) + "$m"@
}

/// The target tree of a source expression.
pub open spec fn lower_expr_s(cat: HostCatalog, known: Seq<Seq<char>>, e: Expr) -> JsExprS
    decreases e, 0int,
{
    match e {
        Expr::Lit(l) => match l {
            Lit::Int(n) => JsExprS::Num(n as int),
            Lit::Bool(b) => JsExprS::Bool(b),
            Lit::Str(s) => JsExprS::Str(s@),
        },
        Expr::Var(x) => if catalog_receiver(cat, x@) || catalog_function(cat, x@) {
            JsExprS::Var(x@)
        } else {
            JsExprS::Var(emit_name_s(cat, x@))
        },
        Expr::Binary(op, l, r) => JsExprS::Infix(
            op_lower(op),
            Box::new(lower_expr_s(cat, known, *l)),
            Box::new(lower_expr_s(cat, known, *r)),
        ),
        Expr::Call(f, args) => JsExprS::Call(
            callee_name_s(cat, known, f@),
            lower_args_s(cat, known, args@, 0),
        ),
        Expr::MethodCall(recv, m, args) => JsExprS::Method(
            Box::new(lower_expr_s(cat, known, *recv)),
            m@,
            lower_args_s(cat, known, args@, 0),
        ),
        Expr::Field(recv, f) => JsExprS::Member(Box::new(lower_expr_s(cat, known, *recv)), f@),
        Expr::Template(parts, interps) => JsExprS::Template(
            parts@.map_values(|p: String| p@),
            lower_args_s(cat, known, interps@, 0),
        ),
        Expr::Closure(_by_move, _captures, body) => JsExprS::Arrow(lower_block_s(cat, known, body)),
        Expr::OptionMatch(scrut, bind, some_arm, none_arm) => JsExprS::Iife(
            JsBlockS {
                stmts: seq![
                    JsStmtS::MatchNull(
                        match_tmp_s(cat, bind@),
                        lower_expr_s(cat, known, *scrut),
                        Some(emit_name_s(cat, bind@)),
                        value_block_s(cat, known, some_arm),
                        value_block_s(cat, known, none_arm),
                    ),
                ],
            },
        ),
        Expr::NewShared(inner) => JsExprS::NewMutex(Box::new(lower_expr_s(cat, known, *inner))),
        Expr::Acquire(inner) => JsExprS::Method(
            Box::new(lower_expr_s(cat, known, *inner)),
            "lock"@,
            Seq::empty(),
        ),
        Expr::CloneHandle(inner) => lower_expr_s(cat, known, *inner),
        Expr::NewHostObject(class, args) => JsExprS::NewObject(
            class@,
            lower_args_s(cat, known, args@, 0),
        ),
    }
}

/// The lowered expressions from position `i` on, in source order.
pub open spec fn lower_args_s(cat: HostCatalog, known: Seq<Seq<char>>, es: Seq<Expr>, i: int) -> Seq<
    JsExprS,
>
    decreases es, es.len() - i,
{
    if 0 <= i < es.len() {
        seq![lower_expr_s(cat, known, es[i])] + lower_args_s(cat, known, es, i + 1)
    } else {
        Seq::empty()
    }
}

/// The target statement of a source statement.
pub open spec fn lower_stmt_s(cat: HostCatalog, known: Seq<Seq<char>>, s: Stmt) -> JsStmtS
    decreases s, 0int,
{
    match s {
        Stmt::Let(x, _is_conditional_value, e) => JsStmtS::VarDecl(
            emit_name_s(cat, x@),
            lower_expr_s(cat, known, e),
        ),
        Stmt::ExprStmt(e) => JsStmtS::Expr(lower_expr_s(cat, known, e)),
        Stmt::Assign(x, op, e) => JsStmtS::Assign(
            emit_name_s(cat, x@),
            assign_op_lower(op),
            lower_expr_s(cat, known, e),
        ),
        Stmt::While(c, body) => JsStmtS::While(
            lower_expr_s(cat, known, c),
            lower_block_s(cat, known, body),
        ),
        Stmt::ForEach(idx, x, iter, body) => JsStmtS::ForOf(
            match idx {
                Some(i) => Some(emit_name_s(cat, i@)),
                None => None,
            },
            emit_name_s(cat, x@),
            lower_expr_s(cat, known, iter),
            lower_block_s(cat, known, body),
        ),
        Stmt::IfMatch(kind, scrut, arm1, arm2) => match kind {
            MatchKind::Truth => JsStmtS::If(
                lower_expr_s(cat, known, scrut),
                lower_block_s(cat, known, arm1),
                lower_block_s(cat, known, arm2),
            ),
            MatchKind::Presence(bind) => JsStmtS::MatchNull(
                match_tmp_s(cat, bind@),
                lower_expr_s(cat, known, scrut),
                Some(emit_name_s(cat, bind@)),
                lower_block_s(cat, known, arm1),
                lower_block_s(cat, known, arm2),
            ),
        },
        Stmt::Return(e) => JsStmtS::Return(
            match e {
                Some(e) => Some(lower_expr_s(cat, known, e)),
                None => None,
            },
        ),
    }
}

/// The lowered statements from position `i` on, in source order.
pub open spec fn lower_stmts_s(cat: HostCatalog, known: Seq<Seq<char>>, ss: Seq<Stmt>, i: int) -> Seq<
    JsStmtS,
>
    decreases ss, ss.len() - i,
{
    if 0 <= i < ss.len() {
        seq![lower_stmt_s(cat, known, ss[i])] + lower_stmts_s(cat, known, ss, i + 1)
    } else {
        Seq::empty()
    }
}

pub open spec fn lower_block_s(cat: HostCatalog, known: Seq<Seq<char>>, b: Block) -> JsBlockS
    decreases b, 0int,
{
    JsBlockS { stmts: lower_stmts_s(cat, known, b.stmts@, 0) }
}

/// A match arm lowered in value position: a trailing expression statement
/// becomes a return of that expression's value, so the branch produces the
/// arm's final value; a pure statement block produces no value.
pub open spec fn value_block_s(cat: HostCatalog, known: Seq<Seq<char>>, b: Block) -> JsBlockS
    decreases b, 1int,
{
    let n = b.stmts@.len();
    if n > 0 && (b.stmts@[n - 1] matches Stmt::ExprStmt(_)) {
        JsBlockS {
            stmts: lower_stmts_s(cat, known, b.stmts@.subrange(0, n - 1), 0) + seq![
                JsStmtS::Return(
                    Some(
                        lower_expr_s(
                            cat,
                            known,
                            match b.stmts@[n - 1] {
                                Stmt::ExprStmt(e) => e,
                                _ => arbitrary(),
                            },
                        ),
                    ),
                ),
            ],
        }
    } else {
        lower_block_s(cat, known, b)
    }
}

/// The target function of an annotated function: the name verbatim, the
/// parameters as user symbols, the body lowered statement by statement.
pub open spec fn lower_function_s(cat: HostCatalog, known: Seq<Seq<char>>, f: AnnotatedFunction) -> JsFunctionS {
    JsFunctionS {
        name: f.name@,
        params: f.params@.map_values(|p: Param| emit_name_s(cat, p.name@)),
        body: lower_block_s(cat, known, f.body),
    }
}

/// The elementwise reading of `lower_args_s` from position 0.
pub proof fn lower_args_s_props(cat: HostCatalog, known: Seq<Seq<char>>, es: Seq<Expr>, i: int)
    requires
        0 <= i <= es.len(),
    ensures
        lower_args_s(cat, known, es, i).len() == es.len() - i,
        forall|k: int|
            i <= k < es.len() ==> lower_args_s(cat, known, es, i)[k - i] == lower_expr_s(
                cat,
                known,
                es[k],
            ),
    decreases es.len() - i,
{
    if i < es.len() {
        lower_args_s_props(cat, known, es, i + 1);
    }
}

/// The elementwise reading of `lower_stmts_s` from position 0.
pub proof fn lower_stmts_s_props(cat: HostCatalog, known: Seq<Seq<char>>, ss: Seq<Stmt>, i: int)
    requires
        0 <= i <= ss.len(),
    ensures
        lower_stmts_s(cat, known, ss, i).len() == ss.len() - i,
        forall|k: int|
            i <= k < ss.len() ==> lower_stmts_s(cat, known, ss, i)[k - i] == lower_stmt_s(
                cat,
                known,
                ss[k],
            ),
    decreases ss.len() - i,
{
    if i < ss.len() {
        lower_stmts_s_props(cat, known, ss, i + 1);
    }
}

fn op_map(op: &BinOp) -> (r: JsOp)
    ensures
        r == op_lower(*op),
{
    match op {
        BinOp::Add => JsOp::Add,
        BinOp::Sub => JsOp::Sub,
        BinOp::Mul => JsOp::Mul,
        BinOp::Le => JsOp::Le,
        BinOp::Lt => JsOp::Lt,
        BinOp::Ge => JsOp::Ge,
        BinOp::Gt => JsOp::Gt,
        BinOp::Eq => JsOp::Eq,
        BinOp::Ne => JsOp::Ne,
        BinOp::And => JsOp::And,
        BinOp::Or => JsOp::Or,
    }
}

fn assign_op_map(op: &AssignOp) -> (r: JsAssignOp)
    ensures
        r == assign_op_lower(*op),
{
    match op {
        AssignOp::Plain => JsAssignOp::Plain,
        AssignOp::AddBy => JsAssignOp::AddBy,
        AssignOp::SubBy => JsAssignOp::SubBy,
        AssignOp::MulBy => JsAssignOp::MulBy,
    }
}

/// The view of a list of known function names.
pub open spec fn names_view(known: Seq<String>) -> Seq<Seq<char>> {
    known.map_values(|s: String| s@)
}

fn callee_name(cat: &HostCatalog, known: &Vec<String>, f: &String) -> (r: String)
    ensures
        r@ == callee_name_s(*cat, names_view(known@), f@),
{
    if cat.is_function(f) || crate::policy::name_in_list(known, f) {
        f.clone()
    } else {
        emit_name(cat, f)
    }
}

fn match_tmp(cat: &HostCatalog, bind: &String) -> (r: String)
    ensures
        r@ == match_tmp_s(*cat, bind@),
{
    let mut t = emit_name(cat, bind);
    t.append("$m");
    t
}

/// Lowers one source expression to its target tree.
pub fn lower_expr(cat: &HostCatalog, known: &Vec<String>, e: &Expr) -> (r: JsExpr)
    ensures
        jsexpr_view(r) == lower_expr_s(*cat, names_view(known@), *e),
    decreases *e, 0int,
{
    match e {
        Expr::Lit(l) => match l {
            Lit::Int(n) => JsExpr::Num(*n),
            Lit::Bool(b) => JsExpr::Bool(*b),
            Lit::Str(s) => JsExpr::Str(s.clone()),
        },
        Expr::Var(x) => {
            if cat.is_receiver(x) || cat.is_function(x) {
                JsExpr::Var(x.clone())
            } else {
                JsExpr::Var(emit_name(cat, x))
            }
        },
        Expr::Binary(op, l, r) => JsExpr::Infix(
            op_map(op),
            Box::new(lower_expr(cat, known, &**l)),
            Box::new(lower_expr(cat, known, &**r)),
        ),
        Expr::Call(f, args) => JsExpr::Call(callee_name(cat, known, f), lower_args(cat, known, args)),
        Expr::MethodCall(recv, m, args) => JsExpr::Method(
            Box::new(lower_expr(cat, known, &**recv)),
            m.clone(),
            lower_args(cat, known, args),
        ),
        Expr::Field(recv, f) => JsExpr::Member(Box::new(lower_expr(cat, known, &**recv)), f.clone()),
        Expr::Template(parts, interps) => {
            let mut ps: Vec<String> = Vec::new();
            for j in 0..parts.len()
                invariant
                    ps@.len() == j,
                    forall|k: int| 0 <= k < j ==> ps@[k]@ == parts@[k]@,
            {
                ps.push(parts[j].clone());
            }
            let r = JsExpr::Template(ps, lower_args(cat, known, interps));
            proof {
                assert(ps@.map_values(|p: String| p@) =~= parts@.map_values(|p: String| p@));
            }
            r
        },
        Expr::Closure(_by_move, _captures, body) => JsExpr::Arrow(lower_block(cat, known, body)),
        Expr::OptionMatch(scrut, bind, some_arm, none_arm) => {
            let tmp = match_tmp(cat, bind);
            let stmt = JsStmt::MatchNull(
                tmp,
                lower_expr(cat, known, &**scrut),
                Some(emit_name(cat, bind)),
                value_block(cat, known, some_arm),
                value_block(cat, known, none_arm),
            );
            let mut stmts: Vec<JsStmt> = Vec::new();
            stmts.push(stmt);
            proof {
                jsstmts_view_props(stmts@);
                assert(jsstmts_view(stmts@) =~= seq![
                    JsStmtS::MatchNull(
                        match_tmp_s(*cat, bind@),
                        lower_expr_s(*cat, names_view(known@), **scrut),
                        Some(emit_name_s(*cat, bind@)),
                        value_block_s(*cat, names_view(known@), *some_arm),
                        value_block_s(*cat, names_view(known@), *none_arm),
                    ),
                ]);
            }
            let blk = JsBlock { stmts };
            proof {
                assert(jsblock_view(blk).stmts =~= seq![
                    JsStmtS::MatchNull(
                        match_tmp_s(*cat, bind@),
                        lower_expr_s(*cat, names_view(known@), **scrut),
                        Some(emit_name_s(*cat, bind@)),
                        value_block_s(*cat, names_view(known@), *some_arm),
                        value_block_s(*cat, names_view(known@), *none_arm),
                    ),
                ]);
            }
            JsExpr::Iife(blk)
        },
        Expr::NewShared(inner) => JsExpr::NewMutex(Box::new(lower_expr(cat, known, &**inner))),
        Expr::Acquire(inner) => {
            let args: Vec<JsExpr> = Vec::new();
            proof {
                assert(jsexprs_view(args@) =~= Seq::<JsExprS>::empty());
            }
            JsExpr::Method(
                Box::new(lower_expr(cat, known, &**inner)),
                String::from_str("lock"),
                args,
            )
        },
        Expr::CloneHandle(inner) => lower_expr(cat, known, &**inner),
        Expr::NewHostObject(class, args) => JsExpr::NewObject(
            class.clone(),
            lower_args(cat, known, args),
        ),
    }
}

/// Lowers an argument list, keeping source order.
fn lower_args(cat: &HostCatalog, known: &Vec<String>, es: &Vec<Expr>) -> (r: Vec<JsExpr>)
    ensures
        jsexprs_view(r@) == lower_args_s(*cat, names_view(known@), es@, 0),
    decreases es@,
{
    let mut out: Vec<JsExpr> = Vec::new();
    for j in 0..es.len()
        invariant
            out@.len() == j,
            forall|k: int|
                0 <= k < j ==> jsexpr_view(out@[k]) == lower_expr_s(
                    *cat,
                    names_view(known@),
                    es@[k],
                ),
        decreases es@, es@.len() - j,
    {
        let e = lower_expr(cat, known, &es[j]);
        out.push(e);
    }
    proof {
        jsexprs_view_props(out@);
        lower_args_s_props(*cat, names_view(known@), es@, 0);
        assert(jsexprs_view(out@) =~= lower_args_s(*cat, names_view(known@), es@, 0));
    }
    out
}

/// Lowers one source statement.
pub fn lower_stmt(cat: &HostCatalog, known: &Vec<String>, s: &Stmt) -> (r: JsStmt)
    ensures
        jsstmt_view(r) == lower_stmt_s(*cat, names_view(known@), *s),
    decreases *s, 0int,
{
    match s {
        Stmt::Let(x, _is_conditional_value, e) => JsStmt::VarDecl(
            emit_name(cat, x),
            lower_expr(cat, known, e),
        ),
        Stmt::ExprStmt(e) => JsStmt::Expr(lower_expr(cat, known, e)),
        Stmt::Assign(x, op, e) => JsStmt::Assign(
            emit_name(cat, x),
            assign_op_map(op),
            lower_expr(cat, known, e),
        ),
        Stmt::While(c, body) => JsStmt::While(
            lower_expr(cat, known, c),
            lower_block(cat, known, body),
        ),
        Stmt::ForEach(idx, x, iter, body) => JsStmt::ForOf(
            match idx {
                Some(i) => Some(emit_name(cat, i)),
                None => None,
            },
            emit_name(cat, x),
            lower_expr(cat, known, iter),
            lower_block(cat, known, body),
        ),
        Stmt::IfMatch(kind, scrut, arm1, arm2) => match kind {
            MatchKind::Truth => JsStmt::If(
                lower_expr(cat, known, scrut),
                lower_block(cat, known, arm1),
                lower_block(cat, known, arm2),
            ),
            MatchKind::Presence(bind) => JsStmt::MatchNull(
                match_tmp(cat, bind),
                lower_expr(cat, known, scrut),
                Some(emit_name(cat, bind)),
                lower_block(cat, known, arm1),
                lower_block(cat, known, arm2),
            ),
        },
        Stmt::Return(e) => JsStmt::Return(
            match e {
                Some(e) => Some(lower_expr(cat, known, e)),
                None => None,
            },
        ),
    }
}

/// Lowers a block statement by statement, in order.
#[verifier::rlimit(50)]
pub fn lower_block(cat: &HostCatalog, known: &Vec<String>, b: &Block) -> (r: JsBlock)
    ensures
        jsblock_view(r) == lower_block_s(*cat, names_view(known@), *b),
    decreases *b, 0int,
{
    let mut out: Vec<JsStmt> = Vec::new();
    for j in 0..b.stmts.len()
        invariant
            out@.len() == j,
            forall|k: int|
                0 <= k < j ==> jsstmt_view(out@[k]) == lower_stmt_s(
                    *cat,
                    names_view(known@),
                    b.stmts@[k],
                ),
        decreases *b, b.stmts@.len() - j,
    {
        let s = lower_stmt(cat, known, &b.stmts[j]);
        out.push(s);
    }
    proof {
        jsstmts_view_props(out@);
        lower_stmts_s_props(*cat, names_view(known@), b.stmts@, 0);
        assert(jsstmts_view(out@) =~= lower_stmts_s(*cat, names_view(known@), b.stmts@, 0));
    }
    JsBlock { stmts: out }
}

/// Lowers a match arm in value position; see `value_block_s`.
fn value_block(cat: &HostCatalog, known: &Vec<String>, b: &Block) -> (r: JsBlock)
    ensures
        jsblock_view(r) == value_block_s(*cat, names_view(known@), *b),
    decreases *b, 1int,
{
    let n = b.stmts.len();
    let trailing_expr = n > 0 && (matches!(&b.stmts[n - 1], Stmt::ExprStmt(_)));
    if !trailing_expr {
        return lower_block(cat, known, b);
    }
    let mut out: Vec<JsStmt> = Vec::new();
    for j in 0..n - 1
        invariant
            n == b.stmts@.len(),
            n > 0,
            out@.len() == j,
            forall|k: int|
                0 <= k < j ==> jsstmt_view(out@[k]) == lower_stmt_s(
                    *cat,
                    names_view(known@),
                    b.stmts@[k],
                ),
        decreases *b, b.stmts@.len() - j,
    {
        let s = lower_stmt(cat, known, &b.stmts[j]);
        out.push(s);
    }
    match &b.stmts[n - 1] {
        Stmt::ExprStmt(e) => {
            let last = JsStmt::Return(Some(lower_expr(cat, known, e)));
            out.push(last);
            proof {
                jsstmts_view_props(out@);
                lower_stmts_s_props(*cat, names_view(known@), b.stmts@.subrange(0, n - 1), 0);
                assert(forall|k: int|
                    0 <= k < n - 1 ==> b.stmts@.subrange(0, n - 1)[k] == b.stmts@[k]);
                assert(jsstmts_view(out@) =~= lower_stmts_s(
                    *cat,
                    names_view(known@),
                    b.stmts@.subrange(0, n - 1),
                    0,
                ) + seq![JsStmtS::Return(Some(lower_expr_s(*cat, names_view(known@), *e)))]);
            }
        },
        _ => {
            proof {
                assert(false);
            }
        },
    }
    JsBlock { stmts: out }
}

/// Lowers one annotated function to a target function declaration.  The
/// function name is kept exactly; parameters are user symbols.
pub fn lower_function(cat: &HostCatalog, known: &Vec<String>, f: &AnnotatedFunction) -> (r:
    JsFunction)
    ensures
        jsfunction_view(r) == lower_function_s(*cat, names_view(known@), *f),
{
    let mut params: Vec<String> = Vec::new();
    for j in 0..f.params.len()
        invariant
            params@.len() == j,
            forall|k: int| 0 <= k < j ==> params@[k]@ == emit_name_s(*cat, f.params@[k].name@),
    {
        params.push(emit_name(cat, &f.params[j].name));
    }
    let body = lower_block(cat, known, &f.body);
    let r = JsFunction { name: f.name.clone(), params, body };
    proof {
        assert(r.params@.map_values(|p: String| p@) =~= f.params@.map_values(
            |p: Param| emit_name_s(*cat, p.name@),
        ));
    }
    r
}

/// Law: a lowered call keeps its arguments in source order.  For a
/// two-argument call the rendered text is the callee, an opening
/// parenthesis, the first argument's full text, a comma, the second
/// argument's full text and the closing parenthesis — so the first
/// argument stands strictly before the second in the output, whatever
/// order the engine traversed them in.
pub proof fn lemma_call_argument_order(
    cat: HostCatalog,
    known: Seq<Seq<char>>,
    e: Expr,
    f: String,
    args: Vec<Expr>,
)
    requires
        e == Expr::Call(f, args),
        args@.len() == 2,
    ensures
        render_expr_s(lower_expr_s(cat, known, e)) == callee_name_s(cat, known, f@) + "("@
            + render_expr_s(lower_expr_s(cat, known, args@[0])) + ", "@ + render_expr_s(
            lower_expr_s(cat, known, args@[1]),
        ) + ")"@,
{
    lower_args_s_props(cat, known, args@, 0);
    let low = lower_args_s(cat, known, args@, 0);
    assert(low.len() == 2);
    assert(render_args_s(low, 0) == render_expr_s(low[0]) + ", "@ + render_args_s(low, 1));
    assert(render_args_s(low, 1) == render_expr_s(low[1]));
    assert(render_expr_s(lower_expr_s(cat, known, e)) =~= callee_name_s(cat, known, f@) + "("@
        + render_expr_s(lower_expr_s(cat, known, args@[0])) + ", "@ + render_expr_s(
        lower_expr_s(cat, known, args@[1]),
    ) + ")"@);
}

} // verus!
