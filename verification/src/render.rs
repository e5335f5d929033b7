//! The renderer: turns a target syntax tree into program text.  The
//! specification functions define the text character by character over the
//! ghost tree; the executable functions produce exactly that text, so the
//! output is a function of the tree alone and two renderings of equal trees
//! are byte-identical.

use vstd::prelude::*;

use crate::jsast::{
    jsblock_view, jsexpr_view, jsexprs_view, jsexprs_view_props, jsfunction_view, jsstmt_view,
    jsstmts_view, jsstmts_view_props, JsAssignOp, JsBlock, JsBlockS, JsExpr, JsExprS, JsFunction,
    JsFunctionS, JsOp, JsStmt, JsStmtS,
};
use crate::text::{dec_int, dec_of_i64};

verus! {

/// The spelling of an infix operator.
pub open spec fn op_text(op: JsOp) -> Seq<char> {
    match op {
        JsOp::Add => "+"@,
        JsOp::Sub => "-"@,
        JsOp::Mul => "*"@,
        JsOp::Le => "<="@,
        JsOp::Lt => "<"@,
        JsOp::Ge => ">="@,
        JsOp::Gt => ">"@,
        JsOp::Eq => "==="@,
        JsOp::Ne => "!=="@,
        JsOp::And => "&&"@,
        JsOp::Or => "||"@,
    }
}

/// The spelling of an assignment operator.
pub open spec fn assign_op_text(op: JsAssignOp) -> Seq<char> {
    match op {
        JsAssignOp::Plain => "="@,
        JsAssignOp::AddBy => "+="@,
        JsAssignOp::SubBy => "-="@,
        JsAssignOp::MulBy => "*="@,
    }
}

pub open spec fn part_at(parts: Seq<Seq<char>>, i: int) -> Seq<char> {
    if 0 <= i < parts.len() {
        parts[i]
    } else {
        Seq::empty()
    }
}

/// The text of a target expression.  Every infix application is
/// parenthesised, so the printed evaluation order is the tree's order.
pub open spec fn render_expr_s(e: JsExprS) -> Seq<char>
    decreases e, 0int,
{
    match e {
        JsExprS::Num(n) => dec_int(n),
        JsExprS::Bool(b) => if b {
            "true"@
        } else {
            "false"@
        },
        JsExprS::Str(s) => "\""@ + s + "\""@,
        JsExprS::Null => "null"@,
        JsExprS::Var(x) => x,
        JsExprS::Infix(op, l, r) => "("@ + render_expr_s(*l) + " "@ + op_text(op) + " "@
            + render_expr_s(*r) + ")"@,
        JsExprS::Call(f, args) => f + "("@ + render_args_s(args, 0) + ")"@,
        JsExprS::Method(recv, m, args) => render_expr_s(*recv) + "."@ + m + "("@ + render_args_s(
            args,
            0,
        ) + ")"@,
        JsExprS::Member(recv, f) => render_expr_s(*recv) + "."@ + f,
        JsExprS::Template(parts, interps) => "`"@ + render_template_s(parts, interps, 0) + "`"@,
        JsExprS::Arrow(body) => "() => {\n"@ + render_block_s(body) + "}"@,
        JsExprS::Iife(body) => "(() => {\n"@ + render_block_s(body) + "})()"@,
        JsExprS::NewMutex(inner) => "new Mutex("@ + render_expr_s(*inner) + ")"@,
        JsExprS::NewObject(class, args) => "new "@ + class + "("@ + render_args_s(args, 0) + ")"@,
    }
}

/// The argument list from position `i` on, joined by a comma and a space:
/// arguments appear left to right, each fully rendered before the next.
pub open spec fn render_args_s(es: Seq<JsExprS>, i: int) -> Seq<char>
    decreases es, es.len() - i,
{
    if i < 0 || i >= es.len() {
        Seq::empty()
    } else if i == es.len() - 1 {
        render_expr_s(es[i])
    } else {
        render_expr_s(es[i]) + ", "@ + render_args_s(es, i + 1)
    }
}

/// Template pieces from position `i` on: literal parts and interpolations
/// alternate in their original order.
pub open spec fn render_template_s(parts: Seq<Seq<char>>, interps: Seq<JsExprS>, i: int) -> Seq<
    char,
>
    decreases interps, interps.len() - i,
{
    if 0 <= i < interps.len() {
        part_at(parts, i) + "${"@ + render_expr_s(interps[i]) + "}"@ + render_template_s(
            parts,
            interps,
            i + 1,
        )
    } else {
        part_at(parts, i)
    }
}

/// The text of a target statement, ending in a newline.
pub open spec fn render_stmt_s(s: JsStmtS) -> Seq<char>
    decreases s, 0int,
{
    match s {
        JsStmtS::VarDecl(x, e) => "let "@ + x + " = "@ + render_expr_s(e) + ";\n"@,
        JsStmtS::Expr(e) => render_expr_s(e) + ";\n"@,
        JsStmtS::Assign(x, op, e) => x + " "@ + assign_op_text(op) + " "@ + render_expr_s(e)
            + ";\n"@,
        JsStmtS::While(c, body) => "while ("@ + render_expr_s(c) + ") {\n"@ + render_block_s(body)
            + "}\n"@,
        JsStmtS::If(c, t, f) => "if ("@ + render_expr_s(c) + ") {\n"@ + render_block_s(t)
            + "} else {\n"@ + render_block_s(f) + "}\n"@,
        JsStmtS::MatchNull(tmp, scrut, bind, some_arm, none_arm) => "var "@ + tmp + " = "@
            + render_expr_s(scrut) + ";\n"@ + "if ("@ + tmp + " !== null) {\n"@ + (match bind {
            Some(b) => "let "@ + b + " = "@ + tmp + ";\n"@,
            None => Seq::empty(),
        }) + render_block_s(some_arm) + "} else {\n"@ + render_block_s(none_arm) + "}\n"@,
        JsStmtS::ForOf(idx, x, iter, body) => match idx {
            None => "for (const "@ + x + " of "@ + render_expr_s(iter) + ") {\n"@ + render_block_s(
                body,
            ) + "}\n"@,
            Some(i) => render_expr_s(iter) + ".forEach(("@ + x + ", "@ + i + ") => {\n"@
                + render_block_s(body) + "});\n"@,
        },
        JsStmtS::Return(e) => match e {
            None => "return;\n"@,
            Some(e) => "return "@ + render_expr_s(e) + ";\n"@,
        },
    }
}

/// The statements from position `i` on, concatenated in order.
pub open spec fn render_stmts_s(ss: Seq<JsStmtS>, i: int) -> Seq<char>
    decreases ss, ss.len() - i,
{
    if 0 <= i < ss.len() {
        render_stmt_s(ss[i]) + render_stmts_s(ss, i + 1)
    } else {
        Seq::empty()
    }
}

/// The text of a block: its statements in order.
pub open spec fn render_block_s(b: JsBlockS) -> Seq<char>
    decreases b, 0int,
{
    render_stmts_s(b.stmts, 0)
}

/// The parameter list from position `i` on, joined by a comma and a space.
pub open spec fn render_params_s(ps: Seq<Seq<char>>, i: int) -> Seq<char>
    decreases ps.len() - i,
{
    if i < 0 || i >= ps.len() {
        Seq::empty()
    } else if i == ps.len() - 1 {
        ps[i]
    } else {
        ps[i] + ", "@ + render_params_s(ps, i + 1)
    }
}

/// The text of a named function declaration.
pub open spec fn render_function_s(f: JsFunctionS) -> Seq<char> {
    "function "@ + f.name + "("@ + render_params_s(f.params, 0) + ") {\n"@ + render_block_s(f.body)
        + "}"@
}

fn op_str(op: &JsOp) -> (r: &'static str)
    ensures
        r@ == op_text(*op),
{
    match op {
        JsOp::Add => "+",
        JsOp::Sub => "-",
        JsOp::Mul => "*",
        JsOp::Le => "<=",
        JsOp::Lt => "<",
        JsOp::Ge => ">=",
        JsOp::Gt => ">",
        JsOp::Eq => "===",
        JsOp::Ne => "!==",
        JsOp::And => "&&",
        JsOp::Or => "||",
    }
}

fn assign_op_str(op: &JsAssignOp) -> (r: &'static str)
    ensures
        r@ == assign_op_text(*op),
{
    match op {
        JsAssignOp::Plain => "=",
        JsAssignOp::AddBy => "+=",
        JsAssignOp::SubBy => "-=",
        JsAssignOp::MulBy => "*=",
    }
}

/// Renders one target expression.
pub fn render_expr(e: &JsExpr) -> (r: String)
    ensures
        r@ == render_expr_s(jsexpr_view(*e)),
    decreases *e, 0int,
{
    match e {
        JsExpr::Num(n) => dec_of_i64(*n),
        JsExpr::Bool(b) => if *b {
            String::from_str("true")
        } else {
            String::from_str("false")
        },
        JsExpr::Str(s) => {
            let mut out = String::from_str("\"");
            out.append(s.as_str());
            out.append("\"");
            out
        },
        JsExpr::Null => String::from_str("null"),
        JsExpr::Var(x) => x.clone(),
        JsExpr::Infix(op, l, r) => {
            let mut out = String::from_str("(");
            let lt = render_expr(&**l);
            out.append(lt.as_str());
            out.append(" ");
            out.append(op_str(op));
            out.append(" ");
            let rt = render_expr(&**r);
            out.append(rt.as_str());
            out.append(")");
            out
        },
        JsExpr::Call(f, args) => {
            let mut out = f.clone();
            out.append("(");
            let at = render_args(args, 0);
            out.append(at.as_str());
            out.append(")");
            proof {
                jsexprs_view_props(args@);
            }
            out
        },
        JsExpr::Method(recv, m, args) => {
            let mut out = render_expr(&**recv);
            out.append(".");
            out.append(m.as_str());
            out.append("(");
            let at = render_args(args, 0);
            out.append(at.as_str());
            out.append(")");
            proof {
                jsexprs_view_props(args@);
            }
            out
        },
        JsExpr::Member(recv, f) => {
            let mut out = render_expr(&**recv);
            out.append(".");
            out.append(f.as_str());
            out
        },
        JsExpr::Template(parts, interps) => {
            let mut out = String::from_str("`");
            let tt = render_template(parts, interps, 0);
            out.append(tt.as_str());
            out.append("`");
            out
        },
        JsExpr::Arrow(body) => {
            let mut out = String::from_str("() => {\n");
            let bt = render_block(body);
            out.append(bt.as_str());
            out.append("}");
            out
        },
        JsExpr::Iife(body) => {
            let mut out = String::from_str("(() => {\n");
            let bt = render_block(body);
            out.append(bt.as_str());
            out.append("})()");
            out
        },
        JsExpr::NewMutex(inner) => {
            let mut out = String::from_str("new Mutex(");
            let it = render_expr(&**inner);
            out.append(it.as_str());
            out.append(")");
            out
        },
        JsExpr::NewObject(class, args) => {
            let mut out = String::from_str("new ");
            out.append(class.as_str());
            out.append("(");
            let at = render_args(args, 0);
            out.append(at.as_str());
            out.append(")");
            proof {
                jsexprs_view_props(args@);
            }
            out
        },
    }
}

fn render_args(args: &Vec<JsExpr>, i: usize) -> (r: String)
    requires
        i <= args@.len(),
    ensures
        r@ == render_args_s(jsexprs_view(args@), i as int),
    decreases args@, args@.len() - i,
{
    proof {
        jsexprs_view_props(args@);
    }
    if i >= args.len() {
        String::new()
    } else if i == args.len() - 1 {
        render_expr(&args[i])
    } else {
        let mut out = render_expr(&args[i]);
        out.append(", ");
        let rest = render_args(args, i + 1);
        out.append(rest.as_str());
        out
    }
}

fn render_template(parts: &Vec<String>, interps: &Vec<JsExpr>, i: usize) -> (r: String)
    ensures
        r@ == render_template_s(
            parts@.map_values(|p: String| p@),
            jsexprs_view(interps@),
            i as int,
        ),
    decreases interps@, interps@.len() - i,
{
    proof {
        jsexprs_view_props(interps@);
    }
    let mut out = if i < parts.len() {
        parts[i].clone()
    } else {
        String::new()
    };
    if i < interps.len() {
        out.append("${");
        let et = render_expr(&interps[i]);
        out.append(et.as_str());
        out.append("}");
        let rest = render_template(parts, interps, i + 1);
        out.append(rest.as_str());
    }
    out
}

/// Renders one target statement, ending in a newline.
pub fn render_stmt(s: &JsStmt) -> (r: String)
    ensures
        r@ == render_stmt_s(jsstmt_view(*s)),
    decreases *s, 0int,
{
    match s {
        JsStmt::VarDecl(x, e) => {
            let mut out = String::from_str("let ");
            out.append(x.as_str());
            out.append(" = ");
            let et = render_expr(e);
            out.append(et.as_str());
            out.append(";\n");
            out
        },
        JsStmt::Expr(e) => {
            let mut out = render_expr(e);
            out.append(";\n");
            out
        },
        JsStmt::Assign(x, op, e) => {
            let mut out = x.clone();
            out.append(" ");
            out.append(assign_op_str(op));
            out.append(" ");
            let et = render_expr(e);
            out.append(et.as_str());
            out.append(";\n");
            out
        },
        JsStmt::While(c, body) => {
            let mut out = String::from_str("while (");
            let ct = render_expr(c);
            out.append(ct.as_str());
            out.append(") {\n");
            let bt = render_block(body);
            out.append(bt.as_str());
            out.append("}\n");
            out
        },
        JsStmt::If(c, t, f) => {
            let mut out = String::from_str("if (");
            let ct = render_expr(c);
            out.append(ct.as_str());
            out.append(") {\n");
            let tt = render_block(t);
            out.append(tt.as_str());
            out.append("} else {\n");
            let ft = render_block(f);
            out.append(ft.as_str());
            out.append("}\n");
            out
        },
        JsStmt::MatchNull(tmp, scrut, bind, some_arm, none_arm) => {
            let mut out = String::from_str("var ");
            out.append(tmp.as_str());
            out.append(" = ");
            let st = render_expr(scrut);
            out.append(st.as_str());
            out.append(";\n");
            out.append("if (");
            out.append(tmp.as_str());
            out.append(" !== null) {\n");
            match bind {
                Some(b) => {
                    out.append("let ");
                    out.append(b.as_str());
                    out.append(" = ");
                    out.append(tmp.as_str());
                    out.append(";\n");
                },
                None => {},
            }
            let at = render_block(some_arm);
            out.append(at.as_str());
            out.append("} else {\n");
            let nt = render_block(none_arm);
            out.append(nt.as_str());
            out.append("}\n");
            out
        },
        JsStmt::ForOf(idx, x, iter, body) => {
            match idx {
                None => {
                    let mut out = String::from_str("for (const ");
                    out.append(x.as_str());
                    out.append(" of ");
                    let it = render_expr(iter);
                    out.append(it.as_str());
                    out.append(") {\n");
                    let bt = render_block(body);
                    out.append(bt.as_str());
                    out.append("}\n");
                    out
                },
                Some(i) => {
                    let mut out = render_expr(iter);
                    out.append(".forEach((");
                    out.append(x.as_str());
                    out.append(", ");
                    out.append(i.as_str());
                    out.append(") => {\n");
                    let bt = render_block(body);
                    out.append(bt.as_str());
                    out.append("});\n");
                    out
                },
            }
        },
        JsStmt::Return(e) => {
            match e {
                None => String::from_str("return;\n"),
                Some(e) => {
                    let mut out = String::from_str("return ");
                    let et = render_expr(e);
                    out.append(et.as_str());
                    out.append(";\n");
                    out
                },
            }
        },
    }
}

fn render_stmts(ss: &Vec<JsStmt>, i: usize) -> (r: String)
    ensures
        r@ == render_stmts_s(jsstmts_view(ss@), i as int),
    decreases ss@, ss@.len() - i,
{
    proof {
        jsstmts_view_props(ss@);
    }
    if i < ss.len() {
        let mut out = render_stmt(&ss[i]);
        let rest = render_stmts(ss, i + 1);
        out.append(rest.as_str());
        out
    } else {
        String::new()
    }
}

/// Renders a block: its statements in order, one line each.
pub fn render_block(b: &JsBlock) -> (r: String)
    ensures
        r@ == render_block_s(jsblock_view(*b)),
    decreases *b, 1int,
{
    render_stmts(&b.stmts, 0)
}

fn render_params(ps: &Vec<String>, i: usize) -> (r: String)
    ensures
        r@ == render_params_s(ps@.map_values(|p: String| p@), i as int),
    decreases ps@.len() - i,
{
    if i >= ps.len() {
        String::new()
    } else if i == ps.len() - 1 {
        ps[i].clone()
    } else {
        let mut out = ps[i].clone();
        out.append(", ");
        let rest = render_params(ps, i + 1);
        out.append(rest.as_str());
        out
    }
}

/// Renders a named function declaration.
pub fn render_function(f: &JsFunction) -> (r: String)
    ensures
        r@ == render_function_s(jsfunction_view(*f)),
{
    let mut out = String::from_str("function ");
    out.append(f.name.as_str());
    out.append("(");
    let pt = render_params(&f.params, 0);
    out.append(pt.as_str());
    out.append(") {\n");
    let bt = render_block(&f.body);
    out.append(bt.as_str());
    out.append("}");
    out
}

} // verus!
