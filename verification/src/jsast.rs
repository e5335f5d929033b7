//! The target-language syntax tree the lowering engine produces, together
//! with a ghost mirror (`*S` types) used by the contracts: the mirror holds
//! character sequences instead of `String`s, so specification functions can
//! build and compare trees freely.

use vstd::prelude::*;

verus! {

/// Target infix operators.  `Eq`/`Ne` render as the strict forms.
pub enum JsOp {
    Add,
    Sub,
    Mul,
    Le,
    Lt,
    Ge,
    Gt,
    Eq,
    Ne,
    And,
    Or,
}

/// Target compound-assignment operators.
pub enum JsAssignOp {
    Plain,
    AddBy,
    SubBy,
    MulBy,
}

/// A target expression.
pub enum JsExpr {
    Num(i64),
    Bool(bool),
    Str(String),
    Null,
    Var(String),
    Infix(JsOp, Box<JsExpr>, Box<JsExpr>),
    Call(String, Vec<JsExpr>),
    Method(Box<JsExpr>, String, Vec<JsExpr>),
    Member(Box<JsExpr>, String),
    /// Template literal; `parts` has one more element than `interps`.
    Template(Vec<String>, Vec<JsExpr>),
    /// A parameterless arrow function.
    Arrow(JsBlock),
    /// An immediately invoked parameterless arrow function.
    Iife(JsBlock),
    /// Constructs the shared-mutable shim around the inner value.
    NewMutex(Box<JsExpr>),
    /// Constructs a host object by class name.
    NewObject(String, Vec<JsExpr>),
}

/// A target statement.
pub enum JsStmt {
    VarDecl(String, JsExpr),
    Expr(JsExpr),
    Assign(String, JsAssignOp, JsExpr),
    While(JsExpr, JsBlock),
    If(JsExpr, JsBlock, JsBlock),
    /// A presence match: the scrutinee is evaluated once into `tmp`, then
    /// the non-null branch (optionally binding `bind` to the value) or the
    /// null branch runs.
    MatchNull(String, JsExpr, Option<String>, JsBlock, JsBlock),
    /// `ForOf(index_binding, element_binding, iterable, body)`.
    ForOf(Option<String>, String, JsExpr, JsBlock),
    Return(Option<JsExpr>),
}

/// An ordered sequence of target statements.
pub struct JsBlock {
    pub stmts: Vec<JsStmt>,
}

/// A named target function declaration.
pub struct JsFunction {
    pub name: String,
    pub params: Vec<String>,
    pub body: JsBlock,
}

/// Ghost mirror of `JsExpr`.
pub enum JsExprS {
    Num(int),
    Bool(bool),
    Str(Seq<char>),
    Null,
    Var(Seq<char>),
    Infix(JsOp, Box<JsExprS>, Box<JsExprS>),
    Call(Seq<char>, Seq<JsExprS>),
    Method(Box<JsExprS>, Seq<char>, Seq<JsExprS>),
    Member(Box<JsExprS>, Seq<char>),
    Template(Seq<Seq<char>>, Seq<JsExprS>),
    Arrow(JsBlockS),
    Iife(JsBlockS),
    NewMutex(Box<JsExprS>),
    NewObject(Seq<char>, Seq<JsExprS>),
}

/// Ghost mirror of `JsStmt`.
pub enum JsStmtS {
    VarDecl(Seq<char>, JsExprS),
    Expr(JsExprS),
    Assign(Seq<char>, JsAssignOp, JsExprS),
    While(JsExprS, JsBlockS),
    If(JsExprS, JsBlockS, JsBlockS),
    MatchNull(Seq<char>, JsExprS, Option<Seq<char>>, JsBlockS, JsBlockS),
    ForOf(Option<Seq<char>>, Seq<char>, JsExprS, JsBlockS),
    Return(Option<JsExprS>),
}

/// Ghost mirror of `JsBlock`.
pub struct JsBlockS {
    pub stmts: Seq<JsStmtS>,
}

/// Ghost mirror of `JsFunction`.
pub struct JsFunctionS {
    pub name: Seq<char>,
    pub params: Seq<Seq<char>>,
    pub body: JsBlockS,
}

/// The ghost tree an executable target expression stands for.
pub open spec fn jsexpr_view(e: JsExpr) -> JsExprS
    decreases e,
{
    match e {
        JsExpr::Num(n) => JsExprS::Num(n as int),
        JsExpr::Bool(b) => JsExprS::Bool(b),
        JsExpr::Str(s) => JsExprS::Str(s@),
        JsExpr::Null => JsExprS::Null,
        JsExpr::Var(x) => JsExprS::Var(x@),
        JsExpr::Infix(op, l, r) => JsExprS::Infix(
            op,
            Box::new(jsexpr_view(*l)),
            Box::new(jsexpr_view(*r)),
        ),
        JsExpr::Call(f, args) => JsExprS::Call(f@, jsexprs_view(args@)),
        JsExpr::Method(recv, m, args) => JsExprS::Method(
            Box::new(jsexpr_view(*recv)),
            m@,
            jsexprs_view(args@),
        ),
        JsExpr::Member(recv, f) => JsExprS::Member(Box::new(jsexpr_view(*recv)), f@),
        JsExpr::Template(parts, interps) => JsExprS::Template(
            parts@.map_values(|p: String| p@),
            jsexprs_view(interps@),
        ),
        JsExpr::Arrow(body) => JsExprS::Arrow(jsblock_view(body)),
        JsExpr::Iife(body) => JsExprS::Iife(jsblock_view(body)),
        JsExpr::NewMutex(inner) => JsExprS::NewMutex(Box::new(jsexpr_view(*inner))),
        JsExpr::NewObject(class, args) => JsExprS::NewObject(class@, jsexprs_view(args@)),
    }
}

pub open spec fn jsexprs_view(es: Seq<JsExpr>) -> Seq<JsExprS>
    decreases es,
{
    if es.len() == 0 {
        Seq::empty()
    } else {
        seq![jsexpr_view(es[0])] + jsexprs_view(es.drop_first())
    }
}

pub open spec fn jsstmt_view(s: JsStmt) -> JsStmtS
    decreases s,
{
    match s {
        JsStmt::VarDecl(x, e) => JsStmtS::VarDecl(x@, jsexpr_view(e)),
        JsStmt::Expr(e) => JsStmtS::Expr(jsexpr_view(e)),
        JsStmt::Assign(x, op, e) => JsStmtS::Assign(x@, op, jsexpr_view(e)),
        JsStmt::While(c, body) => JsStmtS::While(jsexpr_view(c), jsblock_view(body)),
        JsStmt::If(c, t, f) => JsStmtS::If(jsexpr_view(c), jsblock_view(t), jsblock_view(f)),
        JsStmt::MatchNull(tmp, scrut, bind, some_arm, none_arm) => JsStmtS::MatchNull(
            tmp@,
            jsexpr_view(scrut),
            match bind {
                Some(b) => Some(b@),
                None => None,
            },
            jsblock_view(some_arm),
            jsblock_view(none_arm),
        ),
        JsStmt::ForOf(idx, x, iter, body) => JsStmtS::ForOf(
            match idx {
                Some(i) => Some(i@),
                None => None,
            },
            x@,
            jsexpr_view(iter),
            jsblock_view(body),
        ),
        JsStmt::Return(e) => JsStmtS::Return(
            match e {
                Some(e) => Some(jsexpr_view(e)),
                None => None,
            },
        ),
    }
}

pub open spec fn jsstmts_view(ss: Seq<JsStmt>) -> Seq<JsStmtS>
    decreases ss,
{
    if ss.len() == 0 {
        Seq::empty()
    } else {
        seq![jsstmt_view(ss[0])] + jsstmts_view(ss.drop_first())
    }
}

pub open spec fn jsblock_view(b: JsBlock) -> JsBlockS
    decreases b,
{
    JsBlockS { stmts: jsstmts_view(b.stmts@) }
}

/// The elementwise reading of `jsexprs_view`.
pub proof fn jsexprs_view_props(es: Seq<JsExpr>)
    ensures
        jsexprs_view(es).len() == es.len(),
        forall|i: int| 0 <= i < es.len() ==> jsexprs_view(es)[i] == jsexpr_view(es[i]),
    decreases es,
{
    if es.len() > 0 {
        jsexprs_view_props(es.drop_first());
        assert forall|i: int| 0 <= i < es.len() implies jsexprs_view(es)[i] == jsexpr_view(
            es[i],
        ) by {
            if i > 0 {
                assert(es.drop_first()[i - 1] == es[i]);
            }
        }
    }
}

/// The elementwise reading of `jsstmts_view`.
pub proof fn jsstmts_view_props(ss: Seq<JsStmt>)
    ensures
        jsstmts_view(ss).len() == ss.len(),
        forall|i: int| 0 <= i < ss.len() ==> jsstmts_view(ss)[i] == jsstmt_view(ss[i]),
    decreases ss,
{
    if ss.len() > 0 {
        jsstmts_view_props(ss.drop_first());
        assert forall|i: int| 0 <= i < ss.len() implies jsstmts_view(ss)[i] == jsstmt_view(
            ss[i],
        ) by {
            if i > 0 {
                assert(ss.drop_first()[i - 1] == ss[i]);
            }
        }
    }
}

pub open spec fn jsfunction_view(f: JsFunction) -> JsFunctionS {
    JsFunctionS {
        name: f.name@,
        params: f.params@.map_values(|p: String| p@),
        body: jsblock_view(f.body),
    }
}

} // verus!
