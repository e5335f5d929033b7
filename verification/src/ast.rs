//! The intermediate representation handed over by the front end: one
//! `AnnotatedFunction` per marked source definition, made of blocks,
//! statements and expressions.  The engine consumes these trees and never
//! mutates them.

use vstd::prelude::*;

verus! {

/// A literal value appearing in source text.
pub enum Lit {
    Int(i64),
    Bool(bool),
    /// A string literal; the text is emitted between double quotes as it
    /// stands, so it must not itself contain a double quote or backslash
    /// (the front end guarantees this for the corpus handled here).
    Str(String),
}

/// Infix operators carried over structurally; source arithmetic is assumed
/// directly compatible with the target's numeric semantics.
pub enum BinOp {
    Add,
    Sub,
    Mul,
    Le,
    Lt,
    Ge,
    Gt,
    Eq,
    Ne,
    And,
    Or,
}

/// Compound assignment forms usable in statement position.
pub enum AssignOp {
    Plain,
    AddBy,
    SubBy,
    MulBy,
}

/// Whether a statement-position match scrutinises a boolean or the
/// presence of an optional value (binding the unwrapped value by name).
pub enum MatchKind {
    Truth,
    Presence(String),
}

/// A source expression.  `Acquire` and `CloneHandle` are the two operations
/// on shared-mutable handles; the front end resolves them by value
/// provenance before the tree reaches the engine.
pub enum Expr {
    Lit(Lit),
    Var(String),
    Binary(BinOp, Box<Expr>, Box<Expr>),
    Call(String, Vec<Expr>),
    MethodCall(Box<Expr>, String, Vec<Expr>),
    Field(Box<Expr>, String),
    /// Interpolated string: `parts` has one more element than `interps`,
    /// and the pieces alternate starting and ending with a literal part.
    Template(Vec<String>, Vec<Expr>),
    /// An anonymous function; `true` means the captures are taken by move.
    Closure(bool, Vec<String>, Block),
    /// A value-position match on presence: scrutinee, binding name for the
    /// present value, presence arm, absence arm.
    OptionMatch(Box<Expr>, String, Block, Block),
    /// Wraps the inner value in a shared-mutable handle.
    NewShared(Box<Expr>),
    /// Reads the value behind a shared-mutable handle.
    Acquire(Box<Expr>),
    /// Copies a shared-mutable handle; both copies refer to the same cell.
    CloneHandle(Box<Expr>),
    /// Constructs a host object, e.g. a network-request object.
    NewHostObject(String, Vec<Expr>),
}

/// A source statement.
pub enum Stmt {
    /// `Let(name, is_conditional_value, value)`: a binding; the flag marks
    /// an initializer that is itself a value-producing match.
    Let(String, bool, Expr),
    ExprStmt(Expr),
    Assign(String, AssignOp, Expr),
    While(Expr, Block),
    /// `ForEach(index_binding, element_binding, iterable, body)`.
    ForEach(Option<String>, String, Expr, Block),
    /// A statement-position two-armed match; see `MatchKind`.
    IfMatch(MatchKind, Expr, Block, Block),
    Return(Option<Expr>),
}

/// An ordered sequence of statements owning its bindings.
pub struct Block {
    pub stmts: Vec<Stmt>,
}

/// A declared parameter: name and type tag as written in source.
pub struct Param {
    pub name: String,
    pub ty: String,
}

/// One annotated source function: the engine's unit of work.
pub struct AnnotatedFunction {
    pub name: String,
    pub params: Vec<Param>,
    pub body: Block,
}

} // verus!
