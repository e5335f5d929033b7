//! An evaluator for the lowered trees: the executable model of the
//! single-threaded target runtime.  A machine holds an environment of
//! bindings, a heap of shared-mutable cells, and the trace of values the
//! console received.  Evaluation is fuel-bounded: a run that exhausts its
//! fuel reports so instead of diverging.  Host-facing forms the model
//! does not interpret (arrow values handed to the host, member reads,
//! template strings) report `Unsupported` rather than guessing.

use vstd::prelude::*;

use crate::jsast::{
    jsblock_view, jsexpr_view, jsexprs_view, jsexprs_view_props, jsfunction_view, jsstmt_view,
    jsstmts_view, jsstmts_view_props, JsAssignOp, JsBlock, JsExpr, JsExprS, JsFunction,
    JsFunctionS, JsOp, JsStmt, JsStmtS,
};

verus! {

/// A runtime value of the model.
pub enum Value {
    Null,
    Num(i64),
    Bool(bool),
    Str(String),
    /// A shared-mutable handle: the position of its cell in the heap.
    /// Copying a handle copies the position, never the cell.
    Handle(usize),
    Arr(Vec<Value>),
}

/// Ghost mirror of `Value`.
pub enum ValueV {
    Null,
    Num(int),
    Bool(bool),
    Str(Seq<char>),
    Handle(int),
    Arr(Seq<ValueV>),
}

pub open spec fn value_view(v: Value) -> ValueV
    decreases v,
{
    match v {
        Value::Null => ValueV::Null,
        Value::Num(n) => ValueV::Num(n as int),
        Value::Bool(b) => ValueV::Bool(b),
        Value::Str(s) => ValueV::Str(s@),
        Value::Handle(h) => ValueV::Handle(h as int),
        Value::Arr(vs) => ValueV::Arr(values_view(vs@)),
    }
}

pub open spec fn values_view(vs: Seq<Value>) -> Seq<ValueV>
    decreases vs,
{
    if vs.len() == 0 {
        Seq::empty()
    } else {
        seq![value_view(vs[0])] + values_view(vs.drop_first())
    }
}

/// The elementwise reading of `values_view`.
pub proof fn values_view_props(vs: Seq<Value>)
    ensures
        values_view(vs).len() == vs.len(),
        forall|i: int| 0 <= i < vs.len() ==> values_view(vs)[i] == value_view(vs[i]),
    decreases vs,
{
    if vs.len() > 0 {
        values_view_props(vs.drop_first());
        assert forall|i: int| 0 <= i < vs.len() implies values_view(vs)[i] == value_view(
            vs[i],
        ) by {
            if i > 0 {
                assert(vs.drop_first()[i - 1] == vs[i]);
            }
        }
    }
}

/// Ghost reading of an environment.
pub open spec fn env_view(env: Seq<(String, Value)>) -> Seq<(Seq<char>, ValueV)> {
    env.map_values(|b: (String, Value)| (b.0@, value_view(b.1)))
}

/// The elementwise reading of `env_view`.
pub proof fn env_view_props(env: Seq<(String, Value)>)
    ensures
        env_view(env).len() == env.len(),
        forall|i: int|
            0 <= i < env.len() ==> #[trigger] env_view(env)[i] == (env[i].0@, value_view(env[i].1)),
{
}

/// Ghost reading of the function table.
pub open spec fn funcs_view(fs: Seq<JsFunction>) -> Seq<JsFunctionS> {
    fs.map_values(|f: JsFunction| jsfunction_view(f))
}

/// The elementwise reading of `funcs_view`.
pub proof fn funcs_view_props(fs: Seq<JsFunction>)
    ensures
        funcs_view(fs).len() == fs.len(),
        forall|i: int| 0 <= i < fs.len() ==> #[trigger] funcs_view(fs)[i] == jsfunction_view(fs[i]),
{
}

/// The machine the lowered code runs on.
pub struct Machine {
    pub env: Vec<(String, Value)>,
    pub heap: Vec<Value>,
    pub trace: Vec<Value>,
}

/// Ghost mirror of `Machine`.
pub struct MachineV {
    pub env: Seq<(Seq<char>, ValueV)>,
    pub heap: Seq<ValueV>,
    pub trace: Seq<ValueV>,
}

pub open spec fn machine_view(m: Machine) -> MachineV {
    MachineV { env: env_view(m.env@), heap: values_view(m.heap@), trace: values_view(m.trace@) }
}

/// Why an evaluation stopped without a value.
#[derive(Clone, Copy, PartialEq, Eq, Structural, Debug)]
pub enum EvalErr {
    /// A form the model leaves to the host.
    Unsupported,
    /// An operation applied to values of the wrong shape.
    TypeMismatch,
    /// A name with no binding, or a call of no known function.
    UnboundName,
    /// A numeric result outside the model's 64-bit range.
    Arith,
    /// The fuel ran out before the program finished.
    OutOfFuel,
}

/// How a statement finished: fell through, or returned a value.
pub enum Flow {
    Normal,
    Ret(Value),
}

/// Ghost mirror of `Flow`.
pub enum FlowV {
    Normal,
    Ret(ValueV),
}

pub open spec fn flow_view(f: Flow) -> FlowV {
    match f {
        Flow::Normal => FlowV::Normal,
        Flow::Ret(v) => FlowV::Ret(value_view(v)),
    }
}

pub open spec fn val_res_view(r: Result<Value, EvalErr>) -> Result<ValueV, EvalErr> {
    match r {
        Ok(v) => Ok(value_view(v)),
        Err(e) => Err(e),
    }
}

pub open spec fn flow_res_view(r: Result<Flow, EvalErr>) -> Result<FlowV, EvalErr> {
    match r {
        Ok(f) => Ok(flow_view(f)),
        Err(e) => Err(e),
    }
}

/// The innermost binding of `x` among the first `n` entries.
pub open spec fn lookup_env_s(env: Seq<(Seq<char>, ValueV)>, x: Seq<char>, n: int) -> Option<
    ValueV,
>
    decreases n,
{
    if n <= 0 || n > env.len() {
        None
    } else if env[n - 1].0 == x {
        Some(env[n - 1].1)
    } else {
        lookup_env_s(env, x, n - 1)
    }
}

/// The position of the innermost binding of `x`, or -1.
pub open spec fn assign_idx_s(env: Seq<(Seq<char>, ValueV)>, x: Seq<char>, n: int) -> int
    decreases n,
{
    if n <= 0 || n > env.len() {
        -1
    } else if env[n - 1].0 == x {
        n - 1
    } else {
        assign_idx_s(env, x, n - 1)
    }
}

/// The first function of that name.
pub open spec fn lookup_func_s(funcs: Seq<JsFunctionS>, name: Seq<char>, i: int) -> Option<
    JsFunctionS,
>
    decreases funcs.len() - i,
{
    if 0 <= i < funcs.len() {
        if funcs[i].name == name {
            Some(funcs[i])
        } else {
            lookup_func_s(funcs, name, i + 1)
        }
    } else {
        None
    }
}

/// Strict equality of two runtime values; arrays compare by identity the
/// model does not track, so they compare unequal.
pub open spec fn val_eq_s(a: ValueV, b: ValueV) -> bool {
    match (a, b) {
        (ValueV::Null, ValueV::Null) => true,
        (ValueV::Num(x), ValueV::Num(y)) => x == y,
        (ValueV::Bool(x), ValueV::Bool(y)) => x == y,
        (ValueV::Str(x), ValueV::Str(y)) => x == y,
        (ValueV::Handle(x), ValueV::Handle(y)) => x == y,
        _ => false,
    }
}

pub open spec fn in_i64(n: int) -> bool {
    i64::MIN <= n <= i64::MAX
}

/// What one infix operator yields, or why it cannot.
pub open spec fn apply_op_s(op: JsOp, a: ValueV, b: ValueV) -> Result<ValueV, EvalErr> {
    match op {
        JsOp::Add => match (a, b) {
            (ValueV::Num(x), ValueV::Num(y)) => if in_i64(x + y) {
                Ok(ValueV::Num(x + y))
            } else {
                Err(EvalErr::Arith)
            },
            (ValueV::Str(x), ValueV::Str(y)) => Ok(ValueV::Str(x + y)),
            _ => Err(EvalErr::TypeMismatch),
        },
        JsOp::Sub => match (a, b) {
            (ValueV::Num(x), ValueV::Num(y)) => if in_i64(x - y) {
                Ok(ValueV::Num(x - y))
            } else {
                Err(EvalErr::Arith)
            },
            _ => Err(EvalErr::TypeMismatch),
        },
        JsOp::Mul => match (a, b) {
            (ValueV::Num(x), ValueV::Num(y)) => if in_i64(x * y) {
                Ok(ValueV::Num(x * y))
            } else {
                Err(EvalErr::Arith)
            },
            _ => Err(EvalErr::TypeMismatch),
        },
        JsOp::Le => match (a, b) {
            (ValueV::Num(x), ValueV::Num(y)) => Ok(ValueV::Bool(x <= y)),
            _ => Err(EvalErr::TypeMismatch),
        },
        JsOp::Lt => match (a, b) {
            (ValueV::Num(x), ValueV::Num(y)) => Ok(ValueV::Bool(x < y)),
            _ => Err(EvalErr::TypeMismatch),
        },
        JsOp::Ge => match (a, b) {
            (ValueV::Num(x), ValueV::Num(y)) => Ok(ValueV::Bool(x >= y)),
            _ => Err(EvalErr::TypeMismatch),
        },
        JsOp::Gt => match (a, b) {
            (ValueV::Num(x), ValueV::Num(y)) => Ok(ValueV::Bool(x > y)),
            _ => Err(EvalErr::TypeMismatch),
        },
        JsOp::Eq => Ok(ValueV::Bool(val_eq_s(a, b))),
        JsOp::Ne => Ok(ValueV::Bool(!val_eq_s(a, b))),
        JsOp::And => match (a, b) {
            (ValueV::Bool(x), ValueV::Bool(y)) => Ok(ValueV::Bool(x && y)),
            _ => Err(EvalErr::TypeMismatch),
        },
        JsOp::Or => match (a, b) {
            (ValueV::Bool(x), ValueV::Bool(y)) => Ok(ValueV::Bool(x || y)),
            _ => Err(EvalErr::TypeMismatch),
        },
    }
}

/// The parameter bindings of a call, in order.
pub open spec fn bind_params_s(params: Seq<Seq<char>>, vals: Seq<ValueV>, i: int) -> Seq<
    (Seq<char>, ValueV),
>
    decreases params.len() - i,
{
    if 0 <= i < params.len() && i < vals.len() {
        seq![(params[i], vals[i])] + bind_params_s(params, vals, i + 1)
    } else {
        Seq::empty()
    }
}

/// What one target expression evaluates to, and the machine it leaves
/// behind.  Arguments evaluate strictly left to right; `new Mutex`
/// allocates a fresh heap cell and yields its handle; `lock` on a handle
/// reads the cell; `console.log` appends its arguments, in order, to the
/// trace.
pub open spec fn eval_expr_s(
    funcs: Seq<JsFunctionS>,
    m: MachineV,
    e: JsExprS,
    fuel: nat,
) -> (MachineV, Result<ValueV, EvalErr>)
    decreases fuel, 0int,
{
    if fuel == 0 {
        (m, Err(EvalErr::OutOfFuel))
    } else {
        match e {
            JsExprS::Num(n) => (m, Ok(ValueV::Num(n))),
            JsExprS::Bool(b) => (m, Ok(ValueV::Bool(b))),
            JsExprS::Str(s) => (m, Ok(ValueV::Str(s))),
            JsExprS::Null => (m, Ok(ValueV::Null)),
            JsExprS::Var(x) => match lookup_env_s(m.env, x, m.env.len() as int) {
                Some(v) => (m, Ok(v)),
                None => (m, Err(EvalErr::UnboundName)),
            },
            JsExprS::Infix(op, l, r) => {
                let lr = eval_expr_s(funcs, m, *l, (fuel - 1) as nat);
                match lr.1 {
                    Err(err) => (lr.0, Err(err)),
                    Ok(a) => {
                        let rr = eval_expr_s(funcs, lr.0, *r, (fuel - 1) as nat);
                        match rr.1 {
                            Err(err) => (rr.0, Err(err)),
                            Ok(b) => (rr.0, apply_op_s(op, a, b)),
                        }
                    },
                }
            },
            JsExprS::Call(fname, args) => {
                let ar = eval_args_s(funcs, m, args, 0, (fuel - 1) as nat);
                match ar.1 {
                    Err(err) => (ar.0, Err(err)),
                    Ok(vals) => match lookup_func_s(funcs, fname, 0) {
                        None => (ar.0, Err(EvalErr::UnboundName)),
                        Some(f) => if f.params.len() == vals.len() {
                            let inner = MachineV {
                                env: bind_params_s(f.params, vals, 0),
                                heap: ar.0.heap,
                                trace: ar.0.trace,
                            };
                            let br = eval_stmts_s(funcs, inner, f.body.stmts, 0, (fuel - 1) as nat);
                            let out = MachineV { env: ar.0.env, heap: br.0.heap, trace: br.0.trace };
                            match br.1 {
                                Err(err) => (out, Err(err)),
                                Ok(FlowV::Normal) => (out, Ok(ValueV::Null)),
                                Ok(FlowV::Ret(v)) => (out, Ok(v)),
                            }
                        } else {
                            (ar.0, Err(EvalErr::TypeMismatch))
                        },
                    },
                }
            },
            JsExprS::Method(recv, name, args) => {
                if *recv == JsExprS::Var("console"@) && name == "log"@ {
                    let ar = eval_args_s(funcs, m, args, 0, (fuel - 1) as nat);
                    match ar.1 {
                        Err(err) => (ar.0, Err(err)),
                        Ok(vals) => (
                            MachineV {
                                env: ar.0.env,
                                heap: ar.0.heap,
                                trace: ar.0.trace + vals,
                            },
                            Ok(ValueV::Null),
                        ),
                    }
                } else if name == "lock"@ && args.len() == 0 {
                    let rr = eval_expr_s(funcs, m, *recv, (fuel - 1) as nat);
                    match rr.1 {
                        Err(err) => (rr.0, Err(err)),
                        Ok(v) => match v {
                            ValueV::Handle(h) => if 0 <= h < rr.0.heap.len() {
                                (rr.0, Ok(rr.0.heap[h]))
                            } else {
                                (rr.0, Err(EvalErr::TypeMismatch))
                            },
                            _ => (rr.0, Err(EvalErr::TypeMismatch)),
                        },
                    }
                } else {
                    (m, Err(EvalErr::Unsupported))
                }
            },
            JsExprS::Member(_recv, _f) => (m, Err(EvalErr::Unsupported)),
            JsExprS::Template(_parts, _interps) => (m, Err(EvalErr::Unsupported)),
            JsExprS::Arrow(_body) => (m, Err(EvalErr::Unsupported)),
            JsExprS::Iife(body) => {
                let br = eval_block_scoped_s(funcs, m, body.stmts, (fuel - 1) as nat);
                match br.1 {
                    Err(err) => (br.0, Err(err)),
                    Ok(FlowV::Normal) => (br.0, Ok(ValueV::Null)),
                    Ok(FlowV::Ret(v)) => (br.0, Ok(v)),
                }
            },
            JsExprS::NewMutex(inner) => {
                let ir = eval_expr_s(funcs, m, *inner, (fuel - 1) as nat);
                match ir.1 {
                    Err(err) => (ir.0, Err(err)),
                    Ok(v) => (
                        MachineV {
                            env: ir.0.env,
                            heap: ir.0.heap.push(v),
                            trace: ir.0.trace,
                        },
                        Ok(ValueV::Handle(ir.0.heap.len() as int)),
                    ),
                }
            },
            JsExprS::NewObject(_class, _args) => (m, Err(EvalErr::Unsupported)),
        }
    }
}

/// The argument values from position `i` on, evaluated left to right.
pub open spec fn eval_args_s(
    funcs: Seq<JsFunctionS>,
    m: MachineV,
    es: Seq<JsExprS>,
    i: int,
    fuel: nat,
) -> (MachineV, Result<Seq<ValueV>, EvalErr>)
    decreases fuel, 0int,
{
    if fuel == 0 {
        (m, Err(EvalErr::OutOfFuel))
    } else if 0 <= i < es.len() {
        let first = eval_expr_s(funcs, m, es[i], (fuel - 1) as nat);
        match first.1 {
            Err(err) => (first.0, Err(err)),
            Ok(v) => {
                let rest = eval_args_s(funcs, first.0, es, i + 1, (fuel - 1) as nat);
                match rest.1 {
                    Err(err) => (rest.0, Err(err)),
                    Ok(vs) => (rest.0, Ok(seq![v] + vs)),
                }
            },
        }
    } else {
        (m, Ok(Seq::empty()))
    }
}

/// What one target statement does to the machine.
pub open spec fn eval_stmt_s(
    funcs: Seq<JsFunctionS>,
    m: MachineV,
    s: JsStmtS,
    fuel: nat,
) -> (MachineV, Result<FlowV, EvalErr>)
    decreases fuel, 0int,
{
    if fuel == 0 {
        (m, Err(EvalErr::OutOfFuel))
    } else {
        match s {
            JsStmtS::VarDecl(x, e) => {
                let r = eval_expr_s(funcs, m, e, (fuel - 1) as nat);
                match r.1 {
                    Err(err) => (r.0, Err(err)),
                    Ok(v) => (
                        MachineV { env: r.0.env.push((x, v)), heap: r.0.heap, trace: r.0.trace },
                        Ok(FlowV::Normal),
                    ),
                }
            },
            JsStmtS::Expr(e) => {
                let r = eval_expr_s(funcs, m, e, (fuel - 1) as nat);
                match r.1 {
                    Err(err) => (r.0, Err(err)),
                    Ok(_) => (r.0, Ok(FlowV::Normal)),
                }
            },
            JsStmtS::Assign(x, op, e) => {
                let r = eval_expr_s(funcs, m, e, (fuel - 1) as nat);
                match r.1 {
                    Err(err) => (r.0, Err(err)),
                    Ok(v) => {
                        let idx = assign_idx_s(r.0.env, x, r.0.env.len() as int);
                        if idx < 0 {
                            (r.0, Err(EvalErr::UnboundName))
                        } else {
                            let newv = match op {
                                JsAssignOp::Plain => Ok(v),
                                JsAssignOp::AddBy => apply_op_s(JsOp::Add, r.0.env[idx].1, v),
                                JsAssignOp::SubBy => apply_op_s(JsOp::Sub, r.0.env[idx].1, v),
                                JsAssignOp::MulBy => apply_op_s(JsOp::Mul, r.0.env[idx].1, v),
                            };
                            match newv {
                                Err(err) => (r.0, Err(err)),
                                Ok(nv) => (
                                    MachineV {
                                        env: r.0.env.update(idx, (x, nv)),
                                        heap: r.0.heap,
                                        trace: r.0.trace,
                                    },
                                    Ok(FlowV::Normal),
                                ),
                            }
                        }
                    },
                }
            },
            JsStmtS::While(c, body) => {
                let cr = eval_expr_s(funcs, m, c, (fuel - 1) as nat);
                match cr.1 {
                    Err(err) => (cr.0, Err(err)),
                    Ok(ValueV::Bool(false)) => (cr.0, Ok(FlowV::Normal)),
                    Ok(ValueV::Bool(true)) => {
                        let br = eval_block_scoped_s(funcs, cr.0, body.stmts, (fuel - 1) as nat);
                        match br.1 {
                            Err(err) => (br.0, Err(err)),
                            Ok(FlowV::Ret(v)) => (br.0, Ok(FlowV::Ret(v))),
                            Ok(FlowV::Normal) => eval_stmt_s(funcs, br.0, s, (fuel - 1) as nat),
                        }
                    },
                    Ok(_) => (cr.0, Err(EvalErr::TypeMismatch)),
                }
            },
            JsStmtS::If(c, t, f) => {
                let cr = eval_expr_s(funcs, m, c, (fuel - 1) as nat);
                match cr.1 {
                    Err(err) => (cr.0, Err(err)),
                    Ok(ValueV::Bool(true)) => eval_block_scoped_s(
                        funcs,
                        cr.0,
                        t.stmts,
                        (fuel - 1) as nat,
                    ),
                    Ok(ValueV::Bool(false)) => eval_block_scoped_s(
                        funcs,
                        cr.0,
                        f.stmts,
                        (fuel - 1) as nat,
                    ),
                    Ok(_) => (cr.0, Err(EvalErr::TypeMismatch)),
                }
            },
            JsStmtS::MatchNull(tmp, scrut, bind, some_arm, none_arm) => {
                let sr = eval_expr_s(funcs, m, scrut, (fuel - 1) as nat);
                match sr.1 {
                    Err(err) => (sr.0, Err(err)),
                    Ok(v) => {
                        let present = !(v matches ValueV::Null);
                        let env1 = sr.0.env.push((tmp, v));
                        let env2 = if present {
                            match bind {
                                Some(b) => env1.push((b, v)),
                                None => env1,
                            }
                        } else {
                            env1
                        };
                        let inner = MachineV { env: env2, heap: sr.0.heap, trace: sr.0.trace };
                        let br = eval_stmts_s(
                            funcs,
                            inner,
                            if present {
                                some_arm.stmts
                            } else {
                                none_arm.stmts
                            },
                            0,
                            (fuel - 1) as nat,
                        );
                        (
                            MachineV {
                                env: scope_cut(sr.0.env.len() as int, br.0.env),
                                heap: br.0.heap,
                                trace: br.0.trace,
                            },
                            br.1,
                        )
                    },
                }
            },
            JsStmtS::ForOf(idx, x, iter, body) => {
                let ir = eval_expr_s(funcs, m, iter, (fuel - 1) as nat);
                match ir.1 {
                    Err(err) => (ir.0, Err(err)),
                    Ok(ValueV::Arr(elems)) => eval_forof_s(
                        funcs,
                        ir.0,
                        idx,
                        x,
                        elems,
                        0,
                        body.stmts,
                        (fuel - 1) as nat,
                    ),
                    Ok(_) => (ir.0, Err(EvalErr::TypeMismatch)),
                }
            },
            JsStmtS::Return(e) => match e {
                None => (m, Ok(FlowV::Ret(ValueV::Null))),
                Some(e) => {
                    let r = eval_expr_s(funcs, m, e, (fuel - 1) as nat);
                    match r.1 {
                        Err(err) => (r.0, Err(err)),
                        Ok(v) => (r.0, Ok(FlowV::Ret(v))),
                    }
                },
            },
        }
    }
}

/// The statements from position `i` on, in order; a return stops the
/// sequence.
pub open spec fn eval_stmts_s(
    funcs: Seq<JsFunctionS>,
    m: MachineV,
    ss: Seq<JsStmtS>,
    i: int,
    fuel: nat,
) -> (MachineV, Result<FlowV, EvalErr>)
    decreases fuel, 0int,
{
    if fuel == 0 {
        (m, Err(EvalErr::OutOfFuel))
    } else if 0 <= i < ss.len() {
        let r = eval_stmt_s(funcs, m, ss[i], (fuel - 1) as nat);
        match r.1 {
            Err(err) => (r.0, Err(err)),
            Ok(FlowV::Ret(v)) => (r.0, Ok(FlowV::Ret(v))),
            Ok(FlowV::Normal) => eval_stmts_s(funcs, r.0, ss, i + 1, (fuel - 1) as nat),
        }
    } else {
        (m, Ok(FlowV::Normal))
    }
}

/// The symbol table at the end of a scope: the bindings the scope added
/// are dropped, while assignments it made to enclosing bindings remain.
pub open spec fn scope_cut(n: int, env: Seq<(Seq<char>, ValueV)>) -> Seq<(Seq<char>, ValueV)> {
    if 0 <= n <= env.len() {
        env.subrange(0, n)
    } else {
        env
    }
}

/// A nested block: its bindings vanish on exit, heap and trace remain.
pub open spec fn eval_block_scoped_s(
    funcs: Seq<JsFunctionS>,
    m: MachineV,
    ss: Seq<JsStmtS>,
    fuel: nat,
) -> (MachineV, Result<FlowV, EvalErr>)
    decreases fuel, 1int,
{
    let r = eval_stmts_s(funcs, m, ss, 0, fuel);
    (
        MachineV { env: scope_cut(m.env.len() as int, r.0.env), heap: r.0.heap, trace: r.0.trace },
        r.1,
    )
}

/// The iteration of a lowered ForEach from element `k` on: the body runs
/// once per element, in the collection's order, with the element bound to
/// `x` and, when an index binding is present, the 0-based position bound
/// alongside it.
pub open spec fn eval_forof_s(
    funcs: Seq<JsFunctionS>,
    m: MachineV,
    idx: Option<Seq<char>>,
    x: Seq<char>,
    elems: Seq<ValueV>,
    k: int,
    body: Seq<JsStmtS>,
    fuel: nat,
) -> (MachineV, Result<FlowV, EvalErr>)
    decreases fuel, 0int,
{
    if fuel == 0 {
        (m, Err(EvalErr::OutOfFuel))
    } else if 0 <= k < elems.len() {
        if !in_i64(k) {
            (m, Err(EvalErr::Arith))
        } else {
            let env1 = match idx {
                Some(i) => m.env.push((i, ValueV::Num(k))),
                None => m.env,
            };
            let env2 = env1.push((x, elems[k]));
            let inner = MachineV { env: env2, heap: m.heap, trace: m.trace };
            let br = eval_stmts_s(funcs, inner, body, 0, (fuel - 1) as nat);
            let out = MachineV {
                env: scope_cut(m.env.len() as int, br.0.env),
                heap: br.0.heap,
                trace: br.0.trace,
            };
            match br.1 {
                Err(err) => (out, Err(err)),
                Ok(FlowV::Ret(v)) => (out, Ok(FlowV::Ret(v))),
                Ok(FlowV::Normal) => eval_forof_s(
                    funcs,
                    out,
                    idx,
                    x,
                    elems,
                    k + 1,
                    body,
                    (fuel - 1) as nat,
                ),
            }
        }
    } else {
        (m, Ok(FlowV::Normal))
    }
}

/// Ghost reading of an argument-list result.
pub open spec fn vals_res_view(r: Result<Vec<Value>, EvalErr>) -> Result<Seq<ValueV>, EvalErr> {
    match r {
        Ok(vs) => Ok(values_view(vs@)),
        Err(e) => Err(e),
    }
}

/// `values_view` distributes over concatenation.
pub proof fn values_view_concat(a: Seq<Value>, b: Seq<Value>)
    ensures
        values_view(a + b) == values_view(a) + values_view(b),
{
    values_view_props(a);
    values_view_props(b);
    values_view_props(a + b);
    assert(values_view(a + b) =~= values_view(a) + values_view(b));
}

/// The elementwise reading of `bind_params_s` when the counts agree.
pub proof fn bind_params_s_props(params: Seq<Seq<char>>, vals: Seq<ValueV>, i: int)
    requires
        0 <= i <= params.len(),
        params.len() == vals.len(),
    ensures
        bind_params_s(params, vals, i).len() == params.len() - i,
        forall|k: int|
            0 <= k < params.len() - i ==> #[trigger] bind_params_s(params, vals, i)[k] == (
                params[i + k],
                vals[i + k],
            ),
    decreases params.len() - i,
{
    if i < params.len() {
        bind_params_s_props(params, vals, i + 1);
    }
}

proof fn lookup_func_s_at(funcs: Seq<JsFunctionS>, name: Seq<char>, i: int, j: int)
    requires
        0 <= i <= j < funcs.len(),
        funcs[j].name == name,
        forall|k: int| i <= k < j ==> funcs[k].name != name,
    ensures
        lookup_func_s(funcs, name, i) == Some(funcs[j]),
    decreases j - i,
{
    if i < j {
        lookup_func_s_at(funcs, name, i + 1, j);
    }
}

proof fn lookup_func_s_none(funcs: Seq<JsFunctionS>, name: Seq<char>, i: int)
    requires
        0 <= i <= funcs.len(),
        forall|k: int| i <= k < funcs.len() ==> funcs[k].name != name,
    ensures
        lookup_func_s(funcs, name, i) is None,
    decreases funcs.len() - i,
{
    if i < funcs.len() {
        lookup_func_s_none(funcs, name, i + 1);
    }
}

/// Copies a runtime value; the copy of a handle aliases the same cell.
pub fn value_dup(v: &Value) -> (r: Value)
    ensures
        value_view(r) == value_view(*v),
    decreases *v,
{
    match v {
        Value::Null => Value::Null,
        Value::Num(n) => Value::Num(*n),
        Value::Bool(b) => Value::Bool(*b),
        Value::Str(s) => Value::Str(s.clone()),
        Value::Handle(h) => Value::Handle(*h),
        Value::Arr(vs) => Value::Arr(values_dup(vs)),
    }
}

fn values_dup(vs: &Vec<Value>) -> (r: Vec<Value>)
    ensures
        values_view(r@) == values_view(vs@),
    decreases vs@,
{
    let mut r: Vec<Value> = Vec::new();
    for j in 0..vs.len()
        invariant
            r@.len() == j,
            forall|k: int| 0 <= k < j ==> value_view(r@[k]) == value_view(vs@[k]),
        decreases vs@, vs@.len() - j,
    {
        let d = value_dup(&vs[j]);
        r.push(d);
    }
    proof {
        values_view_props(r@);
        values_view_props(vs@);
        assert(values_view(r@) =~= values_view(vs@));
    }
    r
}

fn lookup_env(env: &Vec<(String, Value)>, x: &String, n: usize) -> (r: Option<Value>)
    requires
        n <= env@.len(),
    ensures
        match r {
            Some(v) => lookup_env_s(env_view(env@), x@, n as int) == Some(value_view(v)),
            None => lookup_env_s(env_view(env@), x@, n as int) is None,
        },
    decreases n,
{
    proof {
        env_view_props(env@);
    }
    if n == 0 {
        None
    } else if env[n - 1].0 == *x {
        Some(value_dup(&env[n - 1].1))
    } else {
        lookup_env(env, x, n - 1)
    }
}

fn assign_find(env: &Vec<(String, Value)>, x: &String, n: usize) -> (r: Option<usize>)
    requires
        n <= env@.len(),
    ensures
        match r {
            Some(i) => assign_idx_s(env_view(env@), x@, n as int) == i && i < env@.len(),
            None => assign_idx_s(env_view(env@), x@, n as int) == -1,
        },
    decreases n,
{
    proof {
        env_view_props(env@);
    }
    if n == 0 {
        None
    } else if env[n - 1].0 == *x {
        Some(n - 1)
    } else {
        assign_find(env, x, n - 1)
    }
}

fn find_func(funcs: &Vec<JsFunction>, name: &String) -> (r: Option<usize>)
    ensures
        match r {
            Some(i) => i < funcs@.len() && lookup_func_s(funcs_view(funcs@), name@, 0) == Some(
                jsfunction_view(funcs@[i as int]),
            ),
            None => lookup_func_s(funcs_view(funcs@), name@, 0) is None,
        },
{
    let n = funcs.len();
    let mut j: usize = 0;
    while j < n
        invariant
            n == funcs@.len(),
            0 <= j <= n,
            forall|k: int| 0 <= k < j ==> #[trigger] funcs@[k].name@ != name@,
        decreases n - j,
    {
        if funcs[j].name == *name {
            proof {
                funcs_view_props(funcs@);
                assert(forall|k: int| 0 <= k < j ==> funcs_view(funcs@)[k].name != name@);
                lookup_func_s_at(funcs_view(funcs@), name@, 0, j as int);
            }
            return Some(j);
        }
        j = j + 1;
    }
    proof {
        funcs_view_props(funcs@);
        assert(forall|k: int| 0 <= k < funcs@.len() ==> funcs_view(funcs@)[k].name != name@);
        lookup_func_s_none(funcs_view(funcs@), name@, 0);
    }
    None
}

fn bind_params(params: &Vec<String>, vals: &Vec<Value>) -> (r: Vec<(String, Value)>)
    requires
        params@.len() == vals@.len(),
    ensures
        env_view(r@) == bind_params_s(params@.map_values(|p: String| p@), values_view(vals@), 0),
{
    let mut r: Vec<(String, Value)> = Vec::new();
    for j in 0..params.len()
        invariant
            params@.len() == vals@.len(),
            r@.len() == j,
            forall|k: int|
                0 <= k < j ==> r@[k].0@ == params@[k]@ && value_view(r@[k].1) == value_view(
                    vals@[k],
                ),
    {
        let name = params[j].clone();
        let val = value_dup(&vals[j]);
        r.push((name, val));
    }
    proof {
        env_view_props(r@);
        values_view_props(vals@);
        bind_params_s_props(params@.map_values(|p: String| p@), values_view(vals@), 0);
        assert(forall|k: int|
            0 <= k < params@.len() ==> params@.map_values(|p: String| p@)[k] == params@[k]@);
        assert(env_view(r@) =~= bind_params_s(
            params@.map_values(|p: String| p@),
            values_view(vals@),
            0,
        ));
    }
    r
}

fn val_eq(a: &Value, b: &Value) -> (r: bool)
    ensures
        r == val_eq_s(value_view(*a), value_view(*b)),
{
    match (a, b) {
        (Value::Null, Value::Null) => true,
        (Value::Num(x), Value::Num(y)) => *x == *y,
        (Value::Bool(x), Value::Bool(y)) => *x == *y,
        (Value::Str(x), Value::Str(y)) => *x == *y,
        (Value::Handle(x), Value::Handle(y)) => *x == *y,
        _ => false,
    }
}

fn apply_op(op: &JsOp, a: Value, b: Value) -> (r: Result<Value, EvalErr>)
    ensures
        val_res_view(r) == apply_op_s(*op, value_view(a), value_view(b)),
{
    let eq_result = matches!(op, JsOp::Eq) || matches!(op, JsOp::Ne);
    if eq_result {
        let e = val_eq(&a, &b);
        return match op {
            JsOp::Eq => Ok(Value::Bool(e)),
            _ => Ok(Value::Bool(!e)),
        };
    }
    match (a, b) {
        (Value::Num(x), Value::Num(y)) => match op {
            JsOp::Add => match x.checked_add(y) {
                Some(z) => Ok(Value::Num(z)),
                None => Err(EvalErr::Arith),
            },
            JsOp::Sub => match x.checked_sub(y) {
                Some(z) => Ok(Value::Num(z)),
                None => Err(EvalErr::Arith),
            },
            JsOp::Mul => match x.checked_mul(y) {
                Some(z) => Ok(Value::Num(z)),
                None => Err(EvalErr::Arith),
            },
            JsOp::Le => Ok(Value::Bool(x <= y)),
            JsOp::Lt => Ok(Value::Bool(x < y)),
            JsOp::Ge => Ok(Value::Bool(x >= y)),
            JsOp::Gt => Ok(Value::Bool(x > y)),
            _ => Err(EvalErr::TypeMismatch),
        },
        (Value::Str(x), Value::Str(y)) => match op {
            JsOp::Add => Ok(Value::Str(x.concat(y.as_str()))),
            _ => Err(EvalErr::TypeMismatch),
        },
        (Value::Bool(x), Value::Bool(y)) => match op {
            JsOp::And => Ok(Value::Bool(x && y)),
            JsOp::Or => Ok(Value::Bool(x || y)),
            _ => Err(EvalErr::TypeMismatch),
        },
        _ => Err(EvalErr::TypeMismatch),
    }
}

/// Evaluates one target expression on the machine.
#[verifier::rlimit(100)]
#[verifier::spinoff_prover]
pub fn eval_expr(funcs: &Vec<JsFunction>, m: &mut Machine, e: &JsExpr, fuel: u64) -> (r: Result<
    Value,
    EvalErr,
>)
    ensures
        machine_view(*final(m)) == eval_expr_s(
            funcs_view(funcs@),
            machine_view(*old(m)),
            jsexpr_view(*e),
            fuel as nat,
        ).0,
        val_res_view(r) == eval_expr_s(
            funcs_view(funcs@),
            machine_view(*old(m)),
            jsexpr_view(*e),
            fuel as nat,
        ).1,
    decreases fuel, 0int,
{
    if fuel == 0 {
        return Err(EvalErr::OutOfFuel);
    }
    match e {
        JsExpr::Num(n) => Ok(Value::Num(*n)),
        JsExpr::Bool(b) => Ok(Value::Bool(*b)),
        JsExpr::Str(s) => Ok(Value::Str(s.clone())),
        JsExpr::Null => Ok(Value::Null),
        JsExpr::Var(x) => {
            proof {
                env_view_props(m.env@);
            }
            let n = m.env.len();
            match lookup_env(&m.env, x, n) {
                Some(v) => Ok(v),
                None => Err(EvalErr::UnboundName),
            }
        },
        JsExpr::Infix(op, l, r) => {
            let a = match eval_expr(funcs, m, &**l, fuel - 1) {
                Ok(a) => a,
                Err(err) => {
                    return Err(err);
                },
            };
            let b = match eval_expr(funcs, m, &**r, fuel - 1) {
                Ok(b) => b,
                Err(err) => {
                    return Err(err);
                },
            };
            apply_op(op, a, b)
        },
        JsExpr::Call(fname, args) => {
            let vals = match eval_args(funcs, m, args, 0, fuel - 1) {
                Ok(vals) => vals,
                Err(err) => {
                    return Err(err);
                },
            };
            let fidx = match find_func(funcs, fname) {
                Some(i) => i,
                None => {
                    return Err(EvalErr::UnboundName);
                },
            };
            proof {
                funcs_view_props(funcs@);
            }
            if funcs[fidx].params.len() != vals.len() {
                proof {
                    values_view_props(vals@);
                }
                return Err(EvalErr::TypeMismatch);
            }
            proof {
                values_view_props(vals@);
            }
            let mut saved_env = bind_params(&funcs[fidx].params, &vals);
            core::mem::swap(&mut m.env, &mut saved_env);
            let br = eval_stmts(funcs, m, &funcs[fidx].body.stmts, 0, fuel - 1);
            core::mem::swap(&mut m.env, &mut saved_env);
            match br {
                Err(err) => Err(err),
                Ok(Flow::Normal) => Ok(Value::Null),
                Ok(Flow::Ret(v)) => Ok(v),
            }
        },
        JsExpr::Method(recv, name, args) => {
            proof {
                jsexprs_view_props(args@);
            }
            let is_console_log = (match &**recv {
                JsExpr::Var(x) => crate::policy::text_eq(x, "console"),
                _ => false,
            }) && crate::policy::text_eq(name, "log");
            if is_console_log {
                proof {
                    assert(jsexpr_view(**recv) == JsExprS::Var("console"@));
                    assert(name@ == "log"@);
                }
                let mut vals = match eval_args(funcs, m, args, 0, fuel - 1) {
                    Ok(vals) => vals,
                    Err(err) => {
                        return Err(err);
                    },
                };
                let ghost pre_trace = m.trace@;
                let ghost valsg = vals@;
                m.trace.append(&mut vals);
                proof {
                    values_view_concat(pre_trace, valsg);
                }
                Ok(Value::Null)
            } else {
                let is_lock = crate::policy::text_eq(name, "lock") && args.len() == 0;
                if is_lock {
                    let v = match eval_expr(funcs, m, &**recv, fuel - 1) {
                        Ok(v) => v,
                        Err(err) => {
                            return Err(err);
                        },
                    };
                    proof {
                        let rr = eval_expr_s(
                            funcs_view(funcs@),
                            machine_view(*old(m)),
                            jsexpr_view(**recv),
                            (fuel - 1) as nat,
                        );
                        assert(machine_view(*m) == rr.0);
                        assert(rr.1 == Ok::<ValueV, EvalErr>(value_view(v)));
                        values_view_props(m.heap@);
                    }
                    let res = match v {
                        Value::Handle(h) => {
                            if h < m.heap.len() {
                                proof {
                                    values_view_props(m.heap@);
                                    assert(values_view(m.heap@)[h as int] == value_view(
                                        m.heap@[h as int],
                                    ));
                                }
                                Ok(value_dup(&m.heap[h]))
                            } else {
                                Err(EvalErr::TypeMismatch)
                            }
                        },
                        _ => Err(EvalErr::TypeMismatch),
                    };
                    res
                } else {
                    Err(EvalErr::Unsupported)
                }
            }
        },
        JsExpr::Member(_recv, _f) => Err(EvalErr::Unsupported),
        JsExpr::Template(_parts, _interps) => Err(EvalErr::Unsupported),
        JsExpr::Arrow(_body) => Err(EvalErr::Unsupported),
        JsExpr::Iife(body) => {
            proof {
                assert(jsblock_view(*body).stmts == jsstmts_view(body.stmts@));
            }
            let br = eval_block_scoped(funcs, m, &body.stmts, fuel - 1);
            match br {
                Err(err) => Err(err),
                Ok(Flow::Normal) => Ok(Value::Null),
                Ok(Flow::Ret(v)) => Ok(v),
            }
        },
        JsExpr::NewMutex(inner) => {
            let v = match eval_expr(funcs, m, &**inner, fuel - 1) {
                Ok(v) => v,
                Err(err) => {
                    return Err(err);
                },
            };
            let h = m.heap.len();
            let ghost pre_heap = m.heap@;
            m.heap.push(v);
            proof {
                values_view_props(pre_heap);
                values_view_props(m.heap@);
                assert(values_view(m.heap@) =~= values_view(pre_heap).push(
                    value_view(m.heap@[pre_heap.len() as int]),
                ));
            }
            Ok(Value::Handle(h))
        },
        JsExpr::NewObject(_class, _args) => Err(EvalErr::Unsupported),
    }
}

fn eval_args(funcs: &Vec<JsFunction>, m: &mut Machine, es: &Vec<JsExpr>, i: usize, fuel: u64) -> (r:
    Result<Vec<Value>, EvalErr>)
    requires
        i <= es@.len(),
    ensures
        machine_view(*final(m)) == eval_args_s(
            funcs_view(funcs@),
            machine_view(*old(m)),
            jsexprs_view(es@),
            i as int,
            fuel as nat,
        ).0,
        vals_res_view(r) == eval_args_s(
            funcs_view(funcs@),
            machine_view(*old(m)),
            jsexprs_view(es@),
            i as int,
            fuel as nat,
        ).1,
    decreases fuel, 0int,
{
    proof {
        jsexprs_view_props(es@);
    }
    if fuel == 0 {
        return Err(EvalErr::OutOfFuel);
    }
    if i < es.len() {
        let v = match eval_expr(funcs, m, &es[i], fuel - 1) {
            Ok(v) => v,
            Err(err) => {
                return Err(err);
            },
        };
        let mut rest = match eval_args(funcs, m, es, i + 1, fuel - 1) {
            Ok(rest) => rest,
            Err(err) => {
                return Err(err);
            },
        };
        let ghost restg = rest@;
        let ghost vg = value_view(v);
        rest.insert(0, v);
        proof {
            values_view_props(restg);
            values_view_props(rest@);
            assert(values_view(rest@) =~= seq![vg] + values_view(restg));
        }
        Ok(rest)
    } else {
        let r: Vec<Value> = Vec::new();
        proof {
            assert(values_view(r@) =~= Seq::<ValueV>::empty());
        }
        Ok(r)
    }
}

/// Evaluates one target statement on the machine.
#[verifier::rlimit(100)]
pub fn eval_stmt(funcs: &Vec<JsFunction>, m: &mut Machine, s: &JsStmt, fuel: u64) -> (r: Result<
    Flow,
    EvalErr,
>)
    ensures
        machine_view(*final(m)) == eval_stmt_s(
            funcs_view(funcs@),
            machine_view(*old(m)),
            jsstmt_view(*s),
            fuel as nat,
        ).0,
        flow_res_view(r) == eval_stmt_s(
            funcs_view(funcs@),
            machine_view(*old(m)),
            jsstmt_view(*s),
            fuel as nat,
        ).1,
    decreases fuel, 0int,
{
    if fuel == 0 {
        return Err(EvalErr::OutOfFuel);
    }
    match s {
        JsStmt::VarDecl(x, e) => {
            let v = match eval_expr(funcs, m, e, fuel - 1) {
                Ok(v) => v,
                Err(err) => {
                    return Err(err);
                },
            };
            let ghost pre_env = m.env@;
            m.env.push((x.clone(), v));
            proof {
                env_view_props(pre_env);
                env_view_props(m.env@);
                assert(env_view(m.env@) =~= env_view(pre_env).push(
                    (m.env@[pre_env.len() as int].0@, value_view(m.env@[pre_env.len() as int].1)),
                ));
            }
            Ok(Flow::Normal)
        },
        JsStmt::Expr(e) => {
            match eval_expr(funcs, m, e, fuel - 1) {
                Ok(_) => Ok(Flow::Normal),
                Err(err) => Err(err),
            }
        },
        JsStmt::Assign(x, op, e) => {
            let v = match eval_expr(funcs, m, e, fuel - 1) {
                Ok(v) => v,
                Err(err) => {
                    return Err(err);
                },
            };
            let n = m.env.len();
            let idx = match assign_find(&m.env, x, n) {
                Some(i) => i,
                None => {
                    return Err(EvalErr::UnboundName);
                },
            };
            proof {
                env_view_props(m.env@);
            }
            let newv = match op {
                JsAssignOp::Plain => v,
                JsAssignOp::AddBy => {
                    let cur = value_dup(&m.env[idx].1);
                    match apply_op(&JsOp::Add, cur, v) {
                        Ok(nv) => nv,
                        Err(err) => {
                            return Err(err);
                        },
                    }
                },
                JsAssignOp::SubBy => {
                    let cur = value_dup(&m.env[idx].1);
                    match apply_op(&JsOp::Sub, cur, v) {
                        Ok(nv) => nv,
                        Err(err) => {
                            return Err(err);
                        },
                    }
                },
                JsAssignOp::MulBy => {
                    let cur = value_dup(&m.env[idx].1);
                    match apply_op(&JsOp::Mul, cur, v) {
                        Ok(nv) => nv,
                        Err(err) => {
                            return Err(err);
                        },
                    }
                },
            };
            let ghost pre_env = m.env@;
            m.env.set(idx, (x.clone(), newv));
            proof {
                env_view_props(pre_env);
                env_view_props(m.env@);
                assert(env_view(m.env@) =~= env_view(pre_env).update(
                    idx as int,
                    (m.env@[idx as int].0@, value_view(m.env@[idx as int].1)),
                ));
            }
            Ok(Flow::Normal)
        },
        JsStmt::While(c, body) => {
            let cv = match eval_expr(funcs, m, c, fuel - 1) {
                Ok(v) => v,
                Err(err) => {
                    return Err(err);
                },
            };
            match cv {
                Value::Bool(false) => Ok(Flow::Normal),
                Value::Bool(true) => {
                    let br = eval_block_scoped(funcs, m, &body.stmts, fuel - 1);
                    match br {
                        Err(err) => Err(err),
                        Ok(Flow::Ret(v)) => Ok(Flow::Ret(v)),
                        Ok(Flow::Normal) => eval_stmt(funcs, m, s, fuel - 1),
                    }
                },
                _ => Err(EvalErr::TypeMismatch),
            }
        },
        JsStmt::If(c, t, f) => {
            let cv = match eval_expr(funcs, m, c, fuel - 1) {
                Ok(v) => v,
                Err(err) => {
                    return Err(err);
                },
            };
            match cv {
                Value::Bool(true) => eval_block_scoped(funcs, m, &t.stmts, fuel - 1),
                Value::Bool(false) => eval_block_scoped(funcs, m, &f.stmts, fuel - 1),
                _ => Err(EvalErr::TypeMismatch),
            }
        },
        JsStmt::MatchNull(tmp, scrut, bind, some_arm, none_arm) => {
            let v = match eval_expr(funcs, m, scrut, fuel - 1) {
                Ok(v) => v,
                Err(err) => {
                    return Err(err);
                },
            };
            let present = !matches!(v, Value::Null);
            let base = m.env.len();
            let ghost base_env = env_view(m.env@);
            let ghost vg = value_view(v);
            m.env.push((tmp.clone(), value_dup(&v)));
            proof {
                env_view_props(m.env@);
                assert(env_view(m.env@) =~= base_env.push((tmp@, vg)));
            }
            if present {
                match bind {
                    Some(b) => {
                        let ghost env1 = env_view(m.env@);
                        m.env.push((b.clone(), v));
                        proof {
                            env_view_props(m.env@);
                            assert(env_view(m.env@) =~= env1.push((b@, vg)));
                        }
                    },
                    None => {
                        let _ = v;
                    },
                }
            }
            let br = if present {
                eval_stmts(funcs, m, &some_arm.stmts, 0, fuel - 1)
            } else {
                eval_stmts(funcs, m, &none_arm.stmts, 0, fuel - 1)
            };
            let ghost grown = m.env@;
            m.env.truncate(base);
            proof {
                env_view_props(grown);
                env_view_props(m.env@);
                assert(env_view(m.env@) =~= scope_cut(base as int, env_view(grown)));
            }
            br
        },
        JsStmt::ForOf(idx, x, iter, body) => {
            let iv = match eval_expr(funcs, m, iter, fuel - 1) {
                Ok(v) => v,
                Err(err) => {
                    return Err(err);
                },
            };
            match iv {
                Value::Arr(elems) => eval_forof(funcs, m, idx, x, &elems, 0, &body.stmts, fuel - 1),
                _ => Err(EvalErr::TypeMismatch),
            }
        },
        JsStmt::Return(e) => {
            match e {
                None => Ok(Flow::Ret(Value::Null)),
                Some(e) => {
                    match eval_expr(funcs, m, e, fuel - 1) {
                        Ok(v) => Ok(Flow::Ret(v)),
                        Err(err) => Err(err),
                    }
                },
            }
        },
    }
}

fn eval_stmts(funcs: &Vec<JsFunction>, m: &mut Machine, ss: &Vec<JsStmt>, i: usize, fuel: u64) -> (r:
    Result<Flow, EvalErr>)
    requires
        i <= ss@.len(),
    ensures
        machine_view(*final(m)) == eval_stmts_s(
            funcs_view(funcs@),
            machine_view(*old(m)),
            jsstmts_view(ss@),
            i as int,
            fuel as nat,
        ).0,
        flow_res_view(r) == eval_stmts_s(
            funcs_view(funcs@),
            machine_view(*old(m)),
            jsstmts_view(ss@),
            i as int,
            fuel as nat,
        ).1,
    decreases fuel, 0int,
{
    proof {
        jsstmts_view_props(ss@);
    }
    if fuel == 0 {
        return Err(EvalErr::OutOfFuel);
    }
    if i < ss.len() {
        match eval_stmt(funcs, m, &ss[i], fuel - 1) {
            Err(err) => Err(err),
            Ok(Flow::Ret(v)) => Ok(Flow::Ret(v)),
            Ok(Flow::Normal) => eval_stmts(funcs, m, ss, i + 1, fuel - 1),
        }
    } else {
        Ok(Flow::Normal)
    }
}

fn eval_block_scoped(funcs: &Vec<JsFunction>, m: &mut Machine, ss: &Vec<JsStmt>, fuel: u64) -> (r:
    Result<Flow, EvalErr>)
    ensures
        machine_view(*final(m)) == eval_block_scoped_s(
            funcs_view(funcs@),
            machine_view(*old(m)),
            jsstmts_view(ss@),
            fuel as nat,
        ).0,
        flow_res_view(r) == eval_block_scoped_s(
            funcs_view(funcs@),
            machine_view(*old(m)),
            jsstmts_view(ss@),
            fuel as nat,
        ).1,
    decreases fuel, 1int,
{
    let base = m.env.len();
    let br = eval_stmts(funcs, m, ss, 0, fuel);
    let ghost grown = m.env@;
    m.env.truncate(base);
    proof {
        env_view_props(grown);
        env_view_props(m.env@);
        assert(env_view(m.env@) =~= scope_cut(base as int, env_view(grown)));
    }
    br
}

#[verifier::rlimit(100)]
fn eval_forof(
    funcs: &Vec<JsFunction>,
    m: &mut Machine,
    idx: &Option<String>,
    x: &String,
    elems: &Vec<Value>,
    k: usize,
    body: &Vec<JsStmt>,
    fuel: u64,
) -> (r: Result<Flow, EvalErr>)
    ensures
        machine_view(*final(m)) == eval_forof_s(
            funcs_view(funcs@),
            machine_view(*old(m)),
            match *idx {
                Some(ref i) => Some(i@),
                None => None,
            },
            x@,
            values_view(elems@),
            k as int,
            jsstmts_view(body@),
            fuel as nat,
        ).0,
        flow_res_view(r) == eval_forof_s(
            funcs_view(funcs@),
            machine_view(*old(m)),
            match *idx {
                Some(ref i) => Some(i@),
                None => None,
            },
            x@,
            values_view(elems@),
            k as int,
            jsstmts_view(body@),
            fuel as nat,
        ).1,
    decreases fuel, 0int,
{
    proof {
        values_view_props(elems@);
    }
    if fuel == 0 {
        return Err(EvalErr::OutOfFuel);
    }
    if k >= elems.len() {
        return Ok(Flow::Normal);
    }
    if (k as u64) > (i64::MAX as u64) {
        return Err(EvalErr::Arith);
    }
    let base = m.env.len();
    let ghost base_env = env_view(m.env@);
    match idx {
        Some(i) => {
            m.env.push((i.clone(), Value::Num(k as i64)));
            proof {
                env_view_props(m.env@);
                assert(env_view(m.env@) =~= base_env.push((i@, ValueV::Num(k as int))));
            }
        },
        None => {},
    }
    let ghost env1 = env_view(m.env@);
    m.env.push((x.clone(), value_dup(&elems[k])));
    proof {
        env_view_props(m.env@);
        assert(env_view(m.env@) =~= env1.push((x@, values_view(elems@)[k as int])));
    }
    let br = eval_stmts(funcs, m, body, 0, fuel - 1);
    let ghost grown = m.env@;
    m.env.truncate(base);
    proof {
        env_view_props(grown);
        env_view_props(m.env@);
        assert(env_view(m.env@) =~= scope_cut(base as int, env_view(grown)));
    }
    match br {
        Err(err) => Err(err),
        Ok(Flow::Ret(v)) => Ok(Flow::Ret(v)),
        Ok(Flow::Normal) => eval_forof(funcs, m, idx, x, elems, k + 1, body, fuel - 1),
    }
}

/// The trace a position-indexed visit leaves behind: for each element in
/// collection order, its 0-based position and then the element itself.
pub open spec fn indexed_trace(elems: Seq<ValueV>, k: int) -> Seq<ValueV>
    decreases elems.len() - k,
{
    if 0 <= k < elems.len() {
        seq![ValueV::Num(k), elems[k]] + indexed_trace(elems, k + 1)
    } else {
        Seq::empty()
    }
}

/// Law: a lowered ForEach visits the elements in the order of the source
/// collection, and the paired index runs 0, 1, 2, ... alongside them.
/// Concretely: iterating with an index binding over any element sequence,
/// with a body that reports index and element to the console, finishes
/// normally and appends to the trace exactly the positions and elements,
/// interleaved, in collection order — nothing else changes.
pub proof fn lemma_foreach_visits_in_order(
    funcs: Seq<JsFunctionS>,
    m: MachineV,
    i: Seq<char>,
    x: Seq<char>,
    elems: Seq<ValueV>,
    k: int,
    fuel: nat,
)
    requires
        i != x,
        0 <= k <= elems.len(),
        elems.len() <= i64::MAX,
        fuel >= elems.len() - k + 7,
    ensures
        ({
            let body = seq![
                JsStmtS::Expr(
                    JsExprS::Method(
                        Box::new(JsExprS::Var("console"@)),
                        "log"@,
                        seq![JsExprS::Var(i), JsExprS::Var(x)],
                    ),
                ),
            ];
            let r = eval_forof_s(funcs, m, Some(i), x, elems, k, body, fuel);
            r.1 == Ok::<FlowV, EvalErr>(FlowV::Normal) && r.0 == MachineV {
                env: m.env,
                heap: m.heap,
                trace: m.trace + indexed_trace(elems, k),
            }
        }),
    decreases elems.len() - k,
{
    let body = seq![
        JsStmtS::Expr(
            JsExprS::Method(
                Box::new(JsExprS::Var("console"@)),
                "log"@,
                seq![JsExprS::Var(i), JsExprS::Var(x)],
            ),
        ),
    ];
    let r = eval_forof_s(funcs, m, Some(i), x, elems, k, body, fuel);
    if k == elems.len() {
        assert(m.trace + indexed_trace(elems, k) =~= m.trace);
        assert(r.0 == MachineV { env: m.env, heap: m.heap, trace: m.trace });
    } else {
        let env1 = m.env.push((i, ValueV::Num(k)));
        let env2 = env1.push((x, elems[k]));
        let inner = MachineV { env: env2, heap: m.heap, trace: m.trace };
        let f1 = (fuel - 1) as nat;
        let f2 = (f1 - 1) as nat;
        let f3 = (f2 - 1) as nat;
        let f4 = (f3 - 1) as nat;
        reveal_with_fuel(lookup_env_s, 4);
        assert(env2.len() == m.env.len() + 2);
        assert(env2[env2.len() - 1] == (x, elems[k]));
        assert(env2[env2.len() - 2] == (i, ValueV::Num(k)));
        assert(lookup_env_s(env2, x, env2.len() as int) == Some(elems[k]));
        assert(lookup_env_s(env2, i, env2.len() as int) == Some(ValueV::Num(k)));
        let a1 = eval_expr_s(funcs, inner, JsExprS::Var(i), (f4 - 1) as nat);
        assert(a1 == (inner, Ok::<ValueV, EvalErr>(ValueV::Num(k))));
        let a2 = eval_expr_s(funcs, inner, JsExprS::Var(x), (f4 - 2) as nat);
        assert(a2 == (inner, Ok::<ValueV, EvalErr>(elems[k])));
        let args = seq![JsExprS::Var(i), JsExprS::Var(x)];
        let ar2 = eval_args_s(funcs, inner, args, 1, (f4 - 1) as nat);
        assert(eval_args_s(funcs, inner, args, 2, (f4 - 2) as nat).1 == Ok::<
            Seq<ValueV>,
            EvalErr,
        >(Seq::empty()));
        assert(ar2.1 == Ok::<Seq<ValueV>, EvalErr>(seq![elems[k]] + Seq::empty()));
        let ar = eval_args_s(funcs, inner, args, 0, f4);
        assert(ar.0 == inner);
        assert(ar.1 == Ok::<Seq<ValueV>, EvalErr>(seq![ValueV::Num(k)] + (seq![elems[k]]
            + Seq::<ValueV>::empty())));
        let vals = seq![ValueV::Num(k)] + (seq![elems[k]] + Seq::<ValueV>::empty());
        assert(vals =~= seq![ValueV::Num(k), elems[k]]);
        let mcall = JsExprS::Method(
            Box::new(JsExprS::Var("console"@)),
            "log"@,
            seq![JsExprS::Var(i), JsExprS::Var(x)],
        );
        let er = eval_expr_s(funcs, inner, mcall, f3);
        assert(er.0 == MachineV { env: env2, heap: m.heap, trace: m.trace + vals });
        assert(er.1 == Ok::<ValueV, EvalErr>(ValueV::Null));
        let st = eval_stmt_s(funcs, inner, body[0], f2);
        assert(st.0 == er.0 && st.1 == Ok::<FlowV, EvalErr>(FlowV::Normal));
        let sts = eval_stmts_s(funcs, inner, body, 0, f1);
        assert(eval_stmts_s(funcs, st.0, body, 1, (f1 - 1) as nat) == (
            st.0,
            Ok::<FlowV, EvalErr>(FlowV::Normal),
        ));
        assert(sts.0 == er.0 && sts.1 == Ok::<FlowV, EvalErr>(FlowV::Normal));
        assert(env2.subrange(0, m.env.len() as int) =~= m.env);
        assert(scope_cut(m.env.len() as int, env2) == m.env);
        let out = MachineV { env: m.env, heap: m.heap, trace: m.trace + vals };
        lemma_foreach_visits_in_order(funcs, out, i, x, elems, k + 1, f1);
        let rest = eval_forof_s(funcs, out, Some(i), x, elems, k + 1, body, f1);
        assert((m.trace + vals) + indexed_trace(elems, k + 1) =~= m.trace + indexed_trace(
            elems,
            k,
        ));
    }
}

/// Law: copies of a shared-mutable handle alias one cell.  Lowering
/// `let a = NewSharedMutable(0); let b = clone(a);` yields the target
/// statements `let a = new Mutex(0); let b = a;`; running them binds both
/// names to the same freshly allocated cell, and whatever value is then
/// stored through that handle is what acquiring through the other name
/// reads — the two are one target-side object, not copies.
pub proof fn lemma_shared_handle_aliasing(
    funcs: Seq<JsFunctionS>,
    m: MachineV,
    a: Seq<char>,
    b: Seq<char>,
    fuel: nat,
)
    requires
        fuel >= 5,
    ensures
        ({
            let prog = seq![
                JsStmtS::VarDecl(a, JsExprS::NewMutex(Box::new(JsExprS::Num(0)))),
                JsStmtS::VarDecl(b, JsExprS::Var(a)),
            ];
            let cell = m.heap.len() as int;
            let r = eval_stmts_s(funcs, m, prog, 0, fuel);
            &&& r.1 == Ok::<FlowV, EvalErr>(FlowV::Normal)
            &&& r.0.heap == m.heap.push(ValueV::Num(0))
            &&& lookup_env_s(r.0.env, a, r.0.env.len() as int) == Some(ValueV::Handle(cell))
            &&& lookup_env_s(r.0.env, b, r.0.env.len() as int) == Some(ValueV::Handle(cell))
            &&& forall|v: ValueV|
                eval_expr_s(
                    funcs,
                    MachineV { env: r.0.env, heap: r.0.heap.update(cell, v), trace: r.0.trace },
                    JsExprS::Method(Box::new(JsExprS::Var(b)), "lock"@, Seq::empty()),
                    2,
                ).1 == Ok::<ValueV, EvalErr>(v)
        }),
{
    let prog = seq![
        JsStmtS::VarDecl(a, JsExprS::NewMutex(Box::new(JsExprS::Num(0)))),
        JsStmtS::VarDecl(b, JsExprS::Var(a)),
    ];
    let cell = m.heap.len() as int;
    let f1 = (fuel - 1) as nat;
    let f2 = (f1 - 1) as nat;
    let f3 = (f2 - 1) as nat;
    reveal_with_fuel(lookup_env_s, 3);
    let i1 = eval_expr_s(funcs, m, JsExprS::Num(0), (f2 - 1) as nat);
    assert(i1 == (m, Ok::<ValueV, EvalErr>(ValueV::Num(0))));
    let e1 = eval_expr_s(funcs, m, JsExprS::NewMutex(Box::new(JsExprS::Num(0))), f2);
    let m1 = MachineV { env: m.env, heap: m.heap.push(ValueV::Num(0)), trace: m.trace };
    assert(e1 == (m1, Ok::<ValueV, EvalErr>(ValueV::Handle(cell))));
    let st1 = eval_stmt_s(funcs, m, prog[0], f1);
    let m2 = MachineV { env: m.env.push((a, ValueV::Handle(cell))), heap: m1.heap, trace: m.trace };
    assert(st1 == (m2, Ok::<FlowV, EvalErr>(FlowV::Normal)));
    assert(m2.env[m2.env.len() - 1] == (a, ValueV::Handle(cell)));
    assert(lookup_env_s(m2.env, a, m2.env.len() as int) == Some(ValueV::Handle(cell)));
    let e2 = eval_expr_s(funcs, m2, JsExprS::Var(a), (f1 - 2) as nat);
    assert(e2 == (m2, Ok::<ValueV, EvalErr>(ValueV::Handle(cell))));
    let st2 = eval_stmt_s(funcs, m2, prog[1], (f1 - 1) as nat);
    let m3 = MachineV {
        env: m2.env.push((b, ValueV::Handle(cell))),
        heap: m1.heap,
        trace: m.trace,
    };
    assert(st2 == (m3, Ok::<FlowV, EvalErr>(FlowV::Normal)));
    let r = eval_stmts_s(funcs, m, prog, 0, fuel);
    assert(eval_stmts_s(funcs, m3, prog, 2, (f1 - 1) as nat) == (
        m3,
        Ok::<FlowV, EvalErr>(FlowV::Normal),
    ));
    assert(eval_stmts_s(funcs, m2, prog, 1, f1) == (m3, Ok::<FlowV, EvalErr>(FlowV::Normal)));
    assert(r == (m3, Ok::<FlowV, EvalErr>(FlowV::Normal)));
    assert(m3.env[m3.env.len() - 1] == (b, ValueV::Handle(cell)));
    assert(lookup_env_s(m3.env, b, m3.env.len() as int) == Some(ValueV::Handle(cell)));
    assert(lookup_env_s(m3.env, a, m3.env.len() as int) == Some(ValueV::Handle(cell)));
    assert forall|v: ValueV|
        eval_expr_s(
            funcs,
            MachineV { env: r.0.env, heap: r.0.heap.update(cell, v), trace: r.0.trace },
            JsExprS::Method(Box::new(JsExprS::Var(b)), "lock"@, Seq::empty()),
            2,
        ).1 == Ok::<ValueV, EvalErr>(v) by {
        reveal_strlit("lock");
        reveal_strlit("log");
        let mw = MachineV { env: r.0.env, heap: r.0.heap.update(cell, v), trace: r.0.trace };
        assert("lock"@.len() == 4);
        assert("log"@.len() == 3);
        assert("lock"@ != "log"@);
        let rv = eval_expr_s(funcs, mw, JsExprS::Var(b), 1);
        assert(rv == (mw, Ok::<ValueV, EvalErr>(ValueV::Handle(cell))));
        assert(mw.heap[cell] == v);
    }
}

} // verus!
