//! The definitional semantics of the language: a fuel-indexed,
//! deterministic interpreter written entirely as specification
//! functions over the ghost AST.  The executable evaluator is proved
//! to return exactly what these functions describe.
//!
//! Evaluation is depth-first, left-to-right and eager; the one
//! exception is a right-associative operator tier, whose right operand
//! is evaluated before its left one.  `fuel` bounds the depth of
//! function calls and the number of times any one loop may iterate;
//! structural descent costs nothing.  A starved evaluation fails with
//! an out-of-fuel error, the analogue of the host stack limit.
use vstd::prelude::*;

use crate::ast::{ApplV, BlckV, ExpnV, LeafV, StmtV, Type, Updt, Add, Bop};
use crate::errors::ErrKind;
use crate::ops::{apply_bop_s, apply_not_s};
use crate::text::{parse_dec, str_of_val};
use crate::value::{assoc_lookup, EnvV, StV, ValV};

verus! {

/// The outcome of evaluating an expression: a value, or a failure.
/// Either way the console state at that point is carried along.
pub enum ExpnOut {
    Done { v: ValV, st: StV },
    Fail { e: ErrKind, st: StV },
}

/// The outcome of evaluating a list of arguments.
pub enum ArgsOut {
    Done { vs: Seq<ValV>, st: StV },
    Fail { e: ErrKind, st: StV },
}

/// The outcome of a statement or block: `flow` is the early-return
/// signal — a present value aborts the surrounding block at once.
pub enum StmtOut {
    Done { flow: Option<ValV>, env: EnvV, st: StV },
    Fail { e: ErrKind, st: StV },
}

/// The outcome of calling a function value on evaluated arguments.
pub enum CallOut {
    Done { ret: Option<ValV>, st: StV },
    Fail { e: ErrKind, st: StV },
}

/// The additive operator a compound update stands for.
pub open spec fn updt_add(op: Updt) -> Add {
    match op {
        Updt::Plus => Add::Plus,
        Updt::Minus => Add::Minus,
    }
}

/// The frame a call starts from: the captured snapshot, the function
/// itself under its own name (so recursion works), then the parameters
/// bound positionally.
pub open spec fn bind_params(env: EnvV, params: Seq<Seq<char>>, args: Seq<ValV>) -> EnvV
    decreases params.len(),
{
    if params.len() == 0 {
        env
    } else {
        bind_params(env, params.drop_last(), args.drop_last()).push(
            (params.last(), args.last()),
        )
    }
}

/// Binding the parameters one at a time, left to right, builds the
/// same frame as [`bind_params`].
pub proof fn lemma_bind_params_step(env: EnvV, ps: Seq<Seq<char>>, vs: Seq<ValV>, k: int)
    requires
        0 <= k < ps.len(),
        ps.len() == vs.len(),
    ensures
        bind_params(env, ps.take(k + 1), vs.take(k + 1)) == bind_params(
            env,
            ps.take(k),
            vs.take(k),
        ).push((ps[k], vs[k])),
{
    assert(ps.take(k + 1).drop_last() =~= ps.take(k));
    assert(vs.take(k + 1).drop_last() =~= vs.take(k));
}

pub open spec fn eval_expn(e: ExpnV, env: EnvV, st: StV, fuel: nat) -> ExpnOut
    decreases fuel, 0int, e, 0int,
{
    match e {
        ExpnV::Binary { op, lhs, rhs } => {
            if op.right_assoc() {
                match eval_expn(*rhs, env, st, fuel) {
                    ExpnOut::Fail { e, st } => ExpnOut::Fail { e, st },
                    ExpnOut::Done { v: rv, st: st1 } => match eval_expn(*lhs, env, st1, fuel) {
                        ExpnOut::Fail { e, st } => ExpnOut::Fail { e, st },
                        ExpnOut::Done { v: lv, st: st2 } => match apply_bop_s(op, lv, rv) {
                            Ok(v) => ExpnOut::Done { v, st: st2 },
                            Err(err) => ExpnOut::Fail { e: err, st: st2 },
                        },
                    },
                }
            } else {
                match eval_expn(*lhs, env, st, fuel) {
                    ExpnOut::Fail { e, st } => ExpnOut::Fail { e, st },
                    ExpnOut::Done { v: lv, st: st1 } => match eval_expn(*rhs, env, st1, fuel) {
                        ExpnOut::Fail { e, st } => ExpnOut::Fail { e, st },
                        ExpnOut::Done { v: rv, st: st2 } => match apply_bop_s(op, lv, rv) {
                            Ok(v) => ExpnOut::Done { v, st: st2 },
                            Err(err) => ExpnOut::Fail { e: err, st: st2 },
                        },
                    },
                }
            }
        },
        ExpnV::Unary { child } => match eval_expn(*child, env, st, fuel) {
            ExpnOut::Fail { e, st } => ExpnOut::Fail { e, st },
            ExpnOut::Done { v, st: st1 } => match apply_not_s(v) {
                Ok(out) => ExpnOut::Done { v: out, st: st1 },
                Err(err) => ExpnOut::Fail { e: err, st: st1 },
            },
        },
        ExpnV::Apply { appl } => eval_appl(appl, env, st, fuel),
    }
}

pub open spec fn eval_leaf(l: LeafV, env: EnvV, st: StV, fuel: nat) -> ExpnOut
    decreases fuel, 0int, l, 0int,
{
    match l {
        LeafV::Inpt { prompt } => match eval_expn(*prompt, env, st, fuel) {
            ExpnOut::Fail { e, st } => ExpnOut::Fail { e, st },
            ExpnOut::Done { v, st: st1 } => {
                let st2 = StV { input: st1.input, output: st1.output.push(str_of_val(v)) };
                if st2.input.len() == 0 {
                    ExpnOut::Fail { e: ErrKind::InputExhausted, st: st2 }
                } else {
                    ExpnOut::Done {
                        v: ValV::Str(st2.input[0]),
                        st: StV { input: st2.input.drop_first(), output: st2.output },
                    }
                }
            },
        },
        LeafV::IntCast { expn } => match eval_expn(*expn, env, st, fuel) {
            ExpnOut::Fail { e, st } => ExpnOut::Fail { e, st },
            ExpnOut::Done { v, st: st1 } => match v {
                ValV::Int(n) => ExpnOut::Done { v: ValV::Int(n), st: st1 },
                ValV::Bool(b) => ExpnOut::Done {
                    v: ValV::Int(
                        if b {
                            1
                        } else {
                            0
                        },
                    ),
                    st: st1,
                },
                ValV::Str(s) => match parse_dec(s) {
                    Some(n) => ExpnOut::Done { v: ValV::Int(n), st: st1 },
                    None => ExpnOut::Fail { e: ErrKind::IntParseFailure, st: st1 },
                },
                _ => ExpnOut::Fail { e: ErrKind::IntParseFailure, st: st1 },
            },
        },
        LeafV::StrCast { expn } => match eval_expn(*expn, env, st, fuel) {
            ExpnOut::Fail { e, st } => ExpnOut::Fail { e, st },
            ExpnOut::Done { v, st: st1 } => ExpnOut::Done { v: ValV::Str(str_of_val(v)), st: st1 },
        },
        LeafV::Nmbr { num } => ExpnOut::Done { v: ValV::Int(num), st },
        LeafV::Strg { text } => ExpnOut::Done { v: ValV::Str(text), st },
        LeafV::BoolLit { flag } => ExpnOut::Done { v: ValV::Bool(flag), st },
        LeafV::Name { ident } => match assoc_lookup(env, ident) {
            Some(v) => ExpnOut::Done { v, st },
            None => ExpnOut::Fail { e: ErrKind::UndefinedVariable, st },
        },
        LeafV::Unit => ExpnOut::Done { v: ValV::Unit, st },
        LeafV::Paren { expn } => eval_expn(*expn, env, st, fuel),
    }
}

pub open spec fn eval_appl(a: ApplV, env: EnvV, st: StV, fuel: nat) -> ExpnOut
    decreases fuel, 0int, a, 0int,
{
    match eval_leaf(a.left, env, st, fuel) {
        ExpnOut::Fail { e, st } => ExpnOut::Fail { e, st },
        ExpnOut::Done { v, st: st1 } => eval_chain(v, a.args, 0, env, st1, fuel),
    }
}

/// Work through the argument lists of a chained application: evaluate
/// one list, call the current value on it, take the returned value
/// (unit if the body fell through) as the next callee.
pub open spec fn eval_chain(
    cur: ValV,
    lists: Seq<Seq<ExpnV>>,
    i: int,
    env: EnvV,
    st: StV,
    fuel: nat,
) -> ExpnOut
    decreases fuel, 0int, lists, lists.len() - i,
{
    if i < 0 || i >= lists.len() {
        ExpnOut::Done { v: cur, st }
    } else {
        match eval_args(lists[i], 0, Seq::empty(), env, st, fuel) {
            ArgsOut::Fail { e, st } => ExpnOut::Fail { e, st },
            ArgsOut::Done { vs, st: st1 } => {
                if fuel == 0 {
                    ExpnOut::Fail { e: ErrKind::OutOfFuel, st: st1 }
                } else {
                    match eval_call(cur, vs, st1, (fuel - 1) as nat) {
                        CallOut::Fail { e, st } => ExpnOut::Fail { e, st },
                        CallOut::Done { ret, st: st2 } => {
                            let next = match ret {
                                Some(v) => v,
                                None => ValV::Unit,
                            };
                            eval_chain(next, lists, i + 1, env, st2, fuel)
                        },
                    }
                }
            },
        }
    }
}

/// Evaluate the arguments of one list, left to right.
pub open spec fn eval_args(
    list: Seq<ExpnV>,
    i: int,
    acc: Seq<ValV>,
    env: EnvV,
    st: StV,
    fuel: nat,
) -> ArgsOut
    decreases fuel, 0int, list, list.len() - i,
{
    if i < 0 || i >= list.len() {
        ArgsOut::Done { vs: acc, st }
    } else {
        match eval_expn(list[i], env, st, fuel) {
            ExpnOut::Fail { e, st } => ArgsOut::Fail { e, st },
            ExpnOut::Done { v, st: st1 } => eval_args(list, i + 1, acc.push(v), env, st1, fuel),
        }
    }
}

/// Call a value on evaluated arguments.  Only a function value can be
/// called; its frame is its snapshot plus itself plus the parameters,
/// and a body that falls through returns nothing.
pub open spec fn eval_call(f: ValV, args: Seq<ValV>, st: StV, fuel: nat) -> CallOut
    decreases fuel, 3int, f, 0int,
{
    match f {
        ValV::Func { name, captures, params, rule } => {
            if args.len() != params.len() {
                CallOut::Fail { e: ErrKind::ArityMismatch, st }
            } else {
                let frame = bind_params(captures.push((name, f)), params, args);
                match eval_blck(rule, 0, frame, st, fuel) {
                    StmtOut::Fail { e, st } => CallOut::Fail { e, st },
                    StmtOut::Done { flow, st: st1, .. } => CallOut::Done { ret: flow, st: st1 },
                }
            }
        },
        _ => CallOut::Fail { e: ErrKind::ExpectedFunction, st },
    }
}

pub open spec fn eval_stmt(s: StmtV, env: EnvV, st: StV, fuel: nat) -> StmtOut
    decreases fuel, 2int, s, 0int,
{
    match s {
        StmtV::Decl { name, expn, .. } => match eval_expn(expn, env, st, fuel) {
            ExpnOut::Fail { e, st } => StmtOut::Fail { e, st },
            ExpnOut::Done { v, st: st1 } => StmtOut::Done {
                flow: None,
                env: env.push((name, v)),
                st: st1,
            },
        },
        StmtV::Assgn { name, expn } => match eval_expn(expn, env, st, fuel) {
            ExpnOut::Fail { e, st } => StmtOut::Fail { e, st },
            ExpnOut::Done { v, st: st1 } => StmtOut::Done {
                flow: None,
                env: env.push((name, v)),
                st: st1,
            },
        },
        StmtV::Updt { name, op, expn } => match eval_expn(expn, env, st, fuel) {
            ExpnOut::Fail { e, st } => StmtOut::Fail { e, st },
            ExpnOut::Done { v: rhs, st: st1 } => match assoc_lookup(env, name) {
                None => StmtOut::Fail { e: ErrKind::UndefinedVariable, st: st1 },
                Some(prev) => match apply_bop_s(Bop::AddOp(updt_add(op)), prev, rhs) {
                    Err(err) => StmtOut::Fail { e: err, st: st1 },
                    Ok(v) => StmtOut::Done { flow: None, env: env.push((name, v)), st: st1 },
                },
            },
        },
        StmtV::Pass => StmtOut::Done { flow: None, env, st },
        StmtV::Print { args } => eval_print(args, 0, env, st, fuel),
        StmtV::If { cond, if_nest, else_nest } => match eval_expn(cond, env, st, fuel) {
            ExpnOut::Fail { e, st } => StmtOut::Fail { e, st },
            ExpnOut::Done { v, st: st1 } => match v {
                ValV::Bool(b) => {
                    if b {
                        eval_blck(if_nest, 0, env, st1, fuel)
                    } else {
                        eval_blck(else_nest, 0, env, st1, fuel)
                    }
                },
                _ => StmtOut::Fail { e: ErrKind::ExpectedBool, st: st1 },
            },
        },
        StmtV::While { cond, nest } => match eval_expn(cond, env, st, fuel) {
            ExpnOut::Fail { e, st } => StmtOut::Fail { e, st },
            ExpnOut::Done { v, st: st1 } => match v {
                ValV::Bool(b) => {
                    if !b {
                        StmtOut::Done { flow: None, env, st: st1 }
                    } else {
                        match eval_blck(nest, 0, env, st1, fuel) {
                            StmtOut::Fail { e, st } => StmtOut::Fail { e, st },
                            StmtOut::Done { flow, env: env2, st: st2 } => {
                                if flow is Some {
                                    StmtOut::Done { flow, env: env2, st: st2 }
                                } else if fuel == 0 {
                                    StmtOut::Fail { e: ErrKind::OutOfFuel, st: st2 }
                                } else {
                                    eval_stmt(s, env2, st2, (fuel - 1) as nat)
                                }
                            },
                        }
                    }
                },
                _ => StmtOut::Fail { e: ErrKind::ExpectedBool, st: st1 },
            },
        },
        StmtV::ReturnExpn { expn } => match eval_expn(expn, env, st, fuel) {
            ExpnOut::Fail { e, st } => StmtOut::Fail { e, st },
            ExpnOut::Done { v, st: st1 } => StmtOut::Done { flow: Some(v), env, st: st1 },
        },
        StmtV::Return => StmtOut::Done { flow: Some(ValV::Unit), env, st },
        StmtV::Defn { name, params, rule, .. } => {
            let func = ValV::Func {
                name,
                captures: env,
                params: params.map_values(|p: (Seq<char>, Type)| p.0),
                rule,
            };
            StmtOut::Done { flow: None, env: env.push((name, func)), st }
        },
        StmtV::FuncCall { appl } => match eval_appl(appl, env, st, fuel) {
            ExpnOut::Fail { e, st } => StmtOut::Fail { e, st },
            ExpnOut::Done { st: st1, .. } => StmtOut::Done { flow: None, env, st: st1 },
        },
    }
}

/// Print each argument in source order: evaluate it, then emit its
/// textual form followed by a newline, before the next argument is
/// evaluated.
pub open spec fn eval_print(args: Seq<ExpnV>, i: int, env: EnvV, st: StV, fuel: nat) -> StmtOut
    decreases fuel, 1int, args, args.len() - i,
{
    if i < 0 || i >= args.len() {
        StmtOut::Done { flow: None, env, st }
    } else {
        match eval_expn(args[i], env, st, fuel) {
            ExpnOut::Fail { e, st } => StmtOut::Fail { e, st },
            ExpnOut::Done { v, st: st1 } => eval_print(
                args,
                i + 1,
                env,
                StV { input: st1.input, output: st1.output.push(str_of_val(v) + "\n"@) },
                fuel,
            ),
        }
    }
}

/// Run a block from its `i`-th statement: stop at the first present
/// early-return signal, otherwise fall through.
pub open spec fn eval_blck(b: BlckV, i: int, env: EnvV, st: StV, fuel: nat) -> StmtOut
    decreases fuel, 2int, b, b.stmts.len() - i,
{
    if i < 0 || i >= b.stmts.len() {
        StmtOut::Done { flow: None, env, st }
    } else {
        match eval_stmt(b.stmts[i], env, st, fuel) {
            StmtOut::Fail { e, st } => StmtOut::Fail { e, st },
            StmtOut::Done { flow, env: env1, st: st1 } => {
                if flow is Some {
                    StmtOut::Done { flow, env: env1, st: st1 }
                } else {
                    eval_blck(b, i + 1, env1, st1, fuel)
                }
            },
        }
    }
}

/// Run a whole program: its main block in an empty frame, on the given
/// input queue, with an empty output log.
pub open spec fn eval_prgm(main: BlckV, input: Seq<Seq<char>>, fuel: nat) -> StmtOut {
    eval_blck(
        main,
        0,
        Seq::empty(),
        StV { input, output: Seq::empty() },
        fuel,
    )
}

} // verus!
