//! The executable evaluator.  Every function returns exactly what the
//! definitional semantics in [`crate::semantics`] describes, clause by
//! clause: evaluation order, every error, every console effect and the
//! final environment are pinned down.
use vstd::prelude::*;
use vstd::string::StringExecFns;

use crate::ast::{
    appl_view, arglists_view, blck_view, expn_view, expns_view, lemma_arglists_view,
    lemma_expns_view, lemma_stmts_view, leaf_view, nest_view, prgm_view, stmt_view, Add, Appl,
    ArgList, Blck, Bop, Expn, Leaf, Nest, Prgm, Stmt, Updt,
};
use crate::errors::ErrKind;
use crate::ops::{apply_bop, apply_not};
use crate::semantics as sem;
use crate::semantics::{ArgsOut, CallOut, ExpnOut, StmtOut};
use crate::text::{parse_i64, str_of_value};
use crate::value::{
    val_of, vals_of, value_clone, Context, EnvV, FuncVal, RunState, StV, ValV, Value,
};

verus! {

/// The early-return signal of a statement, mirrored.
pub open spec fn flow_of(o: Option<Value>) -> Option<ValV> {
    match o {
        Some(v) => Some(val_of(v)),
        None => None,
    }
}

/// The result of an expression matches a semantic outcome.
pub open spec fn expn_matches(r: Result<Value, ErrKind>, o: ExpnOut, st: StV) -> bool {
    match r {
        Ok(v) => o == (ExpnOut::Done { v: val_of(v), st }),
        Err(e) => o == (ExpnOut::Fail { e, st }),
    }
}

/// The result of a statement or block matches a semantic outcome.
pub open spec fn stmt_matches(
    r: Result<Option<Value>, ErrKind>,
    o: StmtOut,
    env: EnvV,
    st: StV,
) -> bool {
    match r {
        Ok(flow) => o == (StmtOut::Done { flow: flow_of(flow), env, st }),
        Err(e) => o == (StmtOut::Fail { e, st }),
    }
}

/// The result of a call matches a semantic outcome.
pub open spec fn call_matches(r: Result<Option<Value>, ErrKind>, o: CallOut, st: StV) -> bool {
    match r {
        Ok(flow) => o == (CallOut::Done { ret: flow_of(flow), st }),
        Err(e) => o == (CallOut::Fail { e, st }),
    }
}

/// The result of an argument list matches a semantic outcome.
pub open spec fn args_matches(r: Result<Vec<Value>, ErrKind>, o: ArgsOut, st: StV) -> bool {
    match r {
        Ok(vs) => o == (ArgsOut::Done { vs: vals_of(vs@), st }),
        Err(e) => o == (ArgsOut::Fail { e, st }),
    }
}

impl Value {
    /// The integer this value holds, or a type error.
    pub fn expect_int(&self) -> (r: Result<i64, ErrKind>)
        ensures
            match r {
                Ok(n) => val_of(*self) == ValV::Int(n as int),
                Err(e) => !(val_of(*self) is Int) && e == ErrKind::ExpectedInt,
            },
    {
        match self {
            Value::Int(n) => Ok(*n),
            _ => Err(ErrKind::ExpectedInt),
        }
    }

    /// The boolean this value holds, or a type error.
    pub fn expect_bool(&self) -> (r: Result<bool, ErrKind>)
        ensures
            match r {
                Ok(b) => val_of(*self) == ValV::Bool(b),
                Err(e) => !(val_of(*self) is Bool) && e == ErrKind::ExpectedBool,
            },
    {
        match self {
            Value::Bool(b) => Ok(*b),
            _ => Err(ErrKind::ExpectedBool),
        }
    }

    /// A deep copy of the function this value holds, or a type error.
    pub fn expect_func(&self) -> (r: Result<FuncVal, ErrKind>)
        ensures
            match r {
                Ok(f) => val_of(*self) is Func && val_of(Value::Func(f)) == val_of(*self),
                Err(e) => !(val_of(*self) is Func) && e == ErrKind::ExpectedFunction,
            },
    {
        match self {
            Value::Func(_) => {
                let c = value_clone(self);
                match c {
                    Value::Func(f) => Ok(f),
                    _ => {
                        proof {
                            assert(false);
                        }
                        Err(ErrKind::ExpectedFunction)
                    },
                }
            },
            _ => Err(ErrKind::ExpectedFunction),
        }
    }

    /// Call this value on already-evaluated arguments: it must be a
    /// function of matching arity; its frame is the captured snapshot,
    /// itself under its own name, and the parameters in order.
    #[verifier::loop_isolation(false)]
    #[verifier::rlimit(30)]
    pub fn try_call_with(
        &self,
        args: Vec<Value>,
        st: &mut RunState,
        fuel: u64,
    ) -> (r: Result<Option<Value>, ErrKind>)
        ensures
            call_matches(
                r,
                sem::eval_call(val_of(*self), vals_of(args@), old(st)@, fuel as nat),
                final(st)@,
            ),
        decreases fuel, 3int, val_of(*self), 0int,
    {
        let ghost argsv = vals_of(args@);
        let fv = match self.expect_func() {
            Ok(f) => f,
            Err(e) => {
                return Err(e);
            },
        };
        if args.len() != fv.params.len() {
            proof {
                assert(val_of(*self)->Func_params.len() == fv.params@.len());
            }
            return Err(ErrKind::ArityMismatch);
        }
        let FuncVal { name, captures, params, rule } = fv;
        let ghost paramsv = val_of(*self)->Func_params;
        proof {
            assert(paramsv.len() == params@.len());
            assert(forall|j: int| 0 <= j < params@.len() ==> paramsv[j] == params@[j]@);
        }
        let selfc = value_clone(self);
        let mut frame = captures;
        frame.set(name, selfc);
        let ghost frame0 = frame@;
        proof {
            assert(frame0 == val_of(*self)->Func_captures.push(
                (val_of(*self)->Func_name, val_of(*self)),
            ));
        }
        let mut rest = args;
        let plen = params.len();
        let mut k: usize = 0;
        while k < plen
            invariant
                k <= plen,
                plen == params.len(),
                rest@.len() == plen - k,
                forall|j: int| 0 <= j < rest@.len() ==> val_of(rest@[j]) == argsv[k + j],
                frame@ == sem::bind_params(frame0, paramsv.take(k as int), argsv.take(k as int)),
            decreases plen - k,
        {
            let a = rest.remove(0);
            proof {
                assert(val_of(a) == argsv[k as int]);
            }
            frame.set(params[k].clone(), a);
            proof {
                sem::lemma_bind_params_step(frame0, paramsv, argsv, k as int);
                assert(frame@ == sem::bind_params(
                    frame0,
                    paramsv.take(k as int + 1),
                    argsv.take(k as int + 1),
                ));
            }
            k += 1;
        }
        proof {
            assert(paramsv.take(plen as int) =~= paramsv);
            assert(argsv.take(plen as int) =~= argsv);
        }
        let r = rule.eval(&mut frame, st, fuel);
        match r {
            Ok(flow) => Ok(flow),
            Err(e) => Err(e),
        }
    }
}

impl Expn {
    /// Evaluate an expression.  Expressions never change the frame.
    pub fn eval(&self, ctx: &Context, st: &mut RunState, fuel: u64) -> (r: Result<Value, ErrKind>)
        ensures
            expn_matches(
                r,
                sem::eval_expn(expn_view(*self), ctx@, old(st)@, fuel as nat),
                final(st)@,
            ),
        decreases fuel, 0int, expn_view(*self), 1int,
    {
        match self {
            Expn::Binary { op, lhs, rhs } => {
                proof {
                    assert(decreases_to!(expn_view(*self) => expn_view(*self)->Binary_lhs));
                    assert(decreases_to!(expn_view(*self) => expn_view(*self)->Binary_rhs));
                }
                if op.is_right_assoc() {
                    let rv = match rhs.eval(ctx, st, fuel) {
                        Ok(v) => v,
                        Err(e) => {
                            return Err(e);
                        },
                    };
                    let lv = match lhs.eval(ctx, st, fuel) {
                        Ok(v) => v,
                        Err(e) => {
                            return Err(e);
                        },
                    };
                    match apply_bop(op, &lv, &rv) {
                        Ok(v) => Ok(v),
                        Err(e) => Err(e),
                    }
                } else {
                    let lv = match lhs.eval(ctx, st, fuel) {
                        Ok(v) => v,
                        Err(e) => {
                            return Err(e);
                        },
                    };
                    let rv = match rhs.eval(ctx, st, fuel) {
                        Ok(v) => v,
                        Err(e) => {
                            return Err(e);
                        },
                    };
                    match apply_bop(op, &lv, &rv) {
                        Ok(v) => Ok(v),
                        Err(e) => Err(e),
                    }
                }
            },
            Expn::Unary { op: _, child } => {
                proof {
                    assert(decreases_to!(expn_view(*self) => expn_view(*self)->Unary_child));
                }
                let cv = match child.eval(ctx, st, fuel) {
                    Ok(v) => v,
                    Err(e) => {
                        return Err(e);
                    },
                };
                match apply_not(&cv) {
                    Ok(v) => Ok(v),
                    Err(e) => Err(e),
                }
            },
            Expn::Apply { appl } => {
                proof {
                    assert(decreases_to!(expn_view(*self) => expn_view(*self)->Apply_appl));
                }
                appl.eval(ctx, st, fuel)
            },
        }
    }
}

impl Leaf {
    /// Evaluate an atomic expression form.
    pub fn eval(&self, ctx: &Context, st: &mut RunState, fuel: u64) -> (r: Result<Value, ErrKind>)
        ensures
            expn_matches(
                r,
                sem::eval_leaf(leaf_view(*self), ctx@, old(st)@, fuel as nat),
                final(st)@,
            ),
        decreases fuel, 0int, leaf_view(*self), 1int,
    {
        match self {
            Leaf::Inpt { prompt } => {
                proof {
                    assert(decreases_to!(leaf_view(*self) => leaf_view(*self)->Inpt_prompt));
                }
                let pv = match prompt.eval(ctx, st, fuel) {
                    Ok(v) => v,
                    Err(e) => {
                        return Err(e);
                    },
                };
                st.emit(str_of_value(&pv));
                match st.read_line() {
                    Some(line) => Ok(Value::Str(line)),
                    None => Err(ErrKind::InputExhausted),
                }
            },
            Leaf::IntCast { expn } => {
                proof {
                    assert(decreases_to!(leaf_view(*self) => leaf_view(*self)->IntCast_expn));
                }
                let v = match expn.eval(ctx, st, fuel) {
                    Ok(v) => v,
                    Err(e) => {
                        return Err(e);
                    },
                };
                match v {
                    Value::Int(n) => Ok(Value::Int(n)),
                    Value::Bool(b) => Ok(Value::Int(if b { 1 } else { 0 })),
                    Value::Str(s) => match parse_i64(s.as_str()) {
                        Some(n) => Ok(Value::Int(n)),
                        None => Err(ErrKind::IntParseFailure),
                    },
                    _ => Err(ErrKind::IntParseFailure),
                }
            },
            Leaf::StrCast { expn } => {
                proof {
                    assert(decreases_to!(leaf_view(*self) => leaf_view(*self)->StrCast_expn));
                }
                let v = match expn.eval(ctx, st, fuel) {
                    Ok(v) => v,
                    Err(e) => {
                        return Err(e);
                    },
                };
                Ok(Value::Str(str_of_value(&v)))
            },
            Leaf::Nmbr { num } => Ok(Value::Int(*num)),
            Leaf::Strg { text } => Ok(Value::Str(text.clone())),
            Leaf::BoolLit { flag } => Ok(Value::Bool(*flag)),
            Leaf::Name { ident } => match ctx.get(ident) {
                Some(v) => Ok(v),
                None => Err(ErrKind::UndefinedVariable),
            },
            Leaf::Unit => Ok(Value::Unit),
            Leaf::Paren { expn } => {
                proof {
                    assert(decreases_to!(leaf_view(*self) => leaf_view(*self)->Paren_expn));
                }
                expn.eval(ctx, st, fuel)
            },
        }
    }
}

/// Evaluate one argument list, left to right.
#[verifier::loop_isolation(false)]
fn eval_arg_list(
    list: &ArgList,
    ctx: &Context,
    st: &mut RunState,
    fuel: u64,
) -> (r: Result<Vec<Value>, ErrKind>)
    ensures
        args_matches(
            r,
            sem::eval_args(
                expns_view(list.exps@),
                0,
                Seq::empty(),
                ctx@,
                old(st)@,
                fuel as nat,
            ),
            final(st)@,
        ),
    decreases fuel, 0int, expns_view(list.exps@), 0int,
{
    let ghost listv = expns_view(list.exps@);
    let ghost goal = sem::eval_args(listv, 0, Seq::empty(), ctx@, old(st)@, fuel as nat);
    proof {
        lemma_expns_view(list.exps@);
    }
    let mut vals: Vec<Value> = Vec::new();
    proof {
        assert(vals_of(vals@) =~= Seq::<ValV>::empty());
    }
    let n = list.exps.len();
    let mut k: usize = 0;
    while k < n
        invariant
            k <= n,
            goal == sem::eval_args(listv, k as int, vals_of(vals@), ctx@, st@, fuel as nat),
        decreases n - k,
    {
        proof {
            assert(decreases_to!(listv => listv[k as int]));
        }
        let v = match list.exps[k].eval(ctx, st, fuel) {
            Ok(v) => v,
            Err(e) => {
                return Err(e);
            },
        };
        let ghost prev = vals@;
        vals.push(v);
        proof {
            assert(vals_of(vals@) =~= vals_of(prev).push(val_of(v)));
        }
        k += 1;
    }
    Ok(vals)
}

impl Appl {
    /// Evaluate the leaf, then work through the argument lists in
    /// order: each call's returned value (unit on fall-through) is the
    /// callee for the next list.
    #[verifier::loop_isolation(false)]
    pub fn eval(&self, ctx: &Context, st: &mut RunState, fuel: u64) -> (r: Result<Value, ErrKind>)
        ensures
            expn_matches(
                r,
                sem::eval_appl(appl_view(*self), ctx@, old(st)@, fuel as nat),
                final(st)@,
            ),
        decreases fuel, 0int, appl_view(*self), 0int,
    {
        let ghost av = appl_view(*self);
        let ghost goal = sem::eval_appl(av, ctx@, old(st)@, fuel as nat);
        proof {
            lemma_arglists_view(self.args@);
            assert(decreases_to!(av => av.left));
            assert(av.left == leaf_view(self.left));
        }
        let mut cur = match self.left.eval(ctx, st, fuel) {
            Ok(v) => v,
            Err(e) => {
                return Err(e);
            },
        };
        let n = self.args.len();
        let mut i: usize = 0;
        while i < n
            invariant
                i <= n,
                goal == sem::eval_chain(val_of(cur), av.args, i as int, ctx@, st@, fuel as nat),
            decreases n - i,
        {
            proof {
                assert(decreases_to!(av => av.args));
                assert(decreases_to!(av.args => av.args[i as int]));
                assert(av.args[i as int] == expns_view(self.args@[i as int].exps@));
            }
            let vs = match eval_arg_list(&self.args[i], ctx, st, fuel) {
                Ok(vs) => vs,
                Err(e) => {
                    return Err(e);
                },
            };
            if fuel == 0 {
                return Err(ErrKind::OutOfFuel);
            }
            let called = cur.try_call_with(vs, st, fuel - 1);
            cur = match called {
                Ok(Some(v)) => v,
                Ok(None) => Value::Unit,
                Err(e) => {
                    return Err(e);
                },
            };
            i += 1;
        }
        Ok(cur)
    }
}

impl Stmt {
    /// Execute one statement.  `Ok(Some(v))` is an early return that
    /// the surrounding block must propagate at once; `Ok(None)` falls
    /// through to the next statement.
    #[verifier::loop_isolation(false)]
    pub fn eval(
        &self,
        ctx: &mut Context,
        st: &mut RunState,
        fuel: u64,
    ) -> (r: Result<Option<Value>, ErrKind>)
        ensures
            stmt_matches(
                r,
                sem::eval_stmt(stmt_view(*self), old(ctx)@, old(st)@, fuel as nat),
                final(ctx)@,
                final(st)@,
            ),
        decreases fuel, 2int, stmt_view(*self), 0int,
    {
        let ghost sv = stmt_view(*self);
        match self {
            Stmt::Decl { typed_ident, expn } => {
                let v = match expn.eval(ctx, st, fuel) {
                    Ok(v) => v,
                    Err(e) => {
                        return Err(e);
                    },
                };
                ctx.set(typed_ident.ident.clone(), v);
                Ok(None)
            },
            Stmt::Assgn { ident, expn } => {
                let v = match expn.eval(ctx, st, fuel) {
                    Ok(v) => v,
                    Err(e) => {
                        return Err(e);
                    },
                };
                ctx.set(ident.clone(), v);
                Ok(None)
            },
            Stmt::Updt { ident, op, expn } => {
                let rhs = match expn.eval(ctx, st, fuel) {
                    Ok(v) => v,
                    Err(e) => {
                        return Err(e);
                    },
                };
                let prev = match ctx.get(ident) {
                    Some(v) => v,
                    None => {
                        return Err(ErrKind::UndefinedVariable);
                    },
                };
                let bop = Bop::AddOp(
                    match op {
                        Updt::Plus => Add::Plus,
                        Updt::Minus => Add::Minus,
                    },
                );
                let v = match apply_bop(&bop, &prev, &rhs) {
                    Ok(v) => v,
                    Err(e) => {
                        return Err(e);
                    },
                };
                ctx.set(ident.clone(), v);
                Ok(None)
            },
            Stmt::Pass => Ok(None),
            Stmt::Print { args } => {
                let ghost argsv = expns_view(args@);
                let ghost goal = sem::eval_print(argsv, 0, ctx@, old(st)@, fuel as nat);
                proof {
                    lemma_expns_view(args@);
                }
                let n = args.len();
                let mut i: usize = 0;
                while i < n
                    invariant
                        i <= n,
                        *ctx == *old(ctx),
                        goal == sem::eval_print(argsv, i as int, ctx@, st@, fuel as nat),
                    decreases n - i,
                {
                    let v = match args[i].eval(ctx, st, fuel) {
                        Ok(v) => v,
                        Err(e) => {
                            return Err(e);
                        },
                    };
                    let line = str_of_value(&v).concat("\n");
                    st.emit(line);
                    i += 1;
                }
                Ok(None)
            },
            Stmt::If { cond, if_nest, else_nest } => {
                proof {
                    assert(decreases_to!(sv => sv->If_if_nest));
                    assert(decreases_to!(sv => sv->If_else_nest));
                }
                let cv = match cond.eval(ctx, st, fuel) {
                    Ok(v) => v,
                    Err(e) => {
                        return Err(e);
                    },
                };
                let b = match cv {
                    Value::Bool(b) => b,
                    _ => {
                        return Err(ErrKind::ExpectedBool);
                    },
                };
                if b {
                    if_nest.eval(ctx, st, fuel)
                } else {
                    else_nest.eval(ctx, st, fuel)
                }
            },
            Stmt::While { cond, nest } => {
                let ghost goal = sem::eval_stmt(sv, old(ctx)@, old(st)@, fuel as nat);
                let mut fuel_now: u64 = fuel;
                loop
                    invariant
                        fuel_now <= fuel,
                        goal == sem::eval_stmt(sv, ctx@, st@, fuel_now as nat),
                    decreases fuel_now,
                {
                    proof {
                        assert(decreases_to!(sv => sv->While_nest));
                    }
                    let cv = match cond.eval(ctx, st, fuel_now) {
                        Ok(v) => v,
                        Err(e) => {
                            return Err(e);
                        },
                    };
                    let b = match cv {
                        Value::Bool(b) => b,
                        _ => {
                            return Err(ErrKind::ExpectedBool);
                        },
                    };
                    if !b {
                        return Ok(None);
                    }
                    let flow = match nest.eval(ctx, st, fuel_now) {
                        Ok(f) => f,
                        Err(e) => {
                            return Err(e);
                        },
                    };
                    if let Some(v) = flow {
                        return Ok(Some(v));
                    }
                    if fuel_now == 0 {
                        return Err(ErrKind::OutOfFuel);
                    }
                    fuel_now = fuel_now - 1;
                }
            },
            Stmt::ReturnExpn { expn } => {
                let v = match expn.eval(ctx, st, fuel) {
                    Ok(v) => v,
                    Err(e) => {
                        return Err(e);
                    },
                };
                Ok(Some(v))
            },
            Stmt::Return => Ok(Some(Value::Unit)),
            Stmt::Defn { name, params, ret: _, rule } => {
                let snapshot = ctx.snapshot();
                let mut names: Vec<String> = Vec::new();
                let n = params.len();
                let mut i: usize = 0;
                while i < n
                    invariant
                        i <= n,
                        names@.len() == i as int,
                        forall|j: int| 0 <= j < i ==> names@[j]@ == params@[j].ident@,
                    decreases n - i,
                {
                    names.push(params[i].ident.clone());
                    i += 1;
                }
                let func = Value::Func(
                    FuncVal {
                        name: name.clone(),
                        captures: snapshot,
                        params: names,
                        rule: crate::ast::clone_nest(rule),
                    },
                );
                proof {
                    assert(val_of(func)->Func_params =~= sv->Defn_params.map_values(
                        |p: (Seq<char>, crate::ast::Type)| p.0,
                    ));
                }
                ctx.set(name.clone(), func);
                Ok(None)
            },
            Stmt::FuncCall { appl } => {
                match appl.eval(ctx, st, fuel) {
                    Ok(_) => Ok(None),
                    Err(e) => Err(e),
                }
            },
        }
    }
}

impl Blck {
    /// Run the statements in order, stopping at the first early
    /// return.
    #[verifier::loop_isolation(false)]
    pub fn eval(
        &self,
        ctx: &mut Context,
        st: &mut RunState,
        fuel: u64,
    ) -> (r: Result<Option<Value>, ErrKind>)
        ensures
            stmt_matches(
                r,
                sem::eval_blck(blck_view(*self), 0, old(ctx)@, old(st)@, fuel as nat),
                final(ctx)@,
                final(st)@,
            ),
        decreases fuel, 2int, blck_view(*self), 1int,
    {
        let ghost bv = blck_view(*self);
        let ghost goal = sem::eval_blck(bv, 0, old(ctx)@, old(st)@, fuel as nat);
        proof {
            lemma_stmts_view(self.stmts@);
        }
        let n = self.stmts.len();
        let mut i: usize = 0;
        while i < n
            invariant
                i <= n,
                goal == sem::eval_blck(bv, i as int, ctx@, st@, fuel as nat),
            decreases n - i,
        {
            proof {
                assert(decreases_to!(bv => bv.stmts));
                assert(decreases_to!(bv.stmts => bv.stmts[i as int]));
            }
            let flow = match self.stmts[i].eval(ctx, st, fuel) {
                Ok(f) => f,
                Err(e) => {
                    return Err(e);
                },
            };
            if let Some(v) = flow {
                return Ok(Some(v));
            }
            i += 1;
        }
        Ok(None)
    }
}

impl Nest {
    /// Run a nested block; it shares the surrounding frame.
    pub fn eval(
        &self,
        ctx: &mut Context,
        st: &mut RunState,
        fuel: u64,
    ) -> (r: Result<Option<Value>, ErrKind>)
        ensures
            stmt_matches(
                r,
                sem::eval_blck(nest_view(*self), 0, old(ctx)@, old(st)@, fuel as nat),
                final(ctx)@,
                final(st)@,
            ),
        decreases fuel, 2int, nest_view(*self), 2int,
    {
        self.block.eval(ctx, st, fuel)
    }
}

impl Prgm {
    /// Run a whole program against a frame and a console state.  Any
    /// early return of the main block is discarded, as is its value.
    pub fn eval(
        &self,
        ctx: &mut Context,
        st: &mut RunState,
        fuel: u64,
    ) -> (r: Result<(), ErrKind>)
        ensures
            match sem::eval_blck(prgm_view(*self), 0, old(ctx)@, old(st)@, fuel as nat) {
                StmtOut::Done { env, st: stv, .. } => r is Ok && final(ctx)@ == env && final(st)@
                    == stv,
                StmtOut::Fail { e, st: stv } => r == Err::<(), ErrKind>(e) && final(st)@ == stv,
            },
    {
        match self.main.eval(ctx, st, fuel) {
            Ok(_) => Ok(()),
            Err(e) => Err(e),
        }
    }
}

} // verus!
