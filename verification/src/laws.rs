//! Laws of the checker and the evaluator, stated and proved once and
//! for all inputs.
use vstd::prelude::*;

use crate::ast::{ApplV, BlckV, Bop, ExpnV, LeafV, StmtV};
use crate::check::{ck_appl, ck_blck, ck_expn, ck_leaf, CkOut, DefsV, Rtns, SymsV, Ty, TyOut};
use crate::errors::ErrKind;
use crate::ops::apply_bop_s;
use crate::semantics::{eval_appl, eval_expn, eval_leaf, ExpnOut};
use crate::value::{assoc_lookup, EnvV, StV, ValV};

verus! {

/// Whether a runtime value carries the given ground type's tag.  A
/// function value carries no ground type.
pub open spec fn tag_matches(v: ValV, t: Ty) -> bool {
    match v {
        ValV::Unit => t == Ty::Unit,
        ValV::Int(_) => t == Ty::Int,
        ValV::Str(_) => t == Ty::Str,
        ValV::Bool(_) => t == Ty::Bool,
        ValV::Func { .. } => false,
    }
}

/// An environment conforms to a symbol table when every name the
/// table types is either absent at runtime or bound to a value of
/// that type's tag.
pub open spec fn env_conforms(syms: SymsV, env: EnvV) -> bool {
    forall|n: Seq<char>|
        #![trigger assoc_lookup(env, n)]
        match (assoc_lookup(syms, n), assoc_lookup(env, n)) {
            (Some(t), Some(v)) => tag_matches(v, t),
            _ => true,
        }
}

/// An expression that performs no function application.
pub open spec fn call_free_expn(e: ExpnV) -> bool
    decreases e,
{
    match e {
        ExpnV::Binary { lhs, rhs, .. } => call_free_expn(*lhs) && call_free_expn(*rhs),
        ExpnV::Unary { child } => call_free_expn(*child),
        ExpnV::Apply { appl } => call_free_appl(appl),
    }
}

pub open spec fn call_free_appl(a: ApplV) -> bool
    decreases a,
{
    a.args.len() == 0 && call_free_leaf(a.left)
}

pub open spec fn call_free_leaf(l: LeafV) -> bool
    decreases l,
{
    match l {
        LeafV::Inpt { prompt } => call_free_expn(*prompt),
        LeafV::IntCast { expn } => call_free_expn(*expn),
        LeafV::StrCast { expn } => call_free_expn(*expn),
        LeafV::Paren { expn } => call_free_expn(*expn),
        _ => true,
    }
}

/// The type the checker infers for an expression agrees with the tag
/// of whatever value the evaluator produces for it.
pub open spec fn ck_and_eval_agree(
    e: ExpnV,
    defs: DefsV,
    syms: SymsV,
    env: EnvV,
    st: StV,
    fuel: nat,
) -> bool {
    match (ck_expn(e, defs, syms), eval_expn(e, env, st, fuel)) {
        (TyOut::Done { t }, ExpnOut::Done { v, .. }) => tag_matches(v, t),
        _ => true,
    }
}

/// The call-free fragment of type soundness: in an environment that
/// conforms to the symbol table, an expression without applications
/// that the checker types and the evaluator finishes yields a value
/// of exactly the inferred type's tag.  (Applications would need the
/// whole program's definitions related to the function values in the
/// environment; they are exercised by tests instead.)
#[verifier::rlimit(60)]
pub proof fn lemma_call_free_expn_types_sound(
    e: ExpnV,
    defs: DefsV,
    syms: SymsV,
    env: EnvV,
    st: StV,
    fuel: nat,
)
    requires
        env_conforms(syms, env),
        call_free_expn(e),
    ensures
        ck_and_eval_agree(e, defs, syms, env, st, fuel),
    decreases e,
{
    match e {
        ExpnV::Binary { op, lhs, rhs } => {
            // The operator alone fixes the result tag: arithmetic
            // tiers yield integers, the others booleans, whenever
            // evaluation succeeds at all.
            let ckr = ck_expn(e, defs, syms);
            let evr = eval_expn(e, env, st, fuel);
            match (ckr, evr) {
                (TyOut::Done { t }, ExpnOut::Done { v, .. }) => {
                    match op {
                        Bop::AndOp(_) => {
                            assert(t == Ty::Bool && v is Bool);
                        },
                        Bop::OrOp(_) => {
                            assert(t == Ty::Bool && v is Bool);
                        },
                        Bop::CompOp(_) => {
                            assert(t == Ty::Bool && v is Bool);
                        },
                        Bop::AddOp(_) => {
                            assert(t == Ty::Int && v is Int);
                        },
                        Bop::MultOp(_) => {
                            assert(t == Ty::Int && v is Int);
                        },
                        Bop::ExptOp(_) => {
                            assert(t == Ty::Int && v is Int);
                        },
                    }
                },
                _ => {},
            }
        },
        ExpnV::Unary { child } => {
            let ckr = ck_expn(e, defs, syms);
            let evr = eval_expn(e, env, st, fuel);
            match (ckr, evr) {
                (TyOut::Done { t }, ExpnOut::Done { v, .. }) => {
                    assert(t == Ty::Bool);
                    assert(v is Bool);
                },
                _ => {},
            }
        },
        ExpnV::Apply { appl } => {
            assert(call_free_appl(appl));
            if appl.args.len() == 0 {
                lemma_call_free_leaf_types_sound(appl.left, defs, syms, env, st, fuel);
                assert(ck_appl(appl, defs, syms) == ck_leaf(appl.left, defs, syms));
                match eval_leaf(appl.left, env, st, fuel) {
                    ExpnOut::Done { v, st: st1 } => {
                        assert(eval_appl(appl, env, st, fuel) == (ExpnOut::Done { v, st: st1 }));
                    },
                    ExpnOut::Fail { .. } => {},
                }
            }
        },
    }
}

/// The leaf form of [`lemma_call_free_expn_types_sound`].
pub proof fn lemma_call_free_leaf_types_sound(
    l: LeafV,
    defs: DefsV,
    syms: SymsV,
    env: EnvV,
    st: StV,
    fuel: nat,
)
    requires
        env_conforms(syms, env),
        call_free_leaf(l),
    ensures
        (match (ck_leaf(l, defs, syms), eval_leaf(l, env, st, fuel)) {
            (TyOut::Done { t }, ExpnOut::Done { v, .. }) => tag_matches(v, t),
            _ => true,
        }),
    decreases l,
{
    match l {
        LeafV::Name { ident } => {
            assert(assoc_lookup(env, ident) is Some ==> env_conforms(syms, env));
        },
        LeafV::Paren { expn } => {
            lemma_call_free_expn_types_sound(*expn, defs, syms, env, st, fuel);
        },
        _ => {
            // Literals carry their own tags; the conversions and the
            // input form force theirs whenever they succeed.
        },
    }
}

// ---------------------------------------------------------------------
// Conformance preservation across statements.
// ---------------------------------------------------------------------

/// All of a `print`'s arguments are call-free.
pub open spec fn call_free_exprs(es: Seq<ExpnV>) -> bool {
    forall|i: int| 0 <= i < es.len() ==> call_free_expn(#[trigger] es[i])
}

/// A statement allowed inside a branch or loop body in the fragment
/// below: it neither declares, defines nor calls anything, and every
/// expression in it is call-free.
pub open spec fn inner_simple_stmt(s: StmtV) -> bool
    decreases s, 0int,
{
    match s {
        StmtV::Decl { .. } => false,
        StmtV::Assgn { expn, .. } => call_free_expn(expn),
        StmtV::Updt { expn, .. } => call_free_expn(expn),
        StmtV::Pass => true,
        StmtV::Print { args } => call_free_exprs(args),
        StmtV::If { cond, if_nest, else_nest } => call_free_expn(cond) && inner_simple_from(
            if_nest,
            0,
        ) && inner_simple_from(else_nest, 0),
        StmtV::While { cond, nest } => call_free_expn(cond) && inner_simple_from(nest, 0),
        StmtV::ReturnExpn { expn } => call_free_expn(expn),
        StmtV::Return => true,
        StmtV::Defn { .. } => false,
        StmtV::FuncCall { .. } => false,
    }
}

/// Every statement of the block, from its `i`-th on, is inner-simple.
pub open spec fn inner_simple_from(b: BlckV, i: int) -> bool
    decreases b, b.stmts.len() - i,
{
    i >= b.stmts.len() || (0 <= i && inner_simple_stmt(b.stmts[i]) && inner_simple_from(b, i + 1))
}

/// A statement of the fragment: inner-simple, or a declaration of a
/// call-free expression (declarations may stand at the level whose
/// symbol table they extend).
pub open spec fn simple_stmt(s: StmtV) -> bool {
    match s {
        StmtV::Decl { expn, .. } => call_free_expn(expn),
        _ => inner_simple_stmt(s),
    }
}

/// Binding one more conforming value keeps an environment conforming.
proof fn lemma_conforms_push(syms: SymsV, env: EnvV, name: Seq<char>, v: ValV)
    requires
        env_conforms(syms, env),
        match assoc_lookup(syms, name) {
            Some(t) => tag_matches(v, t),
            None => true,
        },
    ensures
        env_conforms(syms, env.push((name, v))),
{
    assert forall|n: Seq<char>|
        match (assoc_lookup(syms, n), #[trigger] assoc_lookup(env.push((name, v)), n)) {
            (Some(t), Some(w)) => tag_matches(w, t),
            _ => true,
        } by {
        crate::value::lemma_assoc_lookup_push(env, name, v, n);
    }
}

/// Declaring a name extends the table and the environment together.
proof fn lemma_conforms_push_both(syms: SymsV, env: EnvV, name: Seq<char>, t: Ty, v: ValV)
    requires
        env_conforms(syms, env),
        tag_matches(v, t),
    ensures
        env_conforms(syms.push((name, t)), env.push((name, v))),
{
    assert forall|n: Seq<char>|
        match (
            assoc_lookup(syms.push((name, t)), n),
            #[trigger] assoc_lookup(env.push((name, v)), n),
        ) {
            (Some(t2), Some(w)) => tag_matches(w, t2),
            _ => true,
        } by {
        crate::value::lemma_assoc_lookup_push(syms, name, t, n);
        crate::value::lemma_assoc_lookup_push(env, name, v, n);
    }
}

/// Checking a `print` leaves the tables exactly as they were.
proof fn lemma_ck_print_tables(args: Seq<ExpnV>, i: int, defs: DefsV, syms: SymsV)
    ensures
        (match crate::check::ck_print(args, i, defs, syms) {
            CkOut::Done { r, defs: d2, syms: s2 } => r == Rtns::Fallthrough && d2 == defs && s2
                == syms,
            _ => true,
        }),
    decreases args.len() - i,
{
    if 0 <= i < args.len() {
        lemma_ck_print_tables(args, i + 1, defs, syms);
    }
}

/// Running a `print` leaves the environment exactly as it was.
proof fn lemma_eval_print_env(args: Seq<ExpnV>, i: int, env: EnvV, st: StV, fuel: nat)
    ensures
        (match crate::semantics::eval_print(args, i, env, st, fuel) {
            crate::semantics::StmtOut::Done { flow, env: e2, .. } => flow is None && e2 == env,
            _ => true,
        }),
    decreases args.len() - i,
{
    if 0 <= i < args.len() {
        match eval_expn(args[i], env, st, fuel) {
            ExpnOut::Done { st: st1, v } => {
                lemma_eval_print_env(
                    args,
                    i + 1,
                    env,
                    StV {
                        input: st1.input,
                        output: st1.output.push(crate::text::str_of_val(v) + "\n"@),
                    },
                    fuel,
                );
            },
            ExpnOut::Fail { .. } => {},
        }
    }
}

/// An inner-simple statement that both the checker and the evaluator
/// finish leaves the tables untouched and the environment conforming.
proof fn lemma_inner_stmt_conformance(
    s: StmtV,
    defs: DefsV,
    syms: SymsV,
    env: EnvV,
    st: StV,
    fuel: nat,
)
    requires
        env_conforms(syms, env),
        inner_simple_stmt(s),
    ensures
        (match crate::check::ck_stmt(s, defs, syms) {
            CkOut::Done { defs: d2, syms: s2, .. } => d2 == defs && s2 == syms,
            _ => true,
        }),
        (match (crate::check::ck_stmt(s, defs, syms), crate::semantics::eval_stmt(
            s,
            env,
            st,
            fuel,
        )) {
            (
                CkOut::Done { .. },
                crate::semantics::StmtOut::Done { env: e2, .. },
            ) => env_conforms(syms, e2),
            _ => true,
        }),
    decreases fuel, s, 0int,
{
    match s {
        StmtV::Assgn { name, expn } => {
            lemma_call_free_expn_types_sound(expn, defs, syms, env, st, fuel);
            match (ck_expn(expn, defs, syms), eval_expn(expn, env, st, fuel)) {
                (TyOut::Done { t }, ExpnOut::Done { v, .. }) => {
                    match assoc_lookup(syms, name) {
                        Some(expected) => {
                            if t == expected {
                                lemma_conforms_push(syms, env, name, v);
                            }
                        },
                        None => {},
                    }
                },
                _ => {},
            }
        },
        StmtV::Updt { name, .. } => {
            match (crate::check::ck_stmt(s, defs, syms), crate::semantics::eval_stmt(
                s,
                env,
                st,
                fuel,
            )) {
                (
                    CkOut::Done { .. },
                    crate::semantics::StmtOut::Done { env: e2, .. },
                ) => {
                    lemma_conforms_push(syms, env, name, e2.last().1);
                },
                _ => {},
            }
        },
        StmtV::Pass => {},
        StmtV::Print { args } => {
            lemma_ck_print_tables(args, 0, defs, syms);
            lemma_eval_print_env(args, 0, env, st, fuel);
        },
        StmtV::If { cond, if_nest, else_nest } => {
            match eval_expn(cond, env, st, fuel) {
                ExpnOut::Done { v, st: st1 } => {
                    lemma_inner_blck_conformance(
                        if_nest,
                        0,
                        Rtns::Fallthrough,
                        defs,
                        syms,
                        env,
                        st1,
                        fuel,
                    );
                    lemma_inner_blck_conformance(
                        else_nest,
                        0,
                        Rtns::Fallthrough,
                        defs,
                        syms,
                        env,
                        st1,
                        fuel,
                    );
                },
                ExpnOut::Fail { .. } => {},
            }
        },
        StmtV::While { cond, nest } => {
            match eval_expn(cond, env, st, fuel) {
                ExpnOut::Done { v, st: st1 } => {
                    lemma_inner_blck_conformance(
                        nest,
                        0,
                        Rtns::Fallthrough,
                        defs,
                        syms,
                        env,
                        st1,
                        fuel,
                    );
                    match crate::semantics::eval_blck(nest, 0, env, st1, fuel) {
                        crate::semantics::StmtOut::Done { flow, env: env2, st: st2 } => {
                            if flow is None && fuel > 0 {
                                match crate::check::ck_stmt(s, defs, syms) {
                                    CkOut::Done { .. } => {
                                        lemma_inner_stmt_conformance(
                                            s,
                                            defs,
                                            syms,
                                            env2,
                                            st2,
                                            (fuel - 1) as nat,
                                        );
                                    },
                                    CkOut::Fail { .. } => {},
                                }
                            }
                        },
                        crate::semantics::StmtOut::Fail { .. } => {},
                    }
                },
                ExpnOut::Fail { .. } => {},
            }
        },
        StmtV::ReturnExpn { .. } => {},
        StmtV::Return => {},
        _ => {},
    }
}

/// An inner-simple block that both the checker and the evaluator
/// finish leaves the environment conforming to the unchanged table.
proof fn lemma_inner_blck_conformance(
    b: BlckV,
    i: int,
    acc: Rtns,
    defs: DefsV,
    syms: SymsV,
    env: EnvV,
    st: StV,
    fuel: nat,
)
    requires
        env_conforms(syms, env),
        inner_simple_from(b, i),
    ensures
        (match (crate::check::ck_blck(b, i, acc, defs, syms), crate::semantics::eval_blck(
            b,
            i,
            env,
            st,
            fuel,
        )) {
            (
                CkOut::Done { .. },
                crate::semantics::StmtOut::Done { env: e2, .. },
            ) => env_conforms(syms, e2),
            _ => true,
        }),
    decreases fuel, b, b.stmts.len() - i,
{
    if 0 <= i < b.stmts.len() && !(acc is Returns) {
        lemma_inner_stmt_conformance(b.stmts[i], defs, syms, env, st, fuel);
        match (
            crate::check::ck_stmt(b.stmts[i], defs, syms),
            crate::semantics::eval_stmt(b.stmts[i], env, st, fuel),
        ) {
            (
                CkOut::Done { r: r1, .. },
                crate::semantics::StmtOut::Done { flow, env: env1, st: st1 },
            ) => {
                match crate::check::reconcile_s(acc, r1) {
                    Ok(joined) => {
                        if flow is None {
                            lemma_inner_blck_conformance(
                                b,
                                i + 1,
                                if r1 is Returns {
                                    r1
                                } else {
                                    joined
                                },
                                defs,
                                syms,
                                env1,
                                st1,
                                fuel,
                            );
                        }
                    },
                    Err(_) => {},
                }
            },
            _ => {},
        }
    }
}

/// The statement-level fragment of type soundness: a statement that
/// declares, assigns, updates, prints, branches or loops — with every
/// expression call-free and nothing declared, defined or called inside
/// its nested blocks — keeps the runtime environment conforming to the
/// checker's symbol table.  (A declaration inside a branch can break
/// conformance, since the branch may never run; such programs are
/// outside this fragment.)
pub proof fn lemma_simple_stmt_preserves_conformance(
    s: StmtV,
    defs: DefsV,
    syms: SymsV,
    env: EnvV,
    st: StV,
    fuel: nat,
)
    requires
        env_conforms(syms, env),
        simple_stmt(s),
    ensures
        (match (crate::check::ck_stmt(s, defs, syms), crate::semantics::eval_stmt(
            s,
            env,
            st,
            fuel,
        )) {
            (
                CkOut::Done { syms: s2, .. },
                crate::semantics::StmtOut::Done { env: e2, .. },
            ) => env_conforms(s2, e2),
            _ => true,
        }),
{
    match s {
        StmtV::Decl { name, ty, expn } => {
            lemma_call_free_expn_types_sound(expn, defs, syms, env, st, fuel);
            match (ck_expn(expn, defs, syms), eval_expn(expn, env, st, fuel)) {
                (TyOut::Done { t }, ExpnOut::Done { v, .. }) => {
                    if t == crate::check::ty_view(ty) {
                        lemma_conforms_push_both(syms, env, name, t, v);
                    }
                },
                _ => {},
            }
        },
        _ => {
            lemma_inner_stmt_conformance(s, defs, syms, env, st, fuel);
        },
    }
}

/// A statement that follows a definite-return verdict in the same
/// block is always rejected by the checker, whatever the statement,
/// the tables and the returned type are.
pub proof fn lemma_statement_after_return_rejected(
    b: BlckV,
    i: int,
    t: Ty,
    defs: DefsV,
    syms: SymsV,
)
    requires
        0 <= i < b.stmts.len(),
    ensures
        ck_blck(b, i, Rtns::Returns(t), defs, syms) == (CkOut::Fail {
            e: ErrKind::AlreadyReturned,
        }),
{
}

/// A right-associative operator evaluates its right operand first, in
/// the incoming console state, and its left operand only afterwards,
/// in whatever state the right one left behind.
pub proof fn lemma_right_assoc_order(
    op: Bop,
    lhs: ExpnV,
    rhs: ExpnV,
    env: EnvV,
    st: StV,
    fuel: nat,
)
    requires
        op.right_assoc(),
    ensures
        eval_expn(
            ExpnV::Binary { op, lhs: Box::new(lhs), rhs: Box::new(rhs) },
            env,
            st,
            fuel,
        ) == (match eval_expn(rhs, env, st, fuel) {
            ExpnOut::Fail { e, st } => ExpnOut::Fail { e, st },
            ExpnOut::Done { v: rv, st: st1 } => match eval_expn(lhs, env, st1, fuel) {
                ExpnOut::Fail { e, st } => ExpnOut::Fail { e, st },
                ExpnOut::Done { v: lv, st: st2 } => match apply_bop_s(op, lv, rv) {
                    Ok(v) => ExpnOut::Done { v, st: st2 },
                    Err(e) => ExpnOut::Fail { e, st: st2 },
                },
            },
        }),
{
}

/// A left-associative operator evaluates its left operand first, in
/// the incoming console state, and its right operand only afterwards.
pub proof fn lemma_left_assoc_order(
    op: Bop,
    lhs: ExpnV,
    rhs: ExpnV,
    env: EnvV,
    st: StV,
    fuel: nat,
)
    requires
        !op.right_assoc(),
    ensures
        eval_expn(
            ExpnV::Binary { op, lhs: Box::new(lhs), rhs: Box::new(rhs) },
            env,
            st,
            fuel,
        ) == (match eval_expn(lhs, env, st, fuel) {
            ExpnOut::Fail { e, st } => ExpnOut::Fail { e, st },
            ExpnOut::Done { v: lv, st: st1 } => match eval_expn(rhs, env, st1, fuel) {
                ExpnOut::Fail { e, st } => ExpnOut::Fail { e, st },
                ExpnOut::Done { v: rv, st: st2 } => match apply_bop_s(op, lv, rv) {
                    Ok(v) => ExpnOut::Done { v, st: st2 },
                    Err(e) => ExpnOut::Fail { e, st: st2 },
                },
            },
        }),
{
}

} // verus!
