//! Operator semantics: one dispatch for every binary tier and one for
//! the unary tier, shared by the evaluator.
//!
//! Integers are signed 64-bit words.  `+`, `-`, `*` and `^` fail with
//! an overflow error when the mathematical result does not fit; `/`
//! and `%` truncate toward zero as machine division does, fail on a
//! zero divisor, and fail with an overflow error in the one corner
//! (the smallest integer divided by minus one) that no 64-bit word can
//! hold.
use vstd::prelude::*;

use crate::ast::{Add, Bop, Comp, Mult};
use crate::errors::ErrKind;
use crate::value::{val_of, ValV, Value};

verus! {

/// Whether a mathematical integer fits in a signed 64-bit word.
pub open spec fn in_i64(v: int) -> bool {
    i64::MIN <= v && v <= i64::MAX
}

/// Division truncating toward zero, as machine division does.
pub open spec fn trunc_div(x: int, d: int) -> int {
    if x == 0 {
        0
    } else if x > 0 && d > 0 {
        x / d
    } else if x < 0 && d < 0 {
        (x * -1) / (d * -1)
    } else if x < 0 {
        ((x * -1) / d) * -1
    } else {
        (x / (d * -1)) * -1
    }
}

/// Remainder with the sign of the dividend, as machine remainder does.
pub open spec fn trunc_rem(x: int, d: int) -> int {
    if x == 0 {
        0
    } else if x > 0 && d > 0 {
        x % d
    } else if x < 0 && d < 0 {
        ((x * -1) % (d * -1)) * -1
    } else if x < 0 {
        ((x * -1) % d) * -1
    } else {
        x % (d * -1)
    }
}

/// The chain of partial powers `b^0, b^1, ..., b^e`, each stored back
/// into a 64-bit word: the result of `b^e`, or nothing as soon as a
/// step leaves the representable range.
pub open spec fn pow_step(b: int, e: nat) -> Option<int>
    decreases e,
{
    if e == 0 {
        Some(1)
    } else {
        match pow_step(b, (e - 1) as nat) {
            Option::None => Option::None,
            Option::Some(p) => {
                let q = p * b;
                if in_i64(q) {
                    Some(q)
                } else {
                    Option::None
                }
            },
        }
    }
}

/// What a binary operator yields on two already-evaluated values.
/// Operand tags are checked left first; arithmetic tiers want
/// integers, comparisons want integers, conjunction and disjunction
/// want booleans.
pub open spec fn apply_bop_s(op: Bop, l: ValV, r: ValV) -> Result<ValV, ErrKind> {
    match op {
        Bop::AndOp(_) => match (l, r) {
            (ValV::Bool(a), ValV::Bool(b)) => Ok(ValV::Bool(a && b)),
            (ValV::Bool(_), _) => Err(ErrKind::ExpectedBool),
            _ => Err(ErrKind::ExpectedBool),
        },
        Bop::OrOp(_) => match (l, r) {
            (ValV::Bool(a), ValV::Bool(b)) => Ok(ValV::Bool(a || b)),
            (ValV::Bool(_), _) => Err(ErrKind::ExpectedBool),
            _ => Err(ErrKind::ExpectedBool),
        },
        Bop::CompOp(c) => match (l, r) {
            (ValV::Int(a), ValV::Int(b)) => Ok(
                ValV::Bool(
                    match c {
                        Comp::Lt => a < b,
                        Comp::Leq => a <= b,
                        Comp::Eq => a == b,
                    },
                ),
            ),
            (ValV::Int(_), _) => Err(ErrKind::ExpectedInt),
            _ => Err(ErrKind::ExpectedInt),
        },
        Bop::AddOp(a_op) => match (l, r) {
            (ValV::Int(a), ValV::Int(b)) => {
                let v = match a_op {
                    Add::Plus => a + b,
                    Add::Minus => a - b,
                };
                if in_i64(v) {
                    Ok(ValV::Int(v))
                } else {
                    Err(ErrKind::IntOverflow)
                }
            },
            (ValV::Int(_), _) => Err(ErrKind::ExpectedInt),
            _ => Err(ErrKind::ExpectedInt),
        },
        Bop::MultOp(m_op) => match (l, r) {
            (ValV::Int(a), ValV::Int(b)) => match m_op {
                Mult::Times => {
                    let v = a * b;
                    if in_i64(v) {
                        Ok(ValV::Int(v))
                    } else {
                        Err(ErrKind::IntOverflow)
                    }
                },
                Mult::Div => {
                    if b == 0 {
                        Err(ErrKind::DivideByZero)
                    } else {
                        let v = trunc_div(a, b);
                        if in_i64(v) {
                            Ok(ValV::Int(v))
                        } else {
                            Err(ErrKind::IntOverflow)
                        }
                    }
                },
                Mult::Mod => {
                    if b == 0 {
                        Err(ErrKind::ModByZero)
                    } else if a == i64::MIN && b == -1 {
                        Err(ErrKind::IntOverflow)
                    } else {
                        Ok(ValV::Int(trunc_rem(a, b)))
                    }
                },
            },
            (ValV::Int(_), _) => Err(ErrKind::ExpectedInt),
            _ => Err(ErrKind::ExpectedInt),
        },
        Bop::ExptOp(_) => match (l, r) {
            (ValV::Int(a), ValV::Int(b)) => {
                if b < 0 {
                    Err(ErrKind::NegativePower)
                } else {
                    match pow_step(a, b as nat) {
                        Option::Some(v) => Ok(ValV::Int(v)),
                        Option::None => Err(ErrKind::IntOverflow),
                    }
                }
            },
            (ValV::Int(_), _) => Err(ErrKind::ExpectedInt),
            _ => Err(ErrKind::ExpectedInt),
        },
    }
}

/// What boolean negation yields.
pub open spec fn apply_not_s(v: ValV) -> Result<ValV, ErrKind> {
    match v {
        ValV::Bool(b) => Ok(ValV::Bool(!b)),
        _ => Err(ErrKind::ExpectedBool),
    }
}

/// Once a partial power has left the representable range, the full
/// power has too.
pub proof fn lemma_pow_step_none(b: int, k: nat, e: nat)
    requires
        k <= e,
        pow_step(b, k) is None,
    ensures
        pow_step(b, e) is None,
    decreases e,
{
    if e > k {
        lemma_pow_step_none(b, k, (e - 1) as nat);
    }
}

pub proof fn lemma_pow_step_one(e: nat)
    ensures
        pow_step(1, e) == Some(1int),
    decreases e,
{
    if e > 0 {
        lemma_pow_step_one((e - 1) as nat);
    }
}

pub proof fn lemma_pow_step_zero(e: nat)
    ensures
        pow_step(0, e) == Some(
            if e == 0 {
                1int
            } else {
                0int
            },
        ),
    decreases e,
{
    if e > 0 {
        lemma_pow_step_zero((e - 1) as nat);
    }
}

pub proof fn lemma_pow_step_neg_one(e: nat)
    ensures
        pow_step(-1, e) == Some(
            if e % 2 == 0 {
                1int
            } else {
                -1int
            },
        ),
    decreases e,
{
    if e > 0 {
        lemma_pow_step_neg_one((e - 1) as nat);
    }
}

/// Apply a binary operator to two evaluated operands.
pub fn apply_bop(op: &Bop, lhs: &Value, rhs: &Value) -> (r: Result<Value, ErrKind>)
    ensures
        ({
            let s = apply_bop_s(*op, val_of(*lhs), val_of(*rhs));
            match r {
                Ok(v) => s == Ok::<ValV, ErrKind>(val_of(v)),
                Err(e) => s == Err::<ValV, ErrKind>(e),
            }
        }),
{
    match op {
        Bop::AndOp(_) => match (lhs, rhs) {
            (Value::Bool(a), Value::Bool(b)) => Ok(Value::Bool(*a && *b)),
            (Value::Bool(_), _) => Err(ErrKind::ExpectedBool),
            _ => Err(ErrKind::ExpectedBool),
        },
        Bop::OrOp(_) => match (lhs, rhs) {
            (Value::Bool(a), Value::Bool(b)) => Ok(Value::Bool(*a || *b)),
            (Value::Bool(_), _) => Err(ErrKind::ExpectedBool),
            _ => Err(ErrKind::ExpectedBool),
        },
        Bop::CompOp(c) => match (lhs, rhs) {
            (Value::Int(a), Value::Int(b)) => Ok(
                Value::Bool(
                    match c {
                        Comp::Lt => *a < *b,
                        Comp::Leq => *a <= *b,
                        Comp::Eq => *a == *b,
                    },
                ),
            ),
            (Value::Int(_), _) => Err(ErrKind::ExpectedInt),
            _ => Err(ErrKind::ExpectedInt),
        },
        Bop::AddOp(a_op) => match (lhs, rhs) {
            (Value::Int(a), Value::Int(b)) => {
                let res = match a_op {
                    Add::Plus => a.checked_add(*b),
                    Add::Minus => a.checked_sub(*b),
                };
                match res {
                    Some(v) => Ok(Value::Int(v)),
                    None => Err(ErrKind::IntOverflow),
                }
            },
            (Value::Int(_), _) => Err(ErrKind::ExpectedInt),
            _ => Err(ErrKind::ExpectedInt),
        },
        Bop::MultOp(m_op) => match (lhs, rhs) {
            (Value::Int(a), Value::Int(b)) => match m_op {
                Mult::Times => match a.checked_mul(*b) {
                    Some(v) => Ok(Value::Int(v)),
                    None => Err(ErrKind::IntOverflow),
                },
                Mult::Div => {
                    if *b == 0 {
                        Err(ErrKind::DivideByZero)
                    } else {
                        match a.checked_div(*b) {
                            Some(v) => Ok(Value::Int(v)),
                            None => Err(ErrKind::IntOverflow),
                        }
                    }
                },
                Mult::Mod => {
                    if *b == 0 {
                        Err(ErrKind::ModByZero)
                    } else {
                        match a.checked_rem(*b) {
                            Some(v) => Ok(Value::Int(v)),
                            None => Err(ErrKind::IntOverflow),
                        }
                    }
                },
            },
            (Value::Int(_), _) => Err(ErrKind::ExpectedInt),
            _ => Err(ErrKind::ExpectedInt),
        },
        Bop::ExptOp(_) => match (lhs, rhs) {
            (Value::Int(a), Value::Int(b)) => {
                if *b < 0 {
                    Err(ErrKind::NegativePower)
                } else {
                    pow_i64(*a, *b)
                }
            },
            (Value::Int(_), _) => Err(ErrKind::ExpectedInt),
            _ => Err(ErrKind::ExpectedInt),
        },
    }
}

/// Raise `base` to the non-negative power `e`, failing as soon as a
/// partial power leaves the representable range.
fn pow_i64(base: i64, e: i64) -> (r: Result<Value, ErrKind>)
    requires
        e >= 0,
    ensures
        ({
            let s = pow_step(base as int, e as nat);
            match r {
                Ok(v) => s == Some(val_of(v)->Int_0),
                Err(err) => s is None && err == ErrKind::IntOverflow,
            }
        }),
        r is Ok ==> r->Ok_0 is Int,
{
    if base == 1 {
        proof {
            lemma_pow_step_one(e as nat);
        }
        return Ok(Value::Int(1));
    }
    if base == 0 {
        proof {
            lemma_pow_step_zero(e as nat);
        }
        return Ok(Value::Int(if e == 0 { 1 } else { 0 }));
    }
    if base == -1 {
        proof {
            lemma_pow_step_neg_one(e as nat);
        }
        return Ok(Value::Int(if e % 2 == 0 { 1 } else { -1 }));
    }
    let mut acc: i64 = 1;
    let mut k: i64 = 0;
    while k < e
        invariant
            0 <= k <= e,
            pow_step(base as int, k as nat) == Some(acc as int),
        decreases e - k,
    {
        match acc.checked_mul(base) {
            Some(v) => {
                acc = v;
            },
            None => {
                proof {
                    lemma_pow_step_none(base as int, (k + 1) as nat, e as nat);
                }
                return Err(ErrKind::IntOverflow);
            },
        }
        k += 1;
    }
    Ok(Value::Int(acc))
}

/// Apply boolean negation to an evaluated operand.
pub fn apply_not(v: &Value) -> (r: Result<Value, ErrKind>)
    ensures
        ({
            let s = apply_not_s(val_of(*v));
            match r {
                Ok(out) => s == Ok::<ValV, ErrKind>(val_of(out)),
                Err(e) => s == Err::<ValV, ErrKind>(e),
            }
        }),
{
    match v {
        Value::Bool(b) => Ok(Value::Bool(!*b)),
        _ => Err(ErrKind::ExpectedBool),
    }
}

} // verus!
