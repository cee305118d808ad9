//! Runtime values, environments and the console state.
//!
//! A [`Value`] is the tagged union the evaluator produces; a
//! [`Context`] is one frame's name-to-value table.  Bindings are
//! appended and looked up newest-first, so a later binding for the same
//! name shadows an earlier one — the observable behaviour of one flat
//! table.  [`RunState`] carries the console: input as a queue of lines
//! (without terminators) and output as a log of emitted pieces.
use vstd::prelude::*;

use crate::ast::{clone_nest, nest_view, BlckV, Nest};

verus! {

/// A runtime value.
#[derive(Debug, PartialEq, Eq)]
pub enum Value {
    Unit,
    Int(i64),
    Str(String),
    Bool(bool),
    Func(FuncVal),
}

/// A function value: the whole defining environment copied at
/// definition time, the parameter names, and the body.  `name` is the
/// name the function was defined under; each call inserts the function
/// back into its own frame under that name, so the snapshot behaves as
/// if it contained the function itself and recursion works.
#[derive(Debug, PartialEq, Eq)]
pub struct FuncVal {
    pub name: String,
    pub captures: Context,
    pub params: Vec<String>,
    pub rule: Nest,
}

/// One binding of a frame.
#[derive(Debug, PartialEq, Eq)]
pub struct Binding {
    pub name: String,
    pub val: Value,
}

/// One frame's environment: an ordered table of bindings, newest last.
#[derive(Debug, PartialEq, Eq)]
pub struct Context {
    pub vars: Vec<Binding>,
}

/// The mathematical mirror of an environment.
pub type EnvV = Seq<(Seq<char>, ValV)>;

/// The mathematical mirror of a [`Value`].
pub enum ValV {
    Unit,
    Int(int),
    Str(Seq<char>),
    Bool(bool),
    Func { name: Seq<char>, captures: EnvV, params: Seq<Seq<char>>, rule: BlckV },
}

pub open spec fn val_of(v: Value) -> ValV
    decreases v,
{
    match v {
        Value::Unit => ValV::Unit,
        Value::Int(n) => ValV::Int(n as int),
        Value::Str(s) => ValV::Str(s@),
        Value::Bool(b) => ValV::Bool(b),
        Value::Func(f) => ValV::Func {
            name: f.name@,
            captures: env_of(f.captures.vars@),
            params: f.params@.map_values(|p: String| p@),
            rule: nest_view(f.rule),
        },
    }
}

pub open spec fn env_of(vars: Seq<Binding>) -> EnvV
    decreases vars,
{
    if vars.len() == 0 {
        Seq::empty()
    } else {
        env_of(vars.drop_last()).push((vars.last().name@, val_of(vars.last().val)))
    }
}

impl View for Context {
    type V = EnvV;

    open spec fn view(&self) -> EnvV {
        env_of(self.vars@)
    }
}

/// The mirrors of a sequence of values.
pub open spec fn vals_of(vs: Seq<Value>) -> Seq<ValV> {
    vs.map_values(|v: Value| val_of(v))
}

/// Newest-first lookup in an association sequence.
pub open spec fn assoc_lookup<V>(env: Seq<(Seq<char>, V)>, name: Seq<char>) -> Option<V>
    decreases env,
{
    if env.len() == 0 {
        None
    } else if env.last().0 == name {
        Some(env.last().1)
    } else {
        assoc_lookup(env.drop_last(), name)
    }
}

/// A binding for one name leaves lookups of every other name alone.
pub proof fn lemma_assoc_lookup_push<V>(
    env: Seq<(Seq<char>, V)>,
    name: Seq<char>,
    v: V,
    probe: Seq<char>,
)
    ensures
        assoc_lookup(env.push((name, v)), probe) == if probe == name {
            Some(v)
        } else {
            assoc_lookup(env, probe)
        },
{
    assert(env.push((name, v)).drop_last() =~= env);
}

pub proof fn lemma_env_of(vars: Seq<Binding>)
    ensures
        env_of(vars).len() == vars.len(),
        forall|i: int|
            0 <= i < vars.len() ==> env_of(vars)[i] == (vars[i].name@, val_of(vars[i].val)),
    decreases vars.len(),
{
    if vars.len() > 0 {
        lemma_env_of(vars.drop_last());
    }
}

/// A deep copy of a value: every captured environment, parameter list
/// and body is copied so that the mirror is preserved exactly.
pub fn value_clone(v: &Value) -> (r: Value)
    ensures
        val_of(r) == val_of(*v),
    decreases *v,
{
    match v {
        Value::Unit => Value::Unit,
        Value::Int(n) => Value::Int(*n),
        Value::Str(s) => Value::Str(s.clone()),
        Value::Bool(b) => Value::Bool(*b),
        Value::Func(f) => {
            let mut vars: Vec<Binding> = Vec::new();
            let n = f.captures.vars.len();
            let mut i: usize = 0;
            while i < n
                invariant
                    i <= n,
                    n == f.captures.vars.len(),
                    *v == Value::Func(*f),
                    vars@.len() == i as int,
                    forall|j: int|
                        0 <= j < i ==> vars@[j].name@ == f.captures.vars@[j].name@ && val_of(
                            vars@[j].val,
                        ) == val_of(f.captures.vars@[j].val),
                decreases n - i,
            {
                proof {
                    assert(decreases_to!(*v => (*v)->Func_0));
                    assert((*v)->Func_0 == *f);
                    assert(decreases_to!(*f => f.captures.vars));
                    assert(decreases_to!(f.captures.vars => f.captures.vars@));
                    assert(decreases_to!(f.captures.vars@ => f.captures.vars@[i as int]));
                }
                let b = &f.captures.vars[i];
                vars.push(Binding { name: b.name.clone(), val: value_clone(&b.val) });
                i += 1;
            }
            proof {
                lemma_env_of(vars@);
                lemma_env_of(f.captures.vars@);
                assert(env_of(vars@) =~= env_of(f.captures.vars@));
            }
            let mut params: Vec<String> = Vec::new();
            let m = f.params.len();
            let mut k: usize = 0;
            while k < m
                invariant
                    k <= m,
                    m == f.params.len(),
                    params@.len() == k as int,
                    forall|j: int| 0 <= j < k ==> params@[j]@ == f.params@[j]@,
                decreases m - k,
            {
                params.push(f.params[k].clone());
                k += 1;
            }
            proof {
                assert(params@.map_values(|p: String| p@) =~= f.params@.map_values(
                    |p: String| p@,
                ));
            }
            Value::Func(
                FuncVal {
                    name: f.name.clone(),
                    captures: Context { vars },
                    params,
                    rule: clone_nest(&f.rule),
                },
            )
        },
    }
}

impl Context {
    /// A fresh, empty frame.
    pub fn new() -> (r: Context)
        ensures
            r@ == Seq::<(Seq<char>, ValV)>::empty(),
    {
        Context { vars: Vec::new() }
    }

    /// Look a name up; the newest binding wins.  The value comes back
    /// as a deep copy.
    pub fn get(&self, name: &String) -> (r: Option<Value>)
        ensures
            match r {
                Some(v) => assoc_lookup(self@, name@) == Some(val_of(v)),
                None => assoc_lookup(self@, name@) is None,
            },
    {
        proof {
            lemma_env_of(self.vars@);
            assert(self@.take(self.vars@.len() as int) =~= self@);
        }
        let mut i: usize = self.vars.len();
        while i > 0
            invariant
                i <= self.vars.len(),
                assoc_lookup(self@, name@) == assoc_lookup(self@.take(i as int), name@),
            decreases i,
        {
            i -= 1;
            proof {
                lemma_env_of(self.vars@);
                assert(self@.take(i as int + 1).drop_last() =~= self@.take(i as int));
                assert(self@.take(i as int + 1).last() == self@[i as int]);
            }
            if self.vars[i].name == *name {
                return Some(value_clone(&self.vars[i].val));
            }
        }
        proof {
            assert(self@.take(0) =~= Seq::<(Seq<char>, ValV)>::empty());
        }
        None
    }

    /// A deep copy of the whole frame, as closure capture wants it.
    pub fn snapshot(&self) -> (r: Context)
        ensures
            r@ == self@,
    {
        let mut vars: Vec<Binding> = Vec::new();
        let n = self.vars.len();
        let mut i: usize = 0;
        while i < n
            invariant
                i <= n,
                n == self.vars.len(),
                vars@.len() == i as int,
                forall|j: int|
                    0 <= j < i ==> vars@[j].name@ == self.vars@[j].name@ && val_of(vars@[j].val)
                        == val_of(self.vars@[j].val),
            decreases n - i,
        {
            let b = &self.vars[i];
            vars.push(Binding { name: b.name.clone(), val: value_clone(&b.val) });
            i += 1;
        }
        proof {
            lemma_env_of(vars@);
            lemma_env_of(self.vars@);
            assert(env_of(vars@) =~= env_of(self.vars@));
        }
        Context { vars }
    }

    /// Bind (or rebind) a name to a value.
    pub fn set(&mut self, name: String, val: Value)
        ensures
            final(self)@ == old(self)@.push((name@, val_of(val))),
    {
        let ghost namev = name@;
        let ghost valv = val_of(val);
        self.vars.push(Binding { name, val });
        proof {
            assert(self.vars@.drop_last() =~= old(self).vars@);
            assert(env_of(self.vars@) == env_of(old(self).vars@).push((namev, valv)));
        }
    }
}

/// The console, as data: the lines still to be read and the pieces
/// written so far.  A piece written by `print` ends in a newline; an
/// `input` prompt does not.
#[derive(Debug, PartialEq, Eq)]
pub struct RunState {
    pub input: Vec<String>,
    pub output: Vec<String>,
}

/// The mathematical mirror of a [`RunState`].
pub struct StV {
    pub input: Seq<Seq<char>>,
    pub output: Seq<Seq<char>>,
}

impl View for RunState {
    type V = StV;

    open spec fn view(&self) -> StV {
        StV {
            input: self.input@.map_values(|s: String| s@),
            output: self.output@.map_values(|s: String| s@),
        }
    }
}

impl RunState {
    /// A state with the given input queue and an empty output log.
    pub fn new(input: Vec<String>) -> (r: RunState)
        ensures
            r@.input == input@.map_values(|s: String| s@),
            r@.output == Seq::<Seq<char>>::empty(),
    {
        let r = RunState { input, output: Vec::new() };
        proof {
            assert(r@.output =~= Seq::<Seq<char>>::empty());
        }
        r
    }

    /// Append one piece to the output log.
    pub fn emit(&mut self, s: String)
        ensures
            final(self)@.output == old(self)@.output.push(s@),
            final(self)@.input == old(self)@.input,
    {
        let ghost sv = s@;
        self.output.push(s);
        proof {
            assert(self@.output =~= old(self)@.output.push(sv));
            assert(self@.input =~= old(self)@.input);
        }
    }

    /// Take the next line of input, if any is left.
    pub fn read_line(&mut self) -> (r: Option<String>)
        ensures
            match r {
                Some(s) => {
                    &&& old(self)@.input.len() > 0
                    &&& s@ == old(self)@.input[0]
                    &&& final(self)@.input == old(self)@.input.drop_first()
                    &&& final(self)@.output == old(self)@.output
                },
                None => old(self)@.input.len() == 0 && *final(self) == *old(self),
            },
    {
        if self.input.len() == 0 {
            None
        } else {
            let s = self.input.remove(0);
            proof {
                assert(self@.input =~= old(self)@.input.drop_first());
                assert(self@.output =~= old(self)@.output);
            }
            Some(s)
        }
    }
}

} // verus!
