//! The abstract syntax tree of the language, together with its
//! mathematical mirror.
//!
//! The executable types ([`Prgm`], [`Blck`], [`Stmt`], [`Expn`], ...)
//! are what a parser produces and what the checker and the evaluator
//! walk.  Each has a ghost mirror over `Seq`, `int` and `Seq<char>`
//! ([`BlckV`], [`StmtV`], [`ExpnV`], ...) reached by the `*_view`
//! functions; all contracts are stated over the mirrors.
use vstd::prelude::*;

verus! {

/// A whole program: its main block.
#[derive(Debug, PartialEq, Eq)]
pub struct Prgm {
    pub main: Blck,
}

/// A braced block as it appears nested under `if`, `while` and `def`.
/// Blocks share their enclosing frame; only calls introduce scopes.
#[derive(Debug, PartialEq, Eq)]
pub struct Nest {
    pub block: Blck,
}

/// An ordered sequence of statements.
#[derive(Debug, PartialEq, Eq)]
pub struct Blck {
    pub stmts: Vec<Stmt>,
}

/// One statement.
#[derive(Debug, PartialEq, Eq)]
pub enum Stmt {
    /// `name: ty = expn;` — a typed binding (binds or rebinds).
    Decl { typed_ident: TypedIdent, expn: Expn },
    /// `name = expn;` — the name must already exist at check time.
    Assgn { ident: String, expn: Expn },
    /// `name += expn;` / `name -= expn;` — int-only update.
    Updt { ident: String, op: Updt, expn: Expn },
    /// `pass;` — no-op.
    Pass,
    /// `print(e1, ..., en);` — each value on its own line, in order.
    Print { args: Vec<Expn> },
    /// `if cond: {...} else: {...}` — both branches mandatory.
    If { cond: Expn, if_nest: Box<Nest>, else_nest: Box<Nest> },
    /// `while cond: {...}`.
    While { cond: Expn, nest: Box<Nest> },
    /// `return expn;`.
    ReturnExpn { expn: Expn },
    /// Bare `return;` — yields the unit value.
    Return,
    /// `def name(params) -> ty: {...}`.
    Defn { name: String, params: Vec<TypedIdent>, ret: Option<ReturnType>, rule: Box<Nest> },
    /// An application in statement position; its value is discarded.
    FuncCall { appl: Appl },
}

/// The two compound-update operators.
#[derive(Clone, Copy, Debug, PartialEq, Eq, Structural)]
pub enum Updt {
    Plus,
    Minus,
}

/// An expression.  Precedence and associativity are resolved by the
/// parser; the tree shape alone fixes the evaluation order, except that
/// operators in [`Bop::right_assoc`] tiers evaluate their right operand
/// before their left one.
#[derive(Debug, PartialEq, Eq)]
pub enum Expn {
    /// A binary operator application.
    Binary { op: Bop, lhs: Box<Expn>, rhs: Box<Expn> },
    /// `not e` — boolean negation.
    Unary { op: Not, child: Box<Expn> },
    /// A leaf followed by zero or more argument lists.
    Apply { appl: Appl },
}

/// A binary operator, tagged by its precedence tier.
#[derive(Clone, Copy, Debug, PartialEq, Eq, Structural)]
pub enum Bop {
    AndOp(And),
    OrOp(Or),
    CompOp(Comp),
    AddOp(Add),
    MultOp(Mult),
    ExptOp(Expt),
}

/// The conjunction operator tag.
#[derive(Clone, Copy, Debug, PartialEq, Eq, Structural)]
pub struct And;

/// The disjunction operator tag.
#[derive(Clone, Copy, Debug, PartialEq, Eq, Structural)]
pub struct Or;

/// The additive-tier operators (left-associative).
#[derive(Clone, Copy, Debug, PartialEq, Eq, Structural)]
pub enum Add {
    Plus,
    Minus,
}

/// The multiplicative-tier operators (left-associative).
#[derive(Clone, Copy, Debug, PartialEq, Eq, Structural)]
pub enum Mult {
    Times,
    Div,
    Mod,
}

/// The exponentiation operator tag (right-associative).
#[derive(Clone, Copy, Debug, PartialEq, Eq, Structural)]
pub struct Expt;

/// The comparison operators (right-associative).
#[derive(Clone, Copy, Debug, PartialEq, Eq, Structural)]
pub enum Comp {
    Lt,
    Leq,
    Eq,
}

/// The boolean-negation operator tag.
#[derive(Clone, Copy, Debug, PartialEq, Eq, Structural)]
pub struct Not;

impl Bop {
    /// Whether this operator's tier is right-associative, in which case
    /// the right operand is evaluated before the left one.
    pub open spec fn right_assoc(self) -> bool {
        self is CompOp || self is ExptOp
    }

    /// The executable form of [`Self::right_assoc`].
    pub fn is_right_assoc(&self) -> (b: bool)
        ensures
            b == self.right_assoc(),
    {
        match self {
            Bop::CompOp(_) => true,
            Bop::ExptOp(_) => true,
            _ => false,
        }
    }
}

/// A leaf followed by zero or more parenthesized argument lists,
/// supporting chained calls such as `f(1)(2)`.
#[derive(Debug, PartialEq, Eq)]
pub struct Appl {
    pub left: Leaf,
    pub args: Vec<ArgList>,
}

/// One parenthesized, comma-separated argument list.
#[derive(Debug, PartialEq, Eq)]
pub struct ArgList {
    pub exps: Vec<Expn>,
}

/// An atomic expression form.
#[derive(Debug, PartialEq, Eq)]
pub enum Leaf {
    /// `input(prompt)` — emit the prompt, then read one line.
    Inpt { prompt: Box<Expn> },
    /// `int(e)` — conversion to an integer.
    IntCast { expn: Box<Expn> },
    /// `str(e)` — conversion to text.
    StrCast { expn: Box<Expn> },
    /// An integer literal.
    Nmbr { num: i64 },
    /// A string literal.
    Strg { text: String },
    /// A boolean literal.
    BoolLit { flag: bool },
    /// A variable reference.
    Name { ident: String },
    /// The unit literal `None`.
    Unit,
    /// A parenthesized expression.
    Paren { expn: Box<Expn> },
}

/// A declared return type, `-> ty`.
#[derive(Clone, Copy, Debug, PartialEq, Eq, Structural)]
pub struct ReturnType {
    pub ty: Type,
}

/// A parameter or declaration binding, `name: ty`.
#[derive(Debug, PartialEq, Eq)]
pub struct TypedIdent {
    pub ident: String,
    pub ty: Type,
}

/// A type annotation as written in the source.
#[derive(Clone, Copy, Debug, PartialEq, Eq, Structural)]
pub enum Type {
    Int,
    Bool,
    Str,
    Unit,
}

// ---------------------------------------------------------------------
// The ghost mirror.
// ---------------------------------------------------------------------

/// Ghost mirror of [`Blck`].
pub struct BlckV {
    pub stmts: Seq<StmtV>,
}

/// Ghost mirror of [`Stmt`].
pub enum StmtV {
    Decl { name: Seq<char>, ty: Type, expn: ExpnV },
    Assgn { name: Seq<char>, expn: ExpnV },
    Updt { name: Seq<char>, op: Updt, expn: ExpnV },
    Pass,
    Print { args: Seq<ExpnV> },
    If { cond: ExpnV, if_nest: BlckV, else_nest: BlckV },
    While { cond: ExpnV, nest: BlckV },
    ReturnExpn { expn: ExpnV },
    Return,
    Defn { name: Seq<char>, params: Seq<(Seq<char>, Type)>, ret: Option<Type>, rule: BlckV },
    FuncCall { appl: ApplV },
}

/// Ghost mirror of [`Expn`].
pub enum ExpnV {
    Binary { op: Bop, lhs: Box<ExpnV>, rhs: Box<ExpnV> },
    Unary { child: Box<ExpnV> },
    Apply { appl: ApplV },
}

/// Ghost mirror of [`Appl`].
pub struct ApplV {
    pub left: LeafV,
    pub args: Seq<Seq<ExpnV>>,
}

/// Ghost mirror of [`Leaf`].
pub enum LeafV {
    Inpt { prompt: Box<ExpnV> },
    IntCast { expn: Box<ExpnV> },
    StrCast { expn: Box<ExpnV> },
    Nmbr { num: int },
    Strg { text: Seq<char> },
    BoolLit { flag: bool },
    Name { ident: Seq<char> },
    Unit,
    Paren { expn: Box<ExpnV> },
}

// ---------------------------------------------------------------------
// Views from the executable tree into the mirror.
// ---------------------------------------------------------------------

pub open spec fn prgm_view(p: Prgm) -> BlckV {
    blck_view(p.main)
}

pub open spec fn nest_view(n: Nest) -> BlckV
    decreases n,
{
    blck_view(n.block)
}

pub open spec fn blck_view(b: Blck) -> BlckV
    decreases b,
{
    BlckV { stmts: stmts_view(b.stmts@) }
}

pub open spec fn stmts_view(ss: Seq<Stmt>) -> Seq<StmtV>
    decreases ss,
{
    if ss.len() == 0 {
        Seq::empty()
    } else {
        stmts_view(ss.drop_last()).push(stmt_view(ss.last()))
    }
}

pub open spec fn tid_view(t: TypedIdent) -> (Seq<char>, Type) {
    (t.ident@, t.ty)
}

pub open spec fn stmt_view(s: Stmt) -> StmtV
    decreases s,
{
    match s {
        Stmt::Decl { typed_ident, expn } => StmtV::Decl {
            name: typed_ident.ident@,
            ty: typed_ident.ty,
            expn: expn_view(expn),
        },
        Stmt::Assgn { ident, expn } => StmtV::Assgn { name: ident@, expn: expn_view(expn) },
        Stmt::Updt { ident, op, expn } => StmtV::Updt {
            name: ident@,
            op,
            expn: expn_view(expn),
        },
        Stmt::Pass => StmtV::Pass,
        Stmt::Print { args } => StmtV::Print { args: expns_view(args@) },
        Stmt::If { cond, if_nest, else_nest } => StmtV::If {
            cond: expn_view(cond),
            if_nest: nest_view(*if_nest),
            else_nest: nest_view(*else_nest),
        },
        Stmt::While { cond, nest } => StmtV::While {
            cond: expn_view(cond),
            nest: nest_view(*nest),
        },
        Stmt::ReturnExpn { expn } => StmtV::ReturnExpn { expn: expn_view(expn) },
        Stmt::Return => StmtV::Return,
        Stmt::Defn { name, params, ret, rule } => StmtV::Defn {
            name: name@,
            params: params@.map_values(|t: TypedIdent| tid_view(t)),
            ret: match ret {
                Some(r) => Some(r.ty),
                None => None,
            },
            rule: nest_view(*rule),
        },
        Stmt::FuncCall { appl } => StmtV::FuncCall { appl: appl_view(appl) },
    }
}

pub open spec fn expn_view(e: Expn) -> ExpnV
    decreases e,
{
    match e {
        Expn::Binary { op, lhs, rhs } => ExpnV::Binary {
            op,
            lhs: Box::new(expn_view(*lhs)),
            rhs: Box::new(expn_view(*rhs)),
        },
        Expn::Unary { op, child } => ExpnV::Unary { child: Box::new(expn_view(*child)) },
        Expn::Apply { appl } => ExpnV::Apply { appl: appl_view(appl) },
    }
}

pub open spec fn expns_view(es: Seq<Expn>) -> Seq<ExpnV>
    decreases es,
{
    if es.len() == 0 {
        Seq::empty()
    } else {
        expns_view(es.drop_last()).push(expn_view(es.last()))
    }
}

pub open spec fn appl_view(a: Appl) -> ApplV
    decreases a,
{
    ApplV { left: leaf_view(a.left), args: arglists_view(a.args@) }
}

pub open spec fn arglists_view(ls: Seq<ArgList>) -> Seq<Seq<ExpnV>>
    decreases ls,
{
    if ls.len() == 0 {
        Seq::empty()
    } else {
        arglists_view(ls.drop_last()).push(expns_view(ls.last().exps@))
    }
}

pub open spec fn leaf_view(l: Leaf) -> LeafV
    decreases l,
{
    match l {
        Leaf::Inpt { prompt } => LeafV::Inpt { prompt: Box::new(expn_view(*prompt)) },
        Leaf::IntCast { expn } => LeafV::IntCast { expn: Box::new(expn_view(*expn)) },
        Leaf::StrCast { expn } => LeafV::StrCast { expn: Box::new(expn_view(*expn)) },
        Leaf::Nmbr { num } => LeafV::Nmbr { num: num as int },
        Leaf::Strg { text } => LeafV::Strg { text: text@ },
        Leaf::BoolLit { flag } => LeafV::BoolLit { flag },
        Leaf::Name { ident } => LeafV::Name { ident: ident@ },
        Leaf::Unit => LeafV::Unit,
        Leaf::Paren { expn } => LeafV::Paren { expn: Box::new(expn_view(*expn)) },
    }
}

// ---------------------------------------------------------------------
// Pointwise characterizations of the sequence views.
// ---------------------------------------------------------------------

pub proof fn lemma_stmts_view(ss: Seq<Stmt>)
    ensures
        stmts_view(ss).len() == ss.len(),
        forall|i: int| 0 <= i < ss.len() ==> stmts_view(ss)[i] == stmt_view(ss[i]),
    decreases ss.len(),
{
    if ss.len() > 0 {
        lemma_stmts_view(ss.drop_last());
    }
}

pub proof fn lemma_expns_view(es: Seq<Expn>)
    ensures
        expns_view(es).len() == es.len(),
        forall|i: int| 0 <= i < es.len() ==> expns_view(es)[i] == expn_view(es[i]),
    decreases es.len(),
{
    if es.len() > 0 {
        lemma_expns_view(es.drop_last());
    }
}

pub proof fn lemma_arglists_view(ls: Seq<ArgList>)
    ensures
        arglists_view(ls).len() == ls.len(),
        forall|i: int| 0 <= i < ls.len() ==> arglists_view(ls)[i] == expns_view(ls[i].exps@),
    decreases ls.len(),
{
    if ls.len() > 0 {
        lemma_arglists_view(ls.drop_last());
    }
}

// ---------------------------------------------------------------------
// Deep copies.  The evaluator snapshots function bodies when a `def`
// statement runs, so the tree must be copied in a way that provably
// preserves its view.
// ---------------------------------------------------------------------

pub fn clone_nest(n: &Nest) -> (r: Nest)
    ensures
        nest_view(r) == nest_view(*n),
    decreases *n,
{
    Nest { block: clone_blck(&n.block) }
}

pub fn clone_blck(b: &Blck) -> (r: Blck)
    ensures
        blck_view(r) == blck_view(*b),
    decreases *b,
{
    let mut out: Vec<Stmt> = Vec::new();
    let n = b.stmts.len();
    let mut i: usize = 0;
    while i < n
        invariant
            i <= n,
            n == b.stmts.len(),
            out@.len() == i as int,
            forall|j: int| 0 <= j < i ==> stmt_view(out@[j]) == stmt_view(b.stmts@[j]),
        decreases n - i,
    {
        out.push(clone_stmt(&b.stmts[i]));
        i += 1;
    }
    proof {
        lemma_stmts_view(out@);
        lemma_stmts_view(b.stmts@);
        assert(stmts_view(out@) =~= stmts_view(b.stmts@));
    }
    Blck { stmts: out }
}

pub fn clone_typed_ident(t: &TypedIdent) -> (r: TypedIdent)
    ensures
        tid_view(r) == tid_view(*t),
{
    TypedIdent { ident: t.ident.clone(), ty: t.ty }
}

pub fn clone_stmt(s: &Stmt) -> (r: Stmt)
    ensures
        stmt_view(r) == stmt_view(*s),
    decreases *s,
{
    match s {
        Stmt::Decl { typed_ident, expn } => Stmt::Decl {
            typed_ident: clone_typed_ident(typed_ident),
            expn: clone_expn(expn),
        },
        Stmt::Assgn { ident, expn } => Stmt::Assgn {
            ident: ident.clone(),
            expn: clone_expn(expn),
        },
        Stmt::Updt { ident, op, expn } => Stmt::Updt {
            ident: ident.clone(),
            op: *op,
            expn: clone_expn(expn),
        },
        Stmt::Pass => Stmt::Pass,
        Stmt::Print { args } => {
            let mut out: Vec<Expn> = Vec::new();
            let n = args.len();
            let mut i: usize = 0;
            while i < n
                invariant
                    i <= n,
                    n == args.len(),
                    out@.len() == i as int,
                    forall|j: int| 0 <= j < i ==> expn_view(out@[j]) == expn_view(args@[j]),
                decreases n - i,
            {
                out.push(clone_expn(&args[i]));
                i += 1;
            }
            proof {
                lemma_expns_view(out@);
                lemma_expns_view(args@);
                assert(expns_view(out@) =~= expns_view(args@));
            }
            Stmt::Print { args: out }
        },
        Stmt::If { cond, if_nest, else_nest } => Stmt::If {
            cond: clone_expn(cond),
            if_nest: Box::new(clone_nest(if_nest)),
            else_nest: Box::new(clone_nest(else_nest)),
        },
        Stmt::While { cond, nest } => Stmt::While {
            cond: clone_expn(cond),
            nest: Box::new(clone_nest(nest)),
        },
        Stmt::ReturnExpn { expn } => Stmt::ReturnExpn { expn: clone_expn(expn) },
        Stmt::Return => Stmt::Return,
        Stmt::Defn { name, params, ret, rule } => {
            let mut out: Vec<TypedIdent> = Vec::new();
            let n = params.len();
            let mut i: usize = 0;
            while i < n
                invariant
                    i <= n,
                    n == params.len(),
                    out@.len() == i as int,
                    forall|j: int| 0 <= j < i ==> tid_view(out@[j]) == tid_view(params@[j]),
                decreases n - i,
            {
                out.push(clone_typed_ident(&params[i]));
                i += 1;
            }
            proof {
                assert(out@.map_values(|t: TypedIdent| tid_view(t)) =~= params@.map_values(
                    |t: TypedIdent| tid_view(t),
                ));
            }
            Stmt::Defn {
                name: name.clone(),
                params: out,
                ret: *ret,
                rule: Box::new(clone_nest(rule)),
            }
        },
        Stmt::FuncCall { appl } => Stmt::FuncCall { appl: clone_appl(appl) },
    }
}

pub fn clone_expn(e: &Expn) -> (r: Expn)
    ensures
        expn_view(r) == expn_view(*e),
    decreases *e,
{
    match e {
        Expn::Binary { op, lhs, rhs } => Expn::Binary {
            op: *op,
            lhs: Box::new(clone_expn(lhs)),
            rhs: Box::new(clone_expn(rhs)),
        },
        Expn::Unary { op, child } => Expn::Unary {
            op: *op,
            child: Box::new(clone_expn(child)),
        },
        Expn::Apply { appl } => Expn::Apply { appl: clone_appl(appl) },
    }
}

pub fn clone_appl(a: &Appl) -> (r: Appl)
    ensures
        appl_view(r) == appl_view(*a),
    decreases *a,
{
    let left = clone_leaf(&a.left);
    let mut out: Vec<ArgList> = Vec::new();
    let n = a.args.len();
    let mut i: usize = 0;
    while i < n
        invariant
            i <= n,
            n == a.args.len(),
            out@.len() == i as int,
            forall|j: int| 0 <= j < i ==> expns_view(out@[j].exps@) == expns_view(
                a.args@[j].exps@,
            ),
        decreases n - i,
    {
        let list = &a.args[i];
        proof {
            assert(decreases_to!(*a => a.args));
            assert(decreases_to!(a.args => a.args@[i as int]));
        }
        let mut exps: Vec<Expn> = Vec::new();
        let m = list.exps.len();
        let mut k: usize = 0;
        while k < m
            invariant
                k <= m,
                m == list.exps.len(),
                *list == a.args@[i as int],
                decreases_to!(*a => *list),
                exps@.len() == k as int,
                forall|j: int| 0 <= j < k ==> expn_view(exps@[j]) == expn_view(list.exps@[j]),
            decreases m - k,
        {
            proof {
                assert(decreases_to!(*list => list.exps));
                assert(decreases_to!(list.exps => list.exps@[k as int]));
            }
            exps.push(clone_expn(&list.exps[k]));
            k += 1;
        }
        proof {
            lemma_expns_view(exps@);
            lemma_expns_view(list.exps@);
            assert(expns_view(exps@) =~= expns_view(list.exps@));
        }
        out.push(ArgList { exps });
        i += 1;
    }
    proof {
        lemma_arglists_view(out@);
        lemma_arglists_view(a.args@);
        assert(arglists_view(out@) =~= arglists_view(a.args@));
    }
    Appl { left, args: out }
}

pub fn clone_leaf(l: &Leaf) -> (r: Leaf)
    ensures
        leaf_view(r) == leaf_view(*l),
    decreases *l,
{
    match l {
        Leaf::Inpt { prompt } => Leaf::Inpt { prompt: Box::new(clone_expn(prompt)) },
        Leaf::IntCast { expn } => Leaf::IntCast { expn: Box::new(clone_expn(expn)) },
        Leaf::StrCast { expn } => Leaf::StrCast { expn: Box::new(clone_expn(expn)) },
        Leaf::Nmbr { num } => Leaf::Nmbr { num: *num },
        Leaf::Strg { text } => Leaf::Strg { text: text.clone() },
        Leaf::BoolLit { flag } => Leaf::BoolLit { flag: *flag },
        Leaf::Name { ident } => Leaf::Name { ident: ident.clone() },
        Leaf::Unit => Leaf::Unit,
        Leaf::Paren { expn } => Leaf::Paren { expn: Box::new(clone_expn(expn)) },
    }
}

} // verus!
