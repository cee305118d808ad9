//! The static type and return-flow checker.
//!
//! Expressions get a ground type [`Ty`]; statements and blocks get a
//! verdict [`Rtns`]: they fall through, might return a value of some
//! type, or definitely return one.  A block's verdict is the left fold
//! of [`reconcile_s`] over its statements, seeded with `Fallthrough`,
//! where a statement that definitely returns makes the running verdict
//! definite, and a statement after a definite return is rejected
//! outright.
//! Function bodies must check to `Fallthrough` (an implicit unit) or
//! to a definite return whose type equals the declared one exactly.
//!
//! The symbol table is flat: declarations bind or rebind; parameters
//! are visible only while their body is checked; the bindings a branch
//! or loop body makes are not assumed afterwards, since the branch may
//! never run.
use vstd::prelude::*;

use crate::ast::{
    appl_view, blck_view, expn_view, expns_view, lemma_arglists_view, lemma_expns_view,
    lemma_stmts_view, leaf_view, nest_view, prgm_view, stmt_view, Appl, ApplV, Blck, BlckV, Bop,
    Expn, ExpnV, Leaf, LeafV, Nest, Prgm, Stmt, StmtV, Type,
};
use crate::errors::ErrKind;
use crate::value::assoc_lookup;

verus! {

/// A ground type of the language.
#[derive(Clone, Copy, Debug, PartialEq, Eq, Structural)]
pub enum Ty {
    Int,
    Bool,
    Str,
    Unit,
}

/// The mirror of a source type annotation.
pub open spec fn ty_view(t: Type) -> Ty {
    match t {
        Type::Int => Ty::Int,
        Type::Bool => Ty::Bool,
        Type::Str => Ty::Str,
        Type::Unit => Ty::Unit,
    }
}

impl Type {
    /// The checker type this annotation denotes.
    pub fn to_ty(&self) -> (r: Ty)
        ensures
            r == ty_view(*self),
    {
        match self {
            Type::Int => Ty::Int,
            Type::Bool => Ty::Bool,
            Type::Str => Ty::Str,
            Type::Unit => Ty::Unit,
        }
    }
}

/// The return-flow verdict of a statement or block.
#[derive(Clone, Copy, Debug, PartialEq, Eq, Structural)]
pub enum Rtns {
    Fallthrough,
    MightReturn(Ty),
    Returns(Ty),
}

/// Join the verdicts of two control-flow paths.  A definite return on
/// only one side degrades to a possible return; two verdicts that
/// carry different types cannot be joined.
pub open spec fn reconcile_s(a: Rtns, b: Rtns) -> Result<Rtns, ErrKind> {
    match (a, b) {
        (Rtns::Fallthrough, Rtns::Fallthrough) => Ok(Rtns::Fallthrough),
        (Rtns::Fallthrough, Rtns::MightReturn(t)) => Ok(Rtns::MightReturn(t)),
        (Rtns::Fallthrough, Rtns::Returns(t)) => Ok(Rtns::MightReturn(t)),
        (Rtns::MightReturn(t), Rtns::Fallthrough) => Ok(Rtns::MightReturn(t)),
        (Rtns::MightReturn(t), Rtns::MightReturn(q)) => {
            if t == q {
                Ok(Rtns::MightReturn(t))
            } else {
                Err(ErrKind::MismatchedTypes)
            }
        },
        (Rtns::MightReturn(t), Rtns::Returns(q)) => {
            if t == q {
                Ok(Rtns::MightReturn(t))
            } else {
                Err(ErrKind::MismatchedTypes)
            }
        },
        (Rtns::Returns(t), Rtns::Fallthrough) => Ok(Rtns::MightReturn(t)),
        (Rtns::Returns(t), Rtns::MightReturn(q)) => {
            if t == q {
                Ok(Rtns::MightReturn(t))
            } else {
                Err(ErrKind::MismatchedTypes)
            }
        },
        (Rtns::Returns(t), Rtns::Returns(q)) => {
            if t == q {
                Ok(Rtns::Returns(t))
            } else {
                Err(ErrKind::MismatchedTypes)
            }
        },
    }
}

impl Rtns {
    /// Join this verdict with the verdict of another path.
    pub fn reconcile(self, other: Rtns) -> (r: Result<Rtns, ErrKind>)
        ensures
            r == reconcile_s(self, other),
    {
        match (self, other) {
            (Rtns::Fallthrough, Rtns::Fallthrough) => Ok(Rtns::Fallthrough),
            (Rtns::Fallthrough, Rtns::MightReturn(t)) => Ok(Rtns::MightReturn(t)),
            (Rtns::Fallthrough, Rtns::Returns(t)) => Ok(Rtns::MightReturn(t)),
            (Rtns::MightReturn(t), Rtns::Fallthrough) => Ok(Rtns::MightReturn(t)),
            (Rtns::MightReturn(t), Rtns::MightReturn(q)) => {
                if t == q {
                    Ok(Rtns::MightReturn(t))
                } else {
                    Err(ErrKind::MismatchedTypes)
                }
            },
            (Rtns::MightReturn(t), Rtns::Returns(q)) => {
                if t == q {
                    Ok(Rtns::MightReturn(t))
                } else {
                    Err(ErrKind::MismatchedTypes)
                }
            },
            (Rtns::Returns(t), Rtns::Fallthrough) => Ok(Rtns::MightReturn(t)),
            (Rtns::Returns(t), Rtns::MightReturn(q)) => {
                if t == q {
                    Ok(Rtns::MightReturn(t))
                } else {
                    Err(ErrKind::MismatchedTypes)
                }
            },
            (Rtns::Returns(t), Rtns::Returns(q)) => {
                if t == q {
                    Ok(Rtns::Returns(t))
                } else {
                    Err(ErrKind::MismatchedTypes)
                }
            },
        }
    }
}

/// A function's checker signature: its declared return type (none
/// means unit) and its parameter types in order.
#[derive(Debug)]
pub struct ArrowType {
    pub ret: Option<Ty>,
    pub params: Vec<Ty>,
}

/// The mirror of an [`ArrowType`].
pub struct ArrowTyV {
    pub ret: Option<Ty>,
    pub params: Seq<Ty>,
}

pub open spec fn arrow_view(a: ArrowType) -> ArrowTyV {
    ArrowTyV { ret: a.ret, params: a.params@ }
}

impl ArrowType {
    /// A copy of this signature.
    pub fn duplicate(&self) -> (r: ArrowType)
        ensures
            arrow_view(r) == arrow_view(*self),
    {
        let mut params: Vec<Ty> = Vec::new();
        let n = self.params.len();
        let mut i: usize = 0;
        while i < n
            invariant
                i <= n,
                n == self.params.len(),
                params@ =~= self.params@.take(i as int),
            decreases n - i,
        {
            params.push(self.params[i]);
            i += 1;
        }
        proof {
            assert(params@ =~= self.params@);
        }
        ArrowType { ret: self.ret, params }
    }
}

/// One entry of the function table.
#[derive(Debug)]
pub struct DefBind {
    pub name: String,
    pub arrow: ArrowType,
}

/// The function table: name to signature, newest binding last.
#[derive(Debug)]
pub struct DefTypes {
    pub entries: Vec<DefBind>,
}

/// The mirror of the function table.
pub type DefsV = Seq<(Seq<char>, ArrowTyV)>;

impl View for DefTypes {
    type V = DefsV;

    open spec fn view(&self) -> DefsV {
        self.entries@.map_values(|b: DefBind| (b.name@, arrow_view(b.arrow)))
    }
}

/// One entry of the symbol table.
#[derive(Debug)]
pub struct SymBind {
    pub name: String,
    pub ty: Ty,
}

/// The symbol table: name to ground type, newest binding last.
#[derive(Debug)]
pub struct SymTab {
    pub entries: Vec<SymBind>,
}

/// The mirror of the symbol table.
pub type SymsV = Seq<(Seq<char>, Ty)>;

impl View for SymTab {
    type V = SymsV;

    open spec fn view(&self) -> SymsV {
        self.entries@.map_values(|b: SymBind| (b.name@, b.ty))
    }
}

impl DefTypes {
    /// An empty function table.
    pub fn new() -> (r: DefTypes)
        ensures
            r@ == Seq::<(Seq<char>, ArrowTyV)>::empty(),
    {
        let r = DefTypes { entries: Vec::new() };
        proof {
            assert(r@ =~= Seq::<(Seq<char>, ArrowTyV)>::empty());
        }
        r
    }

    /// Look a function name up; the newest binding wins.
    pub fn get(&self, name: &String) -> (r: Option<ArrowType>)
        ensures
            match r {
                Some(a) => assoc_lookup(self@, name@) == Some(arrow_view(a)),
                None => assoc_lookup(self@, name@) is None,
            },
    {
        proof {
            assert(self@.take(self.entries@.len() as int) =~= self@);
        }
        let mut i: usize = self.entries.len();
        while i > 0
            invariant
                i <= self.entries.len(),
                assoc_lookup(self@, name@) == assoc_lookup(self@.take(i as int), name@),
            decreases i,
        {
            i -= 1;
            proof {
                assert(self@.take(i as int + 1).drop_last() =~= self@.take(i as int));
                assert(self@.take(i as int + 1).last() == self@[i as int]);
            }
            if self.entries[i].name == *name {
                return Some(self.entries[i].arrow.duplicate());
            }
        }
        proof {
            assert(self@.take(0) =~= Seq::<(Seq<char>, ArrowTyV)>::empty());
        }
        None
    }

    /// Bind (or rebind) a function name.
    pub fn set(&mut self, name: String, arrow: ArrowType)
        ensures
            final(self)@ == old(self)@.push((name@, arrow_view(arrow))),
    {
        let ghost namev = name@;
        let ghost av = arrow_view(arrow);
        self.entries.push(DefBind { name, arrow });
        proof {
            assert(self@ =~= old(self)@.push((namev, av)));
        }
    }

    /// A copy of the whole table.
    pub fn duplicate(&self) -> (r: DefTypes)
        ensures
            r@ == self@,
    {
        let mut entries: Vec<DefBind> = Vec::new();
        let n = self.entries.len();
        let mut i: usize = 0;
        while i < n
            invariant
                i <= n,
                n == self.entries.len(),
                entries@.len() == i as int,
                forall|j: int|
                    0 <= j < i ==> entries@[j].name@ == self.entries@[j].name@ && arrow_view(
                        entries@[j].arrow,
                    ) == arrow_view(self.entries@[j].arrow),
            decreases n - i,
        {
            let b = &self.entries[i];
            entries.push(DefBind { name: b.name.clone(), arrow: b.arrow.duplicate() });
            i += 1;
        }
        let r = DefTypes { entries };
        proof {
            assert(r@ =~= self@);
        }
        r
    }
}

impl SymTab {
    /// An empty symbol table.
    pub fn new() -> (r: SymTab)
        ensures
            r@ == Seq::<(Seq<char>, Ty)>::empty(),
    {
        let r = SymTab { entries: Vec::new() };
        proof {
            assert(r@ =~= Seq::<(Seq<char>, Ty)>::empty());
        }
        r
    }

    /// Look a name up; the newest binding wins.
    pub fn get(&self, name: &String) -> (r: Option<Ty>)
        ensures
            r == assoc_lookup(self@, name@),
    {
        proof {
            assert(self@.take(self.entries@.len() as int) =~= self@);
        }
        let mut i: usize = self.entries.len();
        while i > 0
            invariant
                i <= self.entries.len(),
                assoc_lookup(self@, name@) == assoc_lookup(self@.take(i as int), name@),
            decreases i,
        {
            i -= 1;
            proof {
                assert(self@.take(i as int + 1).drop_last() =~= self@.take(i as int));
                assert(self@.take(i as int + 1).last() == self@[i as int]);
            }
            if self.entries[i].name == *name {
                return Some(self.entries[i].ty);
            }
        }
        proof {
            assert(self@.take(0) =~= Seq::<(Seq<char>, Ty)>::empty());
        }
        None
    }

    /// Bind (or rebind) a name.
    pub fn set(&mut self, name: String, ty: Ty)
        ensures
            final(self)@ == old(self)@.push((name@, ty)),
    {
        let ghost namev = name@;
        self.entries.push(SymBind { name, ty });
        proof {
            assert(self@ =~= old(self)@.push((namev, ty)));
        }
    }

    /// A copy of the whole table.
    pub fn duplicate(&self) -> (r: SymTab)
        ensures
            r@ == self@,
    {
        let mut entries: Vec<SymBind> = Vec::new();
        let n = self.entries.len();
        let mut i: usize = 0;
        while i < n
            invariant
                i <= n,
                n == self.entries.len(),
                entries@.len() == i as int,
                forall|j: int|
                    0 <= j < i ==> entries@[j].name@ == self.entries@[j].name@ && entries@[j].ty
                        == self.entries@[j].ty,
            decreases n - i,
        {
            let b = &self.entries[i];
            entries.push(SymBind { name: b.name.clone(), ty: b.ty });
            i += 1;
        }
        let r = SymTab { entries };
        proof {
            assert(r@ =~= self@);
        }
        r
    }
}

// ---------------------------------------------------------------------
// The checker's definitional specification.
// ---------------------------------------------------------------------

/// The outcome of checking an expression.
pub enum TyOut {
    Done { t: Ty },
    Fail { e: ErrKind },
}

/// The outcome of checking a statement or block: the verdict and the
/// tables the following statements see.
pub enum CkOut {
    Done { r: Rtns, defs: DefsV, syms: SymsV },
    Fail { e: ErrKind },
}

/// What a binary operator requires and yields at check time: the
/// arithmetic tiers take two integers to an integer, comparisons take
/// two integers to a boolean, conjunction and disjunction take two
/// booleans to a boolean.
pub open spec fn bop_ty(op: Bop, lt: Ty, rt: Ty) -> Result<Ty, ErrKind> {
    match op {
        Bop::AndOp(_) | Bop::OrOp(_) => {
            if lt != Ty::Bool {
                Err(ErrKind::ExpectedBool)
            } else if rt != Ty::Bool {
                Err(ErrKind::ExpectedBool)
            } else {
                Ok(Ty::Bool)
            }
        },
        Bop::CompOp(_) => {
            if lt != Ty::Int {
                Err(ErrKind::ExpectedInt)
            } else if rt != Ty::Int {
                Err(ErrKind::ExpectedInt)
            } else {
                Ok(Ty::Bool)
            }
        },
        _ => {
            if lt != Ty::Int {
                Err(ErrKind::ExpectedInt)
            } else if rt != Ty::Int {
                Err(ErrKind::ExpectedInt)
            } else {
                Ok(Ty::Int)
            }
        },
    }
}

pub open spec fn ck_expn(e: ExpnV, defs: DefsV, syms: SymsV) -> TyOut
    decreases 0int, e, 0int,
{
    match e {
        ExpnV::Binary { op, lhs, rhs } => {
            let first = if op.right_assoc() {
                *rhs
            } else {
                *lhs
            };
            let second = if op.right_assoc() {
                *lhs
            } else {
                *rhs
            };
            match ck_expn(first, defs, syms) {
                TyOut::Fail { e } => TyOut::Fail { e },
                TyOut::Done { t: t1 } => match ck_expn(second, defs, syms) {
                    TyOut::Fail { e } => TyOut::Fail { e },
                    TyOut::Done { t: t2 } => {
                        let lt = if op.right_assoc() {
                            t2
                        } else {
                            t1
                        };
                        let rt = if op.right_assoc() {
                            t1
                        } else {
                            t2
                        };
                        match bop_ty(op, lt, rt) {
                            Ok(t) => TyOut::Done { t },
                            Err(e) => TyOut::Fail { e },
                        }
                    },
                },
            }
        },
        ExpnV::Unary { child } => match ck_expn(*child, defs, syms) {
            TyOut::Fail { e } => TyOut::Fail { e },
            TyOut::Done { t } => {
                if t == Ty::Bool {
                    TyOut::Done { t: Ty::Bool }
                } else {
                    TyOut::Fail { e: ErrKind::ExpectedBool }
                }
            },
        },
        ExpnV::Apply { appl } => ck_appl(appl, defs, syms),
    }
}

pub open spec fn ck_leaf(l: LeafV, defs: DefsV, syms: SymsV) -> TyOut
    decreases 0int, l, 0int,
{
    match l {
        LeafV::Inpt { prompt } => match ck_expn(*prompt, defs, syms) {
            TyOut::Fail { e } => TyOut::Fail { e },
            TyOut::Done { t } => {
                if t == Ty::Str {
                    TyOut::Done { t: Ty::Str }
                } else {
                    TyOut::Fail { e: ErrKind::ExpectedStr }
                }
            },
        },
        LeafV::IntCast { expn } => match ck_expn(*expn, defs, syms) {
            TyOut::Fail { e } => TyOut::Fail { e },
            TyOut::Done { t } => {
                if t == Ty::Int || t == Ty::Bool {
                    TyOut::Done { t: Ty::Int }
                } else {
                    TyOut::Fail { e: ErrKind::ExpectedIntOrBool }
                }
            },
        },
        LeafV::StrCast { expn } => match ck_expn(*expn, defs, syms) {
            TyOut::Fail { e } => TyOut::Fail { e },
            TyOut::Done { .. } => TyOut::Done { t: Ty::Str },
        },
        LeafV::Nmbr { .. } => TyOut::Done { t: Ty::Int },
        LeafV::Strg { .. } => TyOut::Done { t: Ty::Str },
        LeafV::BoolLit { .. } => TyOut::Done { t: Ty::Bool },
        LeafV::Name { ident } => match assoc_lookup(syms, ident) {
            Some(t) => TyOut::Done { t },
            None => TyOut::Fail { e: ErrKind::UndefinedVariable },
        },
        LeafV::Unit => TyOut::Done { t: Ty::Unit },
        LeafV::Paren { expn } => ck_expn(*expn, defs, syms),
    }
}

/// Check an application.  A bare leaf is just a leaf.  A call's callee
/// must be a name bound in the function table; the argument count and
/// each argument's type must match the declared parameters; the call
/// yields the declared return type (unit if none).  The type system
/// has no function-valued expressions, so a chained call — applying
/// the ground result of a first call again — is rejected, as is
/// calling anything that is not a known function name.
pub open spec fn ck_appl(a: ApplV, defs: DefsV, syms: SymsV) -> TyOut
    decreases 0int, a, 0int,
{
    if a.args.len() == 0 {
        ck_leaf(a.left, defs, syms)
    } else {
        match a.left {
            LeafV::Name { ident } => match assoc_lookup(defs, ident) {
                Some(arrow) => {
                    if a.args.len() > 1 {
                        TyOut::Fail { e: ErrKind::ExpectedFunction }
                    } else if a.args[0].len() != arrow.params.len() {
                        TyOut::Fail { e: ErrKind::ArityMismatch }
                    } else {
                        match ck_args(a.args[0], 0, arrow.params, defs, syms) {
                            Some(e) => TyOut::Fail { e },
                            None => TyOut::Done {
                                t: match arrow.ret {
                                    Some(t) => t,
                                    None => Ty::Unit,
                                },
                            },
                        }
                    }
                },
                None => match assoc_lookup(syms, ident) {
                    Some(_) => TyOut::Fail { e: ErrKind::ExpectedFunction },
                    None => TyOut::Fail { e: ErrKind::UndefinedVariable },
                },
            },
            _ => TyOut::Fail { e: ErrKind::ExpectedFunction },
        }
    }
}

/// Check the arguments of a call against the declared parameter types,
/// left to right; `None` means they all matched.
pub open spec fn ck_args(
    list: Seq<ExpnV>,
    i: int,
    expected: Seq<Ty>,
    defs: DefsV,
    syms: SymsV,
) -> Option<ErrKind>
    decreases 0int, list, list.len() - i,
{
    if i < 0 || i >= list.len() {
        None
    } else {
        match ck_expn(list[i], defs, syms) {
            TyOut::Fail { e } => Some(e),
            TyOut::Done { t } => {
                if t != expected[i] {
                    Some(ErrKind::MismatchedTypes)
                } else {
                    ck_args(list, i + 1, expected, defs, syms)
                }
            },
        }
    }
}

pub open spec fn ck_stmt(s: StmtV, defs: DefsV, syms: SymsV) -> CkOut
    decreases 2int, s, 0int,
{
    match s {
        StmtV::Decl { name, ty, expn } => match ck_expn(expn, defs, syms) {
            TyOut::Fail { e } => CkOut::Fail { e },
            TyOut::Done { t } => {
                if t == ty_view(ty) {
                    CkOut::Done { r: Rtns::Fallthrough, defs, syms: syms.push((name, t)) }
                } else {
                    CkOut::Fail { e: ErrKind::MismatchedTypes }
                }
            },
        },
        StmtV::Assgn { name, expn } => match assoc_lookup(syms, name) {
            None => CkOut::Fail { e: ErrKind::UndefinedVariable },
            Some(expected) => match ck_expn(expn, defs, syms) {
                TyOut::Fail { e } => CkOut::Fail { e },
                TyOut::Done { t } => {
                    if t == expected {
                        CkOut::Done { r: Rtns::Fallthrough, defs, syms }
                    } else {
                        CkOut::Fail { e: ErrKind::MismatchedTypes }
                    }
                },
            },
        },
        StmtV::Updt { name, expn, .. } => match assoc_lookup(syms, name) {
            None => CkOut::Fail { e: ErrKind::UndefinedVariable },
            Some(t) => {
                if t != Ty::Int {
                    CkOut::Fail { e: ErrKind::ExpectedInt }
                } else {
                    match ck_expn(expn, defs, syms) {
                        TyOut::Fail { e } => CkOut::Fail { e },
                        TyOut::Done { t: rt } => {
                            if rt == Ty::Int {
                                CkOut::Done { r: Rtns::Fallthrough, defs, syms }
                            } else {
                                CkOut::Fail { e: ErrKind::ExpectedInt }
                            }
                        },
                    }
                }
            },
        },
        StmtV::Pass => CkOut::Done { r: Rtns::Fallthrough, defs, syms },
        StmtV::Print { args } => ck_print(args, 0, defs, syms),
        StmtV::If { cond, if_nest, else_nest } => match ck_expn(cond, defs, syms) {
            TyOut::Fail { e } => CkOut::Fail { e },
            TyOut::Done { t } => {
                if t != Ty::Bool {
                    CkOut::Fail { e: ErrKind::ExpectedBool }
                } else {
                    match ck_blck(if_nest, 0, Rtns::Fallthrough, defs, syms) {
                        CkOut::Fail { e } => CkOut::Fail { e },
                        CkOut::Done { r: r1, .. } => match ck_blck(
                            else_nest,
                            0,
                            Rtns::Fallthrough,
                            defs,
                            syms,
                        ) {
                            CkOut::Fail { e } => CkOut::Fail { e },
                            CkOut::Done { r: r2, .. } => match reconcile_s(r1, r2) {
                                Ok(r) => CkOut::Done { r, defs, syms },
                                Err(e) => CkOut::Fail { e },
                            },
                        },
                    }
                }
            },
        },
        StmtV::While { cond, nest } => match ck_expn(cond, defs, syms) {
            TyOut::Fail { e } => CkOut::Fail { e },
            TyOut::Done { t } => {
                if t != Ty::Bool {
                    CkOut::Fail { e: ErrKind::ExpectedBool }
                } else {
                    match ck_blck(nest, 0, Rtns::Fallthrough, defs, syms) {
                        CkOut::Fail { e } => CkOut::Fail { e },
                        CkOut::Done { r: rb, .. } => match reconcile_s(rb, Rtns::Fallthrough) {
                            Ok(r) => CkOut::Done { r, defs, syms },
                            Err(e) => CkOut::Fail { e },
                        },
                    }
                }
            },
        },
        StmtV::ReturnExpn { expn } => match ck_expn(expn, defs, syms) {
            TyOut::Fail { e } => CkOut::Fail { e },
            TyOut::Done { t } => CkOut::Done { r: Rtns::Returns(t), defs, syms },
        },
        StmtV::Return => CkOut::Done { r: Rtns::Returns(Ty::Unit), defs, syms },
        StmtV::Defn { name, params, ret, rule } => {
            let arrow = ArrowTyV {
                ret: match ret {
                    Some(t) => Some(ty_view(t)),
                    None => None,
                },
                params: params.map_values(|p: (Seq<char>, Type)| ty_view(p.1)),
            };
            let defs2 = defs.push((name, arrow));
            let syms2 = syms + params.map_values(
                |p: (Seq<char>, Type)| (p.0, ty_view(p.1)),
            );
            match ck_blck(rule, 0, Rtns::Fallthrough, defs2, syms2) {
                CkOut::Fail { e } => CkOut::Fail { e },
                CkOut::Done { r: verdict, .. } => {
                    let declared = match arrow.ret {
                        Some(t) => t,
                        None => Ty::Unit,
                    };
                    match verdict {
                        Rtns::MightReturn(_) => CkOut::Fail { e: ErrKind::IndefiniteReturn },
                        Rtns::Fallthrough => {
                            if declared == Ty::Unit {
                                CkOut::Done { r: Rtns::Fallthrough, defs: defs2, syms }
                            } else {
                                CkOut::Fail { e: ErrKind::MismatchedTypes }
                            }
                        },
                        Rtns::Returns(t) => {
                            if declared == t {
                                CkOut::Done { r: Rtns::Fallthrough, defs: defs2, syms }
                            } else {
                                CkOut::Fail { e: ErrKind::MismatchedTypes }
                            }
                        },
                    }
                },
            }
        },
        StmtV::FuncCall { appl } => match ck_appl(appl, defs, syms) {
            TyOut::Fail { e } => CkOut::Fail { e },
            TyOut::Done { .. } => CkOut::Done { r: Rtns::Fallthrough, defs, syms },
        },
    }
}

/// Check the arguments of a `print`: each must already be text.
pub open spec fn ck_print(args: Seq<ExpnV>, i: int, defs: DefsV, syms: SymsV) -> CkOut
    decreases 1int, args, args.len() - i,
{
    if i < 0 || i >= args.len() {
        CkOut::Done { r: Rtns::Fallthrough, defs, syms }
    } else {
        match ck_expn(args[i], defs, syms) {
            TyOut::Fail { e } => CkOut::Fail { e },
            TyOut::Done { t } => {
                if t != Ty::Str {
                    CkOut::Fail { e: ErrKind::ExpectedStr }
                } else {
                    ck_print(args, i + 1, defs, syms)
                }
            },
        }
    }
}

/// Fold a block's verdict from its `i`-th statement, with `acc` the
/// verdict so far.  Each statement's verdict is joined onto the
/// running one with [`reconcile_s`]; a statement that definitely
/// returns makes the running verdict definite (the block cannot fall
/// past it), and any further statement is then an error.
pub open spec fn ck_blck(b: BlckV, i: int, acc: Rtns, defs: DefsV, syms: SymsV) -> CkOut
    decreases 2int, b, b.stmts.len() - i,
{
    if i < 0 || i >= b.stmts.len() {
        CkOut::Done { r: acc, defs, syms }
    } else if acc is Returns {
        CkOut::Fail { e: ErrKind::AlreadyReturned }
    } else {
        match ck_stmt(b.stmts[i], defs, syms) {
            CkOut::Fail { e } => CkOut::Fail { e },
            CkOut::Done { r: r1, defs: defs1, syms: syms1 } => match reconcile_s(acc, r1) {
                Err(e) => CkOut::Fail { e },
                Ok(joined) => ck_blck(
                    b,
                    i + 1,
                    if r1 is Returns {
                        r1
                    } else {
                        joined
                    },
                    defs1,
                    syms1,
                ),
            },
        }
    }
}

/// Check a whole program: its main block, starting from empty tables.
/// Any verdict is acceptable at the top level; `None` means the
/// program is accepted.
pub open spec fn ck_prgm(main: BlckV) -> Option<ErrKind> {
    match ck_blck(main, 0, Rtns::Fallthrough, Seq::empty(), Seq::empty()) {
        CkOut::Done { .. } => None,
        CkOut::Fail { e } => Some(e),
    }
}

// ---------------------------------------------------------------------
// The executable checker.
// ---------------------------------------------------------------------

/// The result of an expression check matches a semantic outcome.
pub open spec fn ty_matches(r: Result<Ty, ErrKind>, o: TyOut) -> bool {
    match r {
        Ok(t) => o == (TyOut::Done { t }),
        Err(e) => o == (TyOut::Fail { e }),
    }
}

/// The result of a statement or block check matches a semantic
/// outcome; on success the final tables match too.
pub open spec fn ck_matches(r: Result<Rtns, ErrKind>, o: CkOut, defs: DefsV, syms: SymsV) -> bool {
    match r {
        Ok(v) => o == (CkOut::Done { r: v, defs, syms }),
        Err(e) => o == (CkOut::Fail { e }),
    }
}

impl Expn {
    /// Check an expression; it neither binds nor rebinds anything.
    pub fn check(&self, defs: &DefTypes, syms: &SymTab) -> (r: Result<Ty, ErrKind>)
        ensures
            ty_matches(r, ck_expn(expn_view(*self), defs@, syms@)),
        decreases 0int, expn_view(*self), 1int,
    {
        match self {
            Expn::Binary { op, lhs, rhs } => {
                proof {
                    assert(decreases_to!(expn_view(*self) => expn_view(*self)->Binary_lhs));
                    assert(decreases_to!(expn_view(*self) => expn_view(*self)->Binary_rhs));
                }
                let (first, second): (&Expn, &Expn) = if op.is_right_assoc() {
                    (rhs, lhs)
                } else {
                    (lhs, rhs)
                };
                let t1 = match first.check(defs, syms) {
                    Ok(t) => t,
                    Err(e) => {
                        return Err(e);
                    },
                };
                let t2 = match second.check(defs, syms) {
                    Ok(t) => t,
                    Err(e) => {
                        return Err(e);
                    },
                };
                let (lt, rt) = if op.is_right_assoc() {
                    (t2, t1)
                } else {
                    (t1, t2)
                };
                match op {
                    Bop::AndOp(_) | Bop::OrOp(_) => {
                        if lt != Ty::Bool {
                            Err(ErrKind::ExpectedBool)
                        } else if rt != Ty::Bool {
                            Err(ErrKind::ExpectedBool)
                        } else {
                            Ok(Ty::Bool)
                        }
                    },
                    Bop::CompOp(_) => {
                        if lt != Ty::Int {
                            Err(ErrKind::ExpectedInt)
                        } else if rt != Ty::Int {
                            Err(ErrKind::ExpectedInt)
                        } else {
                            Ok(Ty::Bool)
                        }
                    },
                    _ => {
                        if lt != Ty::Int {
                            Err(ErrKind::ExpectedInt)
                        } else if rt != Ty::Int {
                            Err(ErrKind::ExpectedInt)
                        } else {
                            Ok(Ty::Int)
                        }
                    },
                }
            },
            Expn::Unary { op: _, child } => {
                proof {
                    assert(decreases_to!(expn_view(*self) => expn_view(*self)->Unary_child));
                }
                let t = match child.check(defs, syms) {
                    Ok(t) => t,
                    Err(e) => {
                        return Err(e);
                    },
                };
                if t == Ty::Bool {
                    Ok(Ty::Bool)
                } else {
                    Err(ErrKind::ExpectedBool)
                }
            },
            Expn::Apply { appl } => {
                proof {
                    assert(decreases_to!(expn_view(*self) => expn_view(*self)->Apply_appl));
                }
                appl.check(defs, syms)
            },
        }
    }
}

impl Leaf {
    /// Check an atomic expression form.
    pub fn check(&self, defs: &DefTypes, syms: &SymTab) -> (r: Result<Ty, ErrKind>)
        ensures
            ty_matches(r, ck_leaf(leaf_view(*self), defs@, syms@)),
        decreases 0int, leaf_view(*self), 1int,
    {
        match self {
            Leaf::Inpt { prompt } => {
                proof {
                    assert(decreases_to!(leaf_view(*self) => leaf_view(*self)->Inpt_prompt));
                }
                let t = match prompt.check(defs, syms) {
                    Ok(t) => t,
                    Err(e) => {
                        return Err(e);
                    },
                };
                if t == Ty::Str {
                    Ok(Ty::Str)
                } else {
                    Err(ErrKind::ExpectedStr)
                }
            },
            Leaf::IntCast { expn } => {
                proof {
                    assert(decreases_to!(leaf_view(*self) => leaf_view(*self)->IntCast_expn));
                }
                let t = match expn.check(defs, syms) {
                    Ok(t) => t,
                    Err(e) => {
                        return Err(e);
                    },
                };
                if t == Ty::Int || t == Ty::Bool {
                    Ok(Ty::Int)
                } else {
                    Err(ErrKind::ExpectedIntOrBool)
                }
            },
            Leaf::StrCast { expn } => {
                proof {
                    assert(decreases_to!(leaf_view(*self) => leaf_view(*self)->StrCast_expn));
                }
                match expn.check(defs, syms) {
                    Ok(_) => Ok(Ty::Str),
                    Err(e) => Err(e),
                }
            },
            Leaf::Nmbr { .. } => Ok(Ty::Int),
            Leaf::Strg { .. } => Ok(Ty::Str),
            Leaf::BoolLit { .. } => Ok(Ty::Bool),
            Leaf::Name { ident } => match syms.get(ident) {
                Some(t) => Ok(t),
                None => Err(ErrKind::UndefinedVariable),
            },
            Leaf::Unit => Ok(Ty::Unit),
            Leaf::Paren { expn } => {
                proof {
                    assert(decreases_to!(leaf_view(*self) => leaf_view(*self)->Paren_expn));
                }
                expn.check(defs, syms)
            },
        }
    }
}

impl Appl {
    /// Check an application, as [`ck_appl`] describes.
    #[verifier::loop_isolation(false)]
    pub fn check(&self, defs: &DefTypes, syms: &SymTab) -> (r: Result<Ty, ErrKind>)
        ensures
            ty_matches(r, ck_appl(appl_view(*self), defs@, syms@)),
        decreases 0int, appl_view(*self), 0int,
    {
        let ghost av = appl_view(*self);
        proof {
            lemma_arglists_view(self.args@);
        }
        if self.args.len() == 0 {
            proof {
                assert(decreases_to!(av => av.left));
            }
            return self.left.check(defs, syms);
        }
        let ident = match &self.left {
            Leaf::Name { ident } => ident,
            _ => {
                return Err(ErrKind::ExpectedFunction);
            },
        };
        let arrow = match defs.get(ident) {
            Some(a) => a,
            None => {
                return match syms.get(ident) {
                    Some(_) => Err(ErrKind::ExpectedFunction),
                    None => Err(ErrKind::UndefinedVariable),
                };
            },
        };
        if self.args.len() > 1 {
            return Err(ErrKind::ExpectedFunction);
        }
        let list = &self.args[0];
        let ghost listv = expns_view(list.exps@);
        proof {
            lemma_expns_view(list.exps@);
        }
        if list.exps.len() != arrow.params.len() {
            return Err(ErrKind::ArityMismatch);
        }
        let n = list.exps.len();
        let mut i: usize = 0;
        while i < n
            invariant
                i <= n,
                ck_args(listv, 0, arrow.params@, defs@, syms@) == ck_args(
                    listv,
                    i as int,
                    arrow.params@,
                    defs@,
                    syms@,
                ),
            decreases n - i,
        {
            proof {
                assert(decreases_to!(av => av.args));
                assert(decreases_to!(av.args => av.args[0int]));
                assert(decreases_to!(listv => listv[i as int]));
            }
            let t = match list.exps[i].check(defs, syms) {
                Ok(t) => t,
                Err(e) => {
                    return Err(e);
                },
            };
            if t != arrow.params[i] {
                return Err(ErrKind::MismatchedTypes);
            }
            i += 1;
        }
        match arrow.ret {
            Some(t) => Ok(t),
            None => Ok(Ty::Unit),
        }
    }
}

impl Stmt {
    /// Check one statement; on success the tables hold what the
    /// following statements may rely on.
    #[verifier::loop_isolation(false)]
    #[verifier::rlimit(100)]
    pub fn check(&self, defs: &mut DefTypes, syms: &mut SymTab) -> (r: Result<Rtns, ErrKind>)
        ensures
            ck_matches(
                r,
                ck_stmt(stmt_view(*self), old(defs)@, old(syms)@),
                final(defs)@,
                final(syms)@,
            ),
        decreases 2int, stmt_view(*self), 1int,
    {
        let ghost sv = stmt_view(*self);
        match self {
            Stmt::Decl { typed_ident, expn } => {
                let t = match expn.check(defs, syms) {
                    Ok(t) => t,
                    Err(e) => {
                        return Err(e);
                    },
                };
                if t == typed_ident.ty.to_ty() {
                    syms.set(typed_ident.ident.clone(), t);
                    Ok(Rtns::Fallthrough)
                } else {
                    Err(ErrKind::MismatchedTypes)
                }
            },
            Stmt::Assgn { ident, expn } => {
                let expected = match syms.get(ident) {
                    Some(t) => t,
                    None => {
                        return Err(ErrKind::UndefinedVariable);
                    },
                };
                let t = match expn.check(defs, syms) {
                    Ok(t) => t,
                    Err(e) => {
                        return Err(e);
                    },
                };
                if t == expected {
                    Ok(Rtns::Fallthrough)
                } else {
                    Err(ErrKind::MismatchedTypes)
                }
            },
            Stmt::Updt { ident, op: _, expn } => {
                let t = match syms.get(ident) {
                    Some(t) => t,
                    None => {
                        return Err(ErrKind::UndefinedVariable);
                    },
                };
                if t != Ty::Int {
                    return Err(ErrKind::ExpectedInt);
                }
                let rt = match expn.check(defs, syms) {
                    Ok(t) => t,
                    Err(e) => {
                        return Err(e);
                    },
                };
                if rt == Ty::Int {
                    Ok(Rtns::Fallthrough)
                } else {
                    Err(ErrKind::ExpectedInt)
                }
            },
            Stmt::Pass => Ok(Rtns::Fallthrough),
            Stmt::Print { args } => {
                let ghost argsv = expns_view(args@);
                proof {
                    lemma_expns_view(args@);
                }
                let n = args.len();
                let mut i: usize = 0;
                while i < n
                    invariant
                        i <= n,
                        *defs == *old(defs),
                        *syms == *old(syms),
                        ck_print(argsv, 0, defs@, syms@) == ck_print(
                            argsv,
                            i as int,
                            defs@,
                            syms@,
                        ),
                    decreases n - i,
                {
                    proof {
                        assert(decreases_to!(argsv => argsv[i as int]));
                    }
                    let t = match args[i].check(defs, syms) {
                        Ok(t) => t,
                        Err(e) => {
                            return Err(e);
                        },
                    };
                    if t != Ty::Str {
                        return Err(ErrKind::ExpectedStr);
                    }
                    i += 1;
                }
                Ok(Rtns::Fallthrough)
            },
            Stmt::If { cond, if_nest, else_nest } => {
                proof {
                    assert(decreases_to!(sv => sv->If_if_nest));
                    assert(decreases_to!(sv => sv->If_else_nest));
                }
                let t = match cond.check(defs, syms) {
                    Ok(t) => t,
                    Err(e) => {
                        return Err(e);
                    },
                };
                if t != Ty::Bool {
                    return Err(ErrKind::ExpectedBool);
                }
                let mut defs_if = defs.duplicate();
                let mut syms_if = syms.duplicate();
                let r1 = match if_nest.check(&mut defs_if, &mut syms_if) {
                    Ok(r) => r,
                    Err(e) => {
                        return Err(e);
                    },
                };
                let mut defs_else = defs.duplicate();
                let mut syms_else = syms.duplicate();
                let r2 = match else_nest.check(&mut defs_else, &mut syms_else) {
                    Ok(r) => r,
                    Err(e) => {
                        return Err(e);
                    },
                };
                r1.reconcile(r2)
            },
            Stmt::While { cond, nest } => {
                proof {
                    assert(decreases_to!(sv => sv->While_nest));
                }
                let t = match cond.check(defs, syms) {
                    Ok(t) => t,
                    Err(e) => {
                        return Err(e);
                    },
                };
                if t != Ty::Bool {
                    return Err(ErrKind::ExpectedBool);
                }
                let mut defs_body = defs.duplicate();
                let mut syms_body = syms.duplicate();
                let rb = match nest.check(&mut defs_body, &mut syms_body) {
                    Ok(r) => r,
                    Err(e) => {
                        return Err(e);
                    },
                };
                rb.reconcile(Rtns::Fallthrough)
            },
            Stmt::ReturnExpn { expn } => {
                let t = match expn.check(defs, syms) {
                    Ok(t) => t,
                    Err(e) => {
                        return Err(e);
                    },
                };
                Ok(Rtns::Returns(t))
            },
            Stmt::Return => Ok(Rtns::Returns(Ty::Unit)),
            Stmt::Defn { name, params, ret, rule } => check_defn(
                name,
                params,
                ret,
                rule,
                defs,
                syms,
                Ghost(sv),
            ),
            Stmt::FuncCall { appl } => match appl.check(defs, syms) {
                Ok(_) => Ok(Rtns::Fallthrough),
                Err(e) => Err(e),
            },
        }
    }
}


/// Check a function definition: record its signature, check its body
/// under its parameters, and require the inferred return type to equal
/// the declared one exactly (unit if none is declared).
#[verifier::loop_isolation(false)]
#[verifier::rlimit(100)]
fn check_defn(
    name: &String,
    params: &Vec<crate::ast::TypedIdent>,
    ret: &Option<crate::ast::ReturnType>,
    rule: &Nest,
    defs: &mut DefTypes,
    syms: &mut SymTab,
    Ghost(sv): Ghost<StmtV>,
) -> (r: Result<Rtns, ErrKind>)
    requires
        sv == (StmtV::Defn {
            name: name@,
            params: params@.map_values(|t: crate::ast::TypedIdent| crate::ast::tid_view(t)),
            ret: match *ret {
                Some(rt) => Some(rt.ty),
                None => None,
            },
            rule: nest_view(*rule),
        }),
    ensures
        ck_matches(r, ck_stmt(sv, old(defs)@, old(syms)@), final(defs)@, final(syms)@),
    decreases 2int, sv, 0int,
{
    proof {
        assert(decreases_to!(sv => sv->Defn_rule));
    }
    proof {
        assert(decreases_to!(sv => sv->Defn_rule));
    }
    let mut ptys: Vec<Ty> = Vec::new();
    let n = params.len();
    let mut i: usize = 0;
    while i < n
        invariant
            i <= n,
            ptys@.len() == i as int,
            forall|j: int| 0 <= j < i ==> ptys@[j] == ty_view(params@[j].ty),
        decreases n - i,
    {
        ptys.push(params[i].ty.to_ty());
        i += 1;
    }
    let rty: Option<Ty> = match ret {
        Some(rt) => Some(rt.ty.to_ty()),
        None => None,
    };
    let declared: Ty = match rty {
        Some(t) => t,
        None => Ty::Unit,
    };
    let arrow = ArrowType { ret: rty, params: ptys };
    proof {
        assert(arrow_view(arrow).params =~= sv->Defn_params.map_values(
            |p: (Seq<char>, Type)| ty_view(p.1),
        ));
    }
    defs.set(name.clone(), arrow);
    let mut defs_body = defs.duplicate();
    let mut syms_body = syms.duplicate();
    let mut k: usize = 0;
    while k < n
        invariant
            k <= n,
            defs_body@ == defs@,
            syms_body@ == old(syms)@ + sv->Defn_params.map_values(
                |p: (Seq<char>, Type)| (p.0, ty_view(p.1)),
            ).take(k as int),
        decreases n - k,
    {
        syms_body.set(params[k].ident.clone(), params[k].ty.to_ty());
        proof {
            let ghost pm = sv->Defn_params.map_values(
                |p: (Seq<char>, Type)| (p.0, ty_view(p.1)),
            );
            assert(pm.take(k as int + 1).drop_last() =~= pm.take(k as int));
            assert(syms_body@ =~= old(syms)@ + pm.take(k as int + 1));
        }
        k += 1;
    }
    proof {
        let ghost pm = sv->Defn_params.map_values(
            |p: (Seq<char>, Type)| (p.0, ty_view(p.1)),
        );
        assert(pm.take(n as int) =~= pm);
    }
    let verdict = match rule.check(&mut defs_body, &mut syms_body) {
        Ok(r) => r,
        Err(e) => {
            return Err(e);
        },
    };
    match verdict {
        Rtns::MightReturn(_) => Err(ErrKind::IndefiniteReturn),
        Rtns::Fallthrough => {
            if declared == Ty::Unit {
                Ok(Rtns::Fallthrough)
            } else {
                Err(ErrKind::MismatchedTypes)
            }
        },
        Rtns::Returns(t) => {
            if declared == t {
                Ok(Rtns::Fallthrough)
            } else {
                Err(ErrKind::MismatchedTypes)
            }
        },
    }
}

impl Blck {
    /// Check the statements in order, folding their verdicts.
    #[verifier::loop_isolation(false)]
    pub fn check(&self, defs: &mut DefTypes, syms: &mut SymTab) -> (r: Result<Rtns, ErrKind>)
        ensures
            ck_matches(
                r,
                ck_blck(blck_view(*self), 0, Rtns::Fallthrough, old(defs)@, old(syms)@),
                final(defs)@,
                final(syms)@,
            ),
        decreases 2int, blck_view(*self), 1int,
    {
        let ghost bv = blck_view(*self);
        let ghost goal = ck_blck(bv, 0, Rtns::Fallthrough, old(defs)@, old(syms)@);
        proof {
            lemma_stmts_view(self.stmts@);
        }
        let mut acc = Rtns::Fallthrough;
        let n = self.stmts.len();
        let mut i: usize = 0;
        while i < n
            invariant
                i <= n,
                goal == ck_blck(bv, i as int, acc, defs@, syms@),
            decreases n - i,
        {
            proof {
                assert(decreases_to!(bv => bv.stmts));
                assert(decreases_to!(bv.stmts => bv.stmts[i as int]));
            }
            if let Rtns::Returns(_) = acc {
                return Err(ErrKind::AlreadyReturned);
            }
            let r1 = match self.stmts[i].check(defs, syms) {
                Ok(r) => r,
                Err(e) => {
                    return Err(e);
                },
            };
            let joined = match acc.reconcile(r1) {
                Ok(a) => a,
                Err(e) => {
                    return Err(e);
                },
            };
            acc = if let Rtns::Returns(_) = r1 {
                r1
            } else {
                joined
            };
            i += 1;
        }
        Ok(acc)
    }
}

impl Nest {
    /// Check a nested block.
    pub fn check(&self, defs: &mut DefTypes, syms: &mut SymTab) -> (r: Result<Rtns, ErrKind>)
        ensures
            ck_matches(
                r,
                ck_blck(nest_view(*self), 0, Rtns::Fallthrough, old(defs)@, old(syms)@),
                final(defs)@,
                final(syms)@,
            ),
        decreases 2int, nest_view(*self), 2int,
    {
        self.block.check(defs, syms)
    }
}

impl Prgm {
    /// Check a whole program from empty tables; `Ok` means the checker
    /// accepts it.
    pub fn check(&self) -> (r: Result<(), ErrKind>)
        ensures
            match r {
                Ok(_) => ck_prgm(prgm_view(*self)) is None,
                Err(e) => ck_prgm(prgm_view(*self)) == Some(e),
            },
    {
        let mut defs = DefTypes::new();
        let mut syms = SymTab::new();
        match self.main.check(&mut defs, &mut syms) {
            Ok(_) => Ok(()),
            Err(e) => Err(e),
        }
    }
}

} // verus!
