//! The type and return-flow checker: verdict joins, rejection of
//! unreachable statements, and acceptance rules.
use slpy::ast::{
    Add, Appl, ArgList, Blck, Bop, Comp, Expn, Leaf, Mult, Nest, Prgm, ReturnType, Stmt, Type,
    TypedIdent, Updt,
};
use slpy::check::{DefTypes, Rtns, SymTab, Ty};
use slpy::errors::ErrKind;
use slpy::value::{Context, RunState};

fn leaf(l: Leaf) -> Expn {
    Expn::Apply { appl: Appl { left: l, args: vec![] } }
}

fn num(n: i64) -> Expn {
    leaf(Leaf::Nmbr { num: n })
}

fn text(s: &str) -> Expn {
    leaf(Leaf::Strg { text: s.to_string() })
}

fn boolean(b: bool) -> Expn {
    leaf(Leaf::BoolLit { flag: b })
}

fn name(n: &str) -> Expn {
    leaf(Leaf::Name { ident: n.to_string() })
}

fn bin(op: Bop, l: Expn, r: Expn) -> Expn {
    Expn::Binary { op, lhs: Box::new(l), rhs: Box::new(r) }
}

fn str_cast(e: Expn) -> Expn {
    leaf(Leaf::StrCast { expn: Box::new(e) })
}

fn int_cast(e: Expn) -> Expn {
    leaf(Leaf::IntCast { expn: Box::new(e) })
}

fn call(f: &str, args: Vec<Expn>) -> Expn {
    Expn::Apply {
        appl: Appl {
            left: Leaf::Name { ident: f.to_string() },
            args: vec![ArgList { exps: args }],
        },
    }
}

fn nest(stmts: Vec<Stmt>) -> Box<Nest> {
    Box::new(Nest { block: Blck { stmts } })
}

fn decl(n: &str, ty: Type, e: Expn) -> Stmt {
    Stmt::Decl { typed_ident: TypedIdent { ident: n.to_string(), ty }, expn: e }
}

fn defn(n: &str, params: Vec<(&str, Type)>, ret: Option<Type>, body: Vec<Stmt>) -> Stmt {
    Stmt::Defn {
        name: n.to_string(),
        params: params
            .into_iter()
            .map(|(p, ty)| TypedIdent { ident: p.to_string(), ty })
            .collect(),
        ret: ret.map(|ty| ReturnType { ty }),
        rule: nest(body),
    }
}

fn check(stmts: Vec<Stmt>) -> Result<(), ErrKind> {
    Prgm { main: Blck { stmts } }.check()
}

fn check_expn(e: &Expn) -> Result<Ty, ErrKind> {
    e.check(&DefTypes::new(), &SymTab::new())
}

#[test]
fn reconcile_fallthrough_pair() {
    assert_eq!(
        Rtns::Fallthrough.reconcile(Rtns::Fallthrough),
        Ok(Rtns::Fallthrough)
    );
}

#[test]
fn reconcile_matching_returns() {
    assert_eq!(
        Rtns::Returns(Ty::Int).reconcile(Rtns::Returns(Ty::Int)),
        Ok(Rtns::Returns(Ty::Int))
    );
}

#[test]
fn reconcile_mismatched_returns_is_an_error() {
    assert_eq!(
        Rtns::Returns(Ty::Int).reconcile(Rtns::Returns(Ty::Bool)),
        Err(ErrKind::MismatchedTypes)
    );
}

#[test]
fn reconcile_degrades_one_sided_returns() {
    assert_eq!(
        Rtns::Returns(Ty::Int).reconcile(Rtns::Fallthrough),
        Ok(Rtns::MightReturn(Ty::Int))
    );
    assert_eq!(
        Rtns::Fallthrough.reconcile(Rtns::Returns(Ty::Str)),
        Ok(Rtns::MightReturn(Ty::Str))
    );
}

#[test]
fn statement_after_definite_return_is_rejected() {
    assert_eq!(
        check(vec![Stmt::Return, Stmt::Pass]),
        Err(ErrKind::AlreadyReturned)
    );
}

#[test]
fn statement_after_definite_return_in_function_body_is_rejected() {
    let f = defn(
        "f",
        vec![],
        Some(Type::Int),
        vec![Stmt::ReturnExpn { expn: num(1) }, Stmt::Pass],
    );
    assert_eq!(check(vec![f]), Err(ErrKind::AlreadyReturned));
}

#[test]
fn indefinite_function_return_is_rejected() {
    // One branch returns, the other falls through: some path would
    // fall off the end.
    let f = defn(
        "f",
        vec![],
        Some(Type::Int),
        vec![Stmt::If {
            cond: boolean(true),
            if_nest: nest(vec![Stmt::ReturnExpn { expn: num(1) }]),
            else_nest: nest(vec![Stmt::Pass]),
        }],
    );
    assert_eq!(check(vec![f]), Err(ErrKind::IndefiniteReturn));
}

#[test]
fn branches_that_both_return_check_definitely() {
    let f = defn(
        "f",
        vec![],
        Some(Type::Int),
        vec![Stmt::If {
            cond: boolean(true),
            if_nest: nest(vec![Stmt::ReturnExpn { expn: num(1) }]),
            else_nest: nest(vec![Stmt::ReturnExpn { expn: num(2) }]),
        }],
    );
    assert_eq!(check(vec![f]), Ok(()));
}

#[test]
fn declared_and_inferred_return_types_must_match() {
    let f = defn(
        "f",
        vec![],
        Some(Type::Int),
        vec![Stmt::ReturnExpn { expn: boolean(true) }],
    );
    assert_eq!(check(vec![f]), Err(ErrKind::MismatchedTypes));
}

#[test]
fn missing_return_type_means_unit() {
    let ok = defn("f", vec![], None, vec![Stmt::Pass]);
    assert_eq!(check(vec![ok]), Ok(()));
    let bad = defn("g", vec![], None, vec![Stmt::ReturnExpn { expn: num(1) }]);
    assert_eq!(check(vec![bad]), Err(ErrKind::MismatchedTypes));
}

#[test]
fn declaration_requires_exact_type() {
    assert_eq!(check(vec![decl("x", Type::Int, num(1))]), Ok(()));
    assert_eq!(
        check(vec![decl("x", Type::Int, boolean(true))]),
        Err(ErrKind::MismatchedTypes)
    );
}

#[test]
fn assignment_requires_existing_name_and_same_type() {
    assert_eq!(
        check(vec![Stmt::Assgn { ident: "x".to_string(), expn: num(1) }]),
        Err(ErrKind::UndefinedVariable)
    );
    assert_eq!(
        check(vec![
            decl("x", Type::Int, num(1)),
            Stmt::Assgn { ident: "x".to_string(), expn: text("a") },
        ]),
        Err(ErrKind::MismatchedTypes)
    );
    assert_eq!(
        check(vec![
            decl("x", Type::Int, num(1)),
            Stmt::Assgn { ident: "x".to_string(), expn: num(2) },
        ]),
        Ok(())
    );
}

#[test]
fn update_requires_integers_on_both_sides() {
    assert_eq!(
        check(vec![
            decl("x", Type::Str, text("a")),
            Stmt::Updt { ident: "x".to_string(), op: Updt::Plus, expn: num(1) },
        ]),
        Err(ErrKind::ExpectedInt)
    );
    assert_eq!(
        check(vec![
            decl("x", Type::Int, num(1)),
            Stmt::Updt { ident: "x".to_string(), op: Updt::Plus, expn: text("a") },
        ]),
        Err(ErrKind::ExpectedInt)
    );
    assert_eq!(
        check(vec![
            decl("x", Type::Int, num(1)),
            Stmt::Updt { ident: "x".to_string(), op: Updt::Minus, expn: num(2) },
        ]),
        Ok(())
    );
}

#[test]
fn print_arguments_must_already_be_text() {
    assert_eq!(
        check(vec![Stmt::Print { args: vec![str_cast(num(1))] }]),
        Ok(())
    );
    assert_eq!(
        check(vec![Stmt::Print { args: vec![num(1)] }]),
        Err(ErrKind::ExpectedStr)
    );
}

#[test]
fn conditions_must_be_boolean() {
    assert_eq!(
        check(vec![Stmt::If {
            cond: num(1),
            if_nest: nest(vec![Stmt::Pass]),
            else_nest: nest(vec![Stmt::Pass]),
        }]),
        Err(ErrKind::ExpectedBool)
    );
    assert_eq!(
        check(vec![Stmt::While { cond: num(1), nest: nest(vec![Stmt::Pass]) }]),
        Err(ErrKind::ExpectedBool)
    );
}

#[test]
fn operator_operand_types_are_enforced() {
    assert_eq!(check_expn(&bin(Bop::AddOp(Add::Plus), num(1), num(2))), Ok(Ty::Int));
    assert_eq!(
        check_expn(&bin(Bop::AddOp(Add::Plus), num(1), text("a"))),
        Err(ErrKind::ExpectedInt)
    );
    assert_eq!(
        check_expn(&bin(Bop::CompOp(Comp::Lt), num(1), num(2))),
        Ok(Ty::Bool)
    );
    assert_eq!(
        check_expn(&bin(Bop::AndOp(slpy::ast::And), boolean(true), num(1))),
        Err(ErrKind::ExpectedBool)
    );
}

#[test]
fn division_by_zero_is_not_a_check_error() {
    // `5 / 0` and `5 % 0` are well-typed; they fail only when run.
    assert_eq!(
        check_expn(&bin(Bop::MultOp(Mult::Div), num(5), num(0))),
        Ok(Ty::Int)
    );
    assert_eq!(
        check_expn(&bin(Bop::MultOp(Mult::Mod), num(5), num(0))),
        Ok(Ty::Int)
    );
    assert_eq!(
        check_expn(&bin(Bop::ExptOp(slpy::ast::Expt), num(2), num(-1))),
        Ok(Ty::Int)
    );
}

#[test]
fn int_cast_accepts_int_or_bool_only() {
    assert_eq!(check_expn(&int_cast(num(1))), Ok(Ty::Int));
    assert_eq!(check_expn(&int_cast(boolean(true))), Ok(Ty::Int));
    assert_eq!(check_expn(&int_cast(text("7"))), Err(ErrKind::ExpectedIntOrBool));
}

#[test]
fn str_cast_accepts_anything() {
    assert_eq!(check_expn(&str_cast(num(1))), Ok(Ty::Str));
    assert_eq!(check_expn(&str_cast(leaf(Leaf::Unit))), Ok(Ty::Str));
}

#[test]
fn input_prompt_must_be_text() {
    let good = leaf(Leaf::Inpt { prompt: Box::new(text("p")) });
    let bad = leaf(Leaf::Inpt { prompt: Box::new(num(1)) });
    assert_eq!(check_expn(&good), Ok(Ty::Str));
    assert_eq!(check_expn(&bad), Err(ErrKind::ExpectedStr));
}

#[test]
fn calls_are_checked_against_the_declared_signature() {
    let f = defn(
        "f",
        vec![("a", Type::Int)],
        Some(Type::Int),
        vec![Stmt::ReturnExpn { expn: name("a") }],
    );
    assert_eq!(
        check(vec![f, decl("x", Type::Int, call("f", vec![num(1)]))]),
        Ok(())
    );
    let f2 = defn(
        "f",
        vec![("a", Type::Int)],
        Some(Type::Int),
        vec![Stmt::ReturnExpn { expn: name("a") }],
    );
    assert_eq!(
        check(vec![f2, decl("x", Type::Int, call("f", vec![boolean(true)]))]),
        Err(ErrKind::MismatchedTypes)
    );
    let f3 = defn(
        "f",
        vec![("a", Type::Int)],
        Some(Type::Int),
        vec![Stmt::ReturnExpn { expn: name("a") }],
    );
    assert_eq!(
        check(vec![f3, decl("x", Type::Int, call("f", vec![num(1), num(2)]))]),
        Err(ErrKind::ArityMismatch)
    );
}

#[test]
fn calling_an_unknown_name_is_undefined() {
    assert_eq!(
        check(vec![decl("x", Type::Int, call("g", vec![num(1)]))]),
        Err(ErrKind::UndefinedVariable)
    );
}

#[test]
fn calling_a_plain_variable_is_rejected() {
    assert_eq!(
        check(vec![
            decl("x", Type::Int, num(3)),
            Stmt::FuncCall {
                appl: Appl {
                    left: Leaf::Name { ident: "x".to_string() },
                    args: vec![ArgList { exps: vec![num(1)] }],
                },
            },
        ]),
        Err(ErrKind::ExpectedFunction)
    );
}

#[test]
fn recursive_definitions_typecheck_and_run() {
    // The function's own signature is visible inside its body; the
    // checked program then actually computes 120.
    let fact = defn(
        "fact",
        vec![("n", Type::Int)],
        Some(Type::Int),
        vec![Stmt::If {
            cond: bin(Bop::CompOp(Comp::Leq), name("n"), num(1)),
            if_nest: nest(vec![Stmt::ReturnExpn { expn: num(1) }]),
            else_nest: nest(vec![Stmt::ReturnExpn {
                expn: bin(
                    Bop::MultOp(Mult::Times),
                    name("n"),
                    call("fact", vec![bin(Bop::AddOp(Add::Minus), name("n"), num(1))]),
                ),
            }]),
        }],
    );
    let prog = Prgm {
        main: Blck {
            stmts: vec![fact, decl("x", Type::Int, call("fact", vec![num(5)]))],
        },
    };
    assert_eq!(prog.check(), Ok(()));
    let mut ctx = Context::new();
    let mut st = RunState::new(vec![]);
    assert_eq!(prog.eval(&mut ctx, &mut st, 1_000_000), Ok(()));
    match ctx.get(&"x".to_string()) {
        Some(slpy::value::Value::Int(120)) => {},
        other => panic!("expected 120, got {:?}", other),
    }
}

#[test]
fn parameters_do_not_leak_out_of_their_body() {
    let f = defn(
        "f",
        vec![("n", Type::Int)],
        Some(Type::Int),
        vec![Stmt::ReturnExpn { expn: name("n") }],
    );
    assert_eq!(
        check(vec![f, Stmt::Print { args: vec![str_cast(name("n"))] }]),
        Err(ErrKind::UndefinedVariable)
    );
}

#[test]
fn branch_bindings_are_not_assumed_afterwards() {
    // A declaration inside one branch may never have run.
    assert_eq!(
        check(vec![
            Stmt::If {
                cond: boolean(true),
                if_nest: nest(vec![decl("x", Type::Int, num(1))]),
                else_nest: nest(vec![Stmt::Pass]),
            },
            Stmt::Assgn { ident: "x".to_string(), expn: num(2) },
        ]),
        Err(ErrKind::UndefinedVariable)
    );
}

#[test]
fn chained_call_is_rejected_by_the_checker() {
    // The type system has no function type, so the ground result of a
    // first call cannot be called again.
    let f = defn("f", vec![], None, vec![Stmt::Pass]);
    let chained = Expn::Apply {
        appl: Appl {
            left: Leaf::Name { ident: "f".to_string() },
            args: vec![ArgList { exps: vec![] }, ArgList { exps: vec![num(1)] }],
        },
    };
    assert_eq!(
        check(vec![f, Stmt::FuncCall { appl: match chained {
            Expn::Apply { appl } => appl,
            _ => unreachable!(),
        } }]),
        Err(ErrKind::ExpectedFunction)
    );
}

#[test]
fn empty_program_is_accepted() {
    assert_eq!(check(vec![]), Ok(()));
}
