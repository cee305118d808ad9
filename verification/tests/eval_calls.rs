//! Evaluation of statements, loops, function definitions, closures
//! and calls.
use slpy::ast::{
    Add, Appl, ArgList, Blck, Bop, Comp, Expn, Leaf, Mult, Nest, Prgm, ReturnType, Stmt, Type,
    TypedIdent, Updt,
};
use slpy::errors::ErrKind;
use slpy::value::{Context, RunState, Value};

fn leaf(l: Leaf) -> Expn {
    Expn::Apply { appl: Appl { left: l, args: vec![] } }
}

fn num(n: i64) -> Expn {
    leaf(Leaf::Nmbr { num: n })
}

fn text(s: &str) -> Expn {
    leaf(Leaf::Strg { text: s.to_string() })
}

fn boolean(b: bool) -> Expn {
    leaf(Leaf::BoolLit { flag: b })
}

fn name(n: &str) -> Expn {
    leaf(Leaf::Name { ident: n.to_string() })
}

fn bin(op: Bop, l: Expn, r: Expn) -> Expn {
    Expn::Binary { op, lhs: Box::new(l), rhs: Box::new(r) }
}

fn str_cast(e: Expn) -> Expn {
    leaf(Leaf::StrCast { expn: Box::new(e) })
}

fn call(f: &str, args: Vec<Expn>) -> Expn {
    Expn::Apply {
        appl: Appl {
            left: Leaf::Name { ident: f.to_string() },
            args: vec![ArgList { exps: args }],
        },
    }
}

fn nest(stmts: Vec<Stmt>) -> Box<Nest> {
    Box::new(Nest { block: Blck { stmts } })
}

fn assign(n: &str, e: Expn) -> Stmt {
    Stmt::Assgn { ident: n.to_string(), expn: e }
}

fn defn(n: &str, params: Vec<(&str, Type)>, ret: Option<Type>, body: Vec<Stmt>) -> Stmt {
    Stmt::Defn {
        name: n.to_string(),
        params: params
            .into_iter()
            .map(|(p, ty)| TypedIdent { ident: p.to_string(), ty })
            .collect(),
        ret: ret.map(|ty| ReturnType { ty }),
        rule: nest(body),
    }
}

fn run(stmts: Vec<Stmt>, input: Vec<&str>) -> (Result<(), ErrKind>, Context, RunState) {
    let p = Prgm { main: Blck { stmts } };
    let mut ctx = Context::new();
    let mut st = RunState::new(input.iter().map(|s| s.to_string()).collect());
    let r = p.eval(&mut ctx, &mut st, 1_000_000);
    (r, ctx, st)
}

fn get_int(ctx: &Context, n: &str) -> i64 {
    match ctx.get(&n.to_string()) {
        Some(Value::Int(v)) => v,
        other => panic!("expected an integer binding for {}, got {:?}", n, other),
    }
}

#[test]
fn factorial_of_five_is_120() {
    // def fact(n): { if n <= 1: { return 1; } else: { return n * fact(n-1); } }
    // x = fact(5);
    let fact = defn(
        "fact",
        vec![("n", Type::Int)],
        Some(Type::Int),
        vec![Stmt::If {
            cond: bin(Bop::CompOp(Comp::Leq), name("n"), num(1)),
            if_nest: nest(vec![Stmt::ReturnExpn { expn: num(1) }]),
            else_nest: nest(vec![Stmt::ReturnExpn {
                expn: bin(
                    Bop::MultOp(Mult::Times),
                    name("n"),
                    call("fact", vec![bin(Bop::AddOp(Add::Minus), name("n"), num(1))]),
                ),
            }]),
        }],
    );
    let (r, ctx, _) = run(vec![fact, assign("x", call("fact", vec![num(5)]))], vec![]);
    assert_eq!(r, Ok(()));
    assert_eq!(get_int(&ctx, "x"), 120);
}

#[test]
fn closures_freeze_their_environment() {
    // x = 1; def f(): return x; x = 2; y = f();  -- y sees the snapshot.
    let f = defn("f", vec![], Some(Type::Int), vec![Stmt::ReturnExpn { expn: name("x") }]);
    let (r, ctx, _) = run(
        vec![
            assign("x", num(1)),
            f,
            assign("x", num(2)),
            assign("y", call("f", vec![])),
        ],
        vec![],
    );
    assert_eq!(r, Ok(()));
    assert_eq!(get_int(&ctx, "y"), 1);
    assert_eq!(get_int(&ctx, "x"), 2);
}

#[test]
fn chained_calls_apply_the_returned_function() {
    // def g(m): return m + 1; def f(): return g; x = f()(4);
    let g = defn(
        "g",
        vec![("m", Type::Int)],
        Some(Type::Int),
        vec![Stmt::ReturnExpn { expn: bin(Bop::AddOp(Add::Plus), name("m"), num(1)) }],
    );
    let f = defn("f", vec![], None, vec![Stmt::ReturnExpn { expn: name("g") }]);
    let chained = Expn::Apply {
        appl: Appl {
            left: Leaf::Name { ident: "f".to_string() },
            args: vec![ArgList { exps: vec![] }, ArgList { exps: vec![num(4)] }],
        },
    };
    let (r, ctx, _) = run(vec![g, f, assign("x", chained)], vec![]);
    assert_eq!(r, Ok(()));
    assert_eq!(get_int(&ctx, "x"), 5);
}

#[test]
fn calling_a_non_function_fails() {
    // x = 3; x(1);
    let (r, _, _) = run(
        vec![
            assign("x", num(3)),
            Stmt::FuncCall {
                appl: Appl {
                    left: Leaf::Name { ident: "x".to_string() },
                    args: vec![ArgList { exps: vec![num(1)] }],
                },
            },
        ],
        vec![],
    );
    assert_eq!(r, Err(ErrKind::ExpectedFunction));
}

#[test]
fn wrong_argument_count_fails() {
    let f = defn("f", vec![("a", Type::Int)], Some(Type::Int), vec![Stmt::ReturnExpn {
        expn: name("a"),
    }]);
    let (r, _, _) = run(vec![f, assign("x", call("f", vec![]))], vec![]);
    assert_eq!(r, Err(ErrKind::ArityMismatch));
}

#[test]
fn while_loop_accumulates() {
    // i = 0; s = 0; while i < 5: { s += i; i += 1; }
    let (r, ctx, _) = run(
        vec![
            assign("i", num(0)),
            assign("s", num(0)),
            Stmt::While {
                cond: bin(Bop::CompOp(Comp::Lt), name("i"), num(5)),
                nest: nest(vec![
                    Stmt::Updt { ident: "s".to_string(), op: Updt::Plus, expn: name("i") },
                    Stmt::Updt { ident: "i".to_string(), op: Updt::Plus, expn: num(1) },
                ]),
            },
        ],
        vec![],
    );
    assert_eq!(r, Ok(()));
    assert_eq!(get_int(&ctx, "s"), 10);
    assert_eq!(get_int(&ctx, "i"), 5);
}

#[test]
fn update_subtracts_too() {
    let (r, ctx, _) = run(
        vec![
            assign("x", num(10)),
            Stmt::Updt { ident: "x".to_string(), op: Updt::Minus, expn: num(3) },
        ],
        vec![],
    );
    assert_eq!(r, Ok(()));
    assert_eq!(get_int(&ctx, "x"), 7);
}

#[test]
fn update_of_undefined_variable_fails() {
    let (r, _, _) = run(
        vec![Stmt::Updt { ident: "x".to_string(), op: Updt::Plus, expn: num(1) }],
        vec![],
    );
    assert_eq!(r, Err(ErrKind::UndefinedVariable));
}

#[test]
fn return_inside_while_leaves_the_function() {
    // def f(): { while true: { return 7; } }
    let f = defn(
        "f",
        vec![],
        Some(Type::Int),
        vec![Stmt::While {
            cond: boolean(true),
            nest: nest(vec![Stmt::ReturnExpn { expn: num(7) }]),
        }],
    );
    let (r, ctx, _) = run(vec![f, assign("x", call("f", vec![]))], vec![]);
    assert_eq!(r, Ok(()));
    assert_eq!(get_int(&ctx, "x"), 7);
}

#[test]
fn bare_return_yields_unit() {
    let f = defn("f", vec![], None, vec![Stmt::Return]);
    let (r, ctx, _) = run(vec![f, assign("x", call("f", vec![]))], vec![]);
    assert_eq!(r, Ok(()));
    assert_eq!(ctx.get(&"x".to_string()), Some(Value::Unit));
}

#[test]
fn fallthrough_body_yields_unit() {
    let f = defn("f", vec![], None, vec![Stmt::Pass]);
    let (r, ctx, _) = run(vec![f, assign("x", call("f", vec![]))], vec![]);
    assert_eq!(r, Ok(()));
    assert_eq!(ctx.get(&"x".to_string()), Some(Value::Unit));
}

#[test]
fn statements_after_a_return_do_not_run() {
    let (r, ctx, _) = run(
        vec![Stmt::ReturnExpn { expn: num(1) }, assign("y", num(2))],
        vec![],
    );
    assert_eq!(r, Ok(()));
    assert_eq!(ctx.get(&"y".to_string()), None);
}

#[test]
fn print_writes_each_value_with_a_newline() {
    // print(str(1+2));  -- prints "3" then a newline.
    let (r, _, st) = run(
        vec![Stmt::Print { args: vec![str_cast(bin(Bop::AddOp(Add::Plus), num(1), num(2)))] }],
        vec![],
    );
    assert_eq!(r, Ok(()));
    assert_eq!(st.output, vec!["3\n".to_string()]);
}

#[test]
fn print_of_parsed_int_plus_one_prints_eight() {
    // print(int("7") + 1);  -- the evaluator renders the value itself.
    let e = bin(
        Bop::AddOp(Add::Plus),
        leaf(Leaf::IntCast { expn: Box::new(text("7")) }),
        num(1),
    );
    let (r, _, st) = run(vec![Stmt::Print { args: vec![e] }], vec![]);
    assert_eq!(r, Ok(()));
    assert_eq!(st.output, vec!["8\n".to_string()]);
}

#[test]
fn print_arguments_interleave_with_their_effects() {
    // print(input("a"), input("b")); -- first line is printed before
    // the second prompt is emitted.
    let p1 = leaf(Leaf::Inpt { prompt: Box::new(text("a")) });
    let p2 = leaf(Leaf::Inpt { prompt: Box::new(text("b")) });
    let (r, _, st) = run(vec![Stmt::Print { args: vec![p1, p2] }], vec!["one", "two"]);
    assert_eq!(r, Ok(()));
    assert_eq!(
        st.output,
        vec![
            "a".to_string(),
            "one\n".to_string(),
            "b".to_string(),
            "two\n".to_string(),
        ],
    );
}

#[test]
fn declarations_bind_like_assignments_at_runtime() {
    let (r, ctx, _) = run(
        vec![Stmt::Decl {
            typed_ident: TypedIdent { ident: "x".to_string(), ty: Type::Int },
            expn: num(4),
        }],
        vec![],
    );
    assert_eq!(r, Ok(()));
    assert_eq!(get_int(&ctx, "x"), 4);
}

#[test]
fn try_call_with_calls_a_function_value() {
    let f = defn("inc", vec![("a", Type::Int)], Some(Type::Int), vec![Stmt::ReturnExpn {
        expn: bin(Bop::AddOp(Add::Plus), name("a"), num(1)),
    }]);
    let (r, ctx, _) = run(vec![f], vec![]);
    assert_eq!(r, Ok(()));
    let func = ctx.get(&"inc".to_string()).expect("inc must be bound");
    let mut st = RunState::new(vec![]);
    let out = func.try_call_with(vec![Value::Int(41)], &mut st, 1000);
    assert_eq!(out, Ok(Some(Value::Int(42))));
    let bad = Value::Int(3).try_call_with(vec![], &mut st, 1000);
    assert_eq!(bad, Err(ErrKind::ExpectedFunction));
}

#[test]
fn expect_helpers_report_type_errors() {
    assert_eq!(Value::Int(3).expect_int(), Ok(3));
    assert_eq!(Value::Bool(true).expect_bool(), Ok(true));
    assert_eq!(Value::Str("a".to_string()).expect_int(), Err(ErrKind::ExpectedInt));
    assert_eq!(Value::Int(1).expect_bool(), Err(ErrKind::ExpectedBool));
    assert!(Value::Unit.expect_func().is_err());
}

#[test]
fn out_of_fuel_surfaces_as_an_error() {
    // An endless loop cannot run forever against a finite budget.
    let (r, _, _) = run(
        vec![Stmt::While { cond: boolean(true), nest: nest(vec![Stmt::Pass]) }],
        vec![],
    );
    assert_eq!(r, Err(ErrKind::OutOfFuel));
}
