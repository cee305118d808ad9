//! Evaluation of expressions: arithmetic, associativity, conversions,
//! and the runtime errors they can raise.
use slpy::ast::{Add, Appl, ArgList, Bop, Comp, Expn, Leaf, Mult, Not};
use slpy::errors::ErrKind;
use slpy::value::{Context, RunState, Value};

fn leaf(l: Leaf) -> Expn {
    Expn::Apply { appl: Appl { left: l, args: vec![] } }
}

fn num(n: i64) -> Expn {
    leaf(Leaf::Nmbr { num: n })
}

fn text(s: &str) -> Expn {
    leaf(Leaf::Strg { text: s.to_string() })
}

fn boolean(b: bool) -> Expn {
    leaf(Leaf::BoolLit { flag: b })
}

fn bin(op: Bop, l: Expn, r: Expn) -> Expn {
    Expn::Binary { op, lhs: Box::new(l), rhs: Box::new(r) }
}

fn minus(l: Expn, r: Expn) -> Expn {
    bin(Bop::AddOp(Add::Minus), l, r)
}

fn int_cast(e: Expn) -> Expn {
    leaf(Leaf::IntCast { expn: Box::new(e) })
}

fn str_cast(e: Expn) -> Expn {
    leaf(Leaf::StrCast { expn: Box::new(e) })
}

fn input(prompt: &str) -> Expn {
    leaf(Leaf::Inpt { prompt: Box::new(text(prompt)) })
}

fn eval_with(e: &Expn, input: Vec<&str>) -> (Result<Value, ErrKind>, RunState) {
    let ctx = Context::new();
    let mut st = RunState::new(input.iter().map(|s| s.to_string()).collect());
    let r = e.eval(&ctx, &mut st, 1_000_000);
    (r, st)
}

fn eval(e: &Expn) -> Result<Value, ErrKind> {
    eval_with(e, vec![]).0
}

fn expect_int(r: Result<Value, ErrKind>) -> i64 {
    match r {
        Ok(Value::Int(n)) => n,
        other => panic!("expected an integer, got {:?}", other),
    }
}

#[test]
fn left_assoc_subtraction_evaluates_left_first() {
    // 10 - 3 - 2 parses left-leaning: (10 - 3) - 2.
    let e = minus(minus(num(10), num(3)), num(2));
    assert_eq!(expect_int(eval(&e)), 5);
}

#[test]
fn right_leaning_subtraction_would_differ() {
    // The contrasting shape 10 - (3 - 2): the tree alone decides.
    let e = minus(num(10), minus(num(3), num(2)));
    assert_eq!(expect_int(eval(&e)), 9);
}

#[test]
fn division_by_zero_fails_at_evaluation() {
    let e = bin(Bop::MultOp(Mult::Div), num(5), num(0));
    assert_eq!(eval(&e), Err(ErrKind::DivideByZero));
}

#[test]
fn modulo_by_zero_fails_at_evaluation() {
    let e = bin(Bop::MultOp(Mult::Mod), num(5), num(0));
    assert_eq!(eval(&e), Err(ErrKind::ModByZero));
}

#[test]
fn negative_exponent_fails_at_evaluation() {
    let e = bin(Bop::ExptOp(slpy::ast::Expt), num(2), num(-1));
    assert_eq!(eval(&e), Err(ErrKind::NegativePower));
}

#[test]
fn exponentiation_values() {
    let e = bin(Bop::ExptOp(slpy::ast::Expt), num(2), num(10));
    assert_eq!(expect_int(eval(&e)), 1024);
    let e = bin(Bop::ExptOp(slpy::ast::Expt), num(-1), num(5));
    assert_eq!(expect_int(eval(&e)), -1);
    let e = bin(Bop::ExptOp(slpy::ast::Expt), num(0), num(0));
    assert_eq!(expect_int(eval(&e)), 1);
    let e = bin(Bop::ExptOp(slpy::ast::Expt), num(2), num(63));
    assert_eq!(eval(&e), Err(ErrKind::IntOverflow));
    let e = bin(Bop::ExptOp(slpy::ast::Expt), num(-2), num(63));
    assert_eq!(expect_int(eval(&e)), i64::MIN);
}

#[test]
fn addition_overflow_is_an_error() {
    let e = bin(Bop::AddOp(Add::Plus), num(i64::MAX), num(1));
    assert_eq!(eval(&e), Err(ErrKind::IntOverflow));
}

#[test]
fn division_truncates_toward_zero() {
    let div = |a: i64, b: i64| bin(Bop::MultOp(Mult::Div), num(a), num(b));
    let rem = |a: i64, b: i64| bin(Bop::MultOp(Mult::Mod), num(a), num(b));
    assert_eq!(expect_int(eval(&div(-7, 2))), -3);
    assert_eq!(expect_int(eval(&div(7, -2))), -3);
    assert_eq!(expect_int(eval(&rem(-7, 2))), -1);
    assert_eq!(expect_int(eval(&rem(7, -2))), 1);
    assert_eq!(eval(&div(i64::MIN, -1)), Err(ErrKind::IntOverflow));
    assert_eq!(eval(&rem(i64::MIN, -1)), Err(ErrKind::IntOverflow));
}

#[test]
fn comparisons_yield_booleans() {
    let e = bin(Bop::CompOp(Comp::Lt), num(1), num(2));
    match eval(&e) {
        Ok(Value::Bool(true)) => {},
        other => panic!("expected true, got {:?}", other),
    }
    let e = bin(Bop::CompOp(Comp::Eq), num(3), num(3));
    match eval(&e) {
        Ok(Value::Bool(true)) => {},
        other => panic!("expected true, got {:?}", other),
    }
}

#[test]
fn str_cast_renders_values() {
    match eval(&str_cast(bin(Bop::AddOp(Add::Plus), num(1), num(2)))) {
        Ok(Value::Str(s)) => assert_eq!(s, "3"),
        other => panic!("expected text, got {:?}", other),
    }
    match eval(&str_cast(leaf(Leaf::Unit))) {
        Ok(Value::Str(s)) => assert_eq!(s, "None"),
        other => panic!("expected text, got {:?}", other),
    }
    match eval(&str_cast(boolean(true))) {
        Ok(Value::Str(s)) => assert_eq!(s, "true"),
        other => panic!("expected text, got {:?}", other),
    }
    match eval(&str_cast(num(-42))) {
        Ok(Value::Str(s)) => assert_eq!(s, "-42"),
        other => panic!("expected text, got {:?}", other),
    }
}

#[test]
fn int_cast_parses_and_converts() {
    assert_eq!(expect_int(eval(&int_cast(text("7")))), 7);
    assert_eq!(expect_int(eval(&int_cast(text("+5")))), 5);
    assert_eq!(expect_int(eval(&int_cast(text("-12")))), -12);
    assert_eq!(expect_int(eval(&int_cast(boolean(true)))), 1);
    assert_eq!(expect_int(eval(&int_cast(boolean(false)))), 0);
    assert_eq!(expect_int(eval(&int_cast(num(9)))), 9);
}

#[test]
fn int_cast_failures() {
    assert_eq!(eval(&int_cast(text("seven"))), Err(ErrKind::IntParseFailure));
    assert_eq!(eval(&int_cast(text(""))), Err(ErrKind::IntParseFailure));
    assert_eq!(eval(&int_cast(text("+"))), Err(ErrKind::IntParseFailure));
    assert_eq!(eval(&int_cast(text("1 2"))), Err(ErrKind::IntParseFailure));
    assert_eq!(eval(&int_cast(leaf(Leaf::Unit))), Err(ErrKind::IntParseFailure));
}

#[test]
fn int_cast_range_limits() {
    assert_eq!(
        expect_int(eval(&int_cast(text("-9223372036854775808")))),
        i64::MIN
    );
    assert_eq!(
        expect_int(eval(&int_cast(text("9223372036854775807")))),
        i64::MAX
    );
    assert_eq!(
        eval(&int_cast(text("9223372036854775808"))),
        Err(ErrKind::IntParseFailure)
    );
    assert_eq!(
        expect_int(eval(&int_cast(text("00000000000000000000007")))),
        7
    );
}

#[test]
fn int_of_string_plus_one_is_eight() {
    let e = bin(Bop::AddOp(Add::Plus), int_cast(text("7")), num(1));
    assert_eq!(expect_int(eval(&e)), 8);
}

#[test]
fn undefined_variable_fails() {
    let e = leaf(Leaf::Name { ident: "x".to_string() });
    assert_eq!(eval(&e), Err(ErrKind::UndefinedVariable));
}

#[test]
fn right_assoc_evaluates_right_operand_first() {
    // Two prompts joined by a right-associative comparison: the right
    // prompt must be emitted first and consume the first input line.
    let e = bin(
        Bop::CompOp(Comp::Lt),
        int_cast(input("left? ")),
        int_cast(input("right? ")),
    );
    let (r, st) = eval_with(&e, vec!["1", "2"]);
    assert_eq!(st.output, vec!["right? ".to_string(), "left? ".to_string()]);
    // The right operand read "1", the left read "2": 2 < 1 is false.
    match r {
        Ok(Value::Bool(false)) => {},
        other => panic!("expected false, got {:?}", other),
    }
}

#[test]
fn conjunction_is_eager_not_short_circuit() {
    // `or` evaluates its right operand even when the left is true:
    // the prompt is emitted before the type error surfaces.
    let e = bin(Bop::OrOp(slpy::ast::Or), boolean(true), input("p"));
    let (r, st) = eval_with(&e, vec!["x"]);
    assert_eq!(r, Err(ErrKind::ExpectedBool));
    assert_eq!(st.output, vec!["p".to_string()]);
}

#[test]
fn arithmetic_on_non_integers_fails() {
    let e = bin(Bop::AddOp(Add::Plus), num(1), boolean(true));
    assert_eq!(eval(&e), Err(ErrKind::ExpectedInt));
    let e = bin(Bop::AddOp(Add::Plus), text("a"), num(1));
    assert_eq!(eval(&e), Err(ErrKind::ExpectedInt));
}

#[test]
fn boolean_negation() {
    let e = Expn::Unary { op: Not, child: Box::new(boolean(true)) };
    match eval(&e) {
        Ok(Value::Bool(false)) => {},
        other => panic!("expected false, got {:?}", other),
    }
    let e = Expn::Unary { op: Not, child: Box::new(num(1)) };
    assert_eq!(eval(&e), Err(ErrKind::ExpectedBool));
}

#[test]
fn parenthesized_inherits_value() {
    let e = leaf(Leaf::Paren { expn: Box::new(minus(num(4), num(1))) });
    assert_eq!(expect_int(eval(&e)), 3);
}

#[test]
fn input_exhausted_is_an_error_after_the_prompt() {
    let (r, st) = eval_with(&input("name? "), vec![]);
    assert_eq!(r, Err(ErrKind::InputExhausted));
    assert_eq!(st.output, vec!["name? ".to_string()]);
}

#[test]
fn error_messages_are_stable() {
    assert_eq!(ErrKind::DivideByZero.message(), "cannot divide by zero");
    assert_eq!(ErrKind::ExpectedFunction.message(), "type error: expected function");
    assert_eq!(ErrKind::UndefinedVariable.message(), "undefined variable");
}

#[test]
fn empty_application_chain_is_its_leaf() {
    // A leaf followed by no argument lists is just the leaf.
    let e = Expn::Apply {
        appl: Appl { left: Leaf::Nmbr { num: 11 }, args: Vec::<ArgList>::new() },
    };
    assert_eq!(expect_int(eval(&e)), 11);
}
