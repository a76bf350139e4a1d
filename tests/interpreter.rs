use lox_expr::error::ErrorType;
use lox_expr::expr::Expression;
use lox_expr::interpreter::Interpreter;
use lox_expr::number::Decimal;
use lox_expr::token::{Literal, Token, TokenType};
use lox_expr::value::{Rational, Value};

fn tok(ttype: TokenType, lexeme: &str) -> Token {
    Token { ttype, lexeme: lexeme.into(), literal: None, line: 1, col: 1 }
}

fn tok_at(ttype: TokenType, lexeme: &str, line: usize, col: usize) -> Token {
    Token { ttype, lexeme: lexeme.into(), literal: None, line, col }
}

fn lit(l: Literal) -> Expression {
    Expression::LiteralExpression(l)
}

fn whole(n: i64) -> Expression {
    lit(Literal::Number(Decimal::from_integer(n)))
}

fn string(s: &str) -> Expression {
    lit(Literal::Str(s.into()))
}

fn var(name: &str) -> Expression {
    Expression::Variable(tok(TokenType::Identifier, name))
}

fn binary(l: Expression, ttype: TokenType, lexeme: &str, r: Expression) -> Expression {
    Expression::Binary(Box::new(l), tok(ttype, lexeme), Box::new(r))
}

fn logical(l: Expression, ttype: TokenType, lexeme: &str, r: Expression) -> Expression {
    Expression::Logical(Box::new(l), tok(ttype, lexeme), Box::new(r))
}

fn assign(name: &str, value: Expression) -> Expression {
    Expression::Assign(tok(TokenType::Identifier, name), Box::new(value))
}

fn call(callee: Expression, args: Vec<Expression>) -> Expression {
    Expression::Call(Box::new(callee), args)
}

fn number_parts(v: &Value) -> (i64, i64) {
    match v {
        Value::Number(q) => (q.numerator(), q.denominator()),
        other => panic!("not a number: {:?}", other),
    }
}

fn as_bool(v: &Value) -> bool {
    match v {
        Value::Bool(b) => *b,
        other => panic!("not a boolean: {:?}", other),
    }
}

fn eval(e: &Expression) -> Result<Value, ErrorType> {
    Interpreter::new(16).evaluate(e).map_err(|err| err.kind)
}

#[test]
fn arithmetic_precedence_tree() {
    // 1 + 2 * 3
    let e = binary(whole(1), TokenType::Plus, "+", binary(whole(2), TokenType::Star, "*", whole(3)));
    let v = eval(&e).unwrap();
    assert_eq!(number_parts(&v), (7, 1));
}

#[test]
fn string_concatenation() {
    let e = binary(string("a"), TokenType::Plus, "+", string("b"));
    match eval(&e).unwrap() {
        Value::Str(s) => assert_eq!(s, "ab"),
        other => panic!("unexpected {:?}", other),
    }
}

#[test]
fn bang_nil_is_true() {
    let e = Expression::Unary(tok(TokenType::Bang, "!"), Box::new(lit(Literal::Nil)));
    assert!(as_bool(&eval(&e).unwrap()));
}

#[test]
fn assignment_to_unbound_name_fails() {
    let e = assign("x", whole(5));
    assert!(matches!(eval(&e), Err(ErrorType::UndefinedName)));
}

#[test]
fn assignment_to_bound_name_updates_it() {
    let mut it = Interpreter::new(16);
    it.define("x".into(), Value::Nil);
    let v = it.evaluate(&assign("x", whole(5))).unwrap();
    assert_eq!(number_parts(&v), (5, 1));
    assert_eq!(number_parts(&it.get(&"x".to_string()).unwrap()), (5, 1));
}

#[test]
fn call_with_wrong_arity_fails() {
    let mut it = Interpreter::new(16);
    it.define_function(
        "f".into(),
        vec!["a".into(), "b".into(), "c".into()],
        var("a"),
    );
    let e = call(var("f"), vec![whole(1), whole(2)]);
    assert!(matches!(it.evaluate(&e).map_err(|e| e.kind), Err(ErrorType::ArityMismatch)));
}

#[test]
fn call_binds_parameters() {
    let mut it = Interpreter::new(16);
    it.define_function(
        "add".into(),
        vec!["a".into(), "b".into()],
        binary(var("a"), TokenType::Plus, "+", var("b")),
    );
    let e = call(var("add"), vec![whole(1), whole(2)]);
    assert_eq!(number_parts(&it.evaluate(&e).unwrap()), (3, 1));
}

#[test]
fn calling_a_non_function_fails() {
    let e = call(whole(1), vec![]);
    assert!(matches!(eval(&e), Err(ErrorType::NotCallable)));
}

#[test]
fn unbounded_self_application_hits_depth_limit() {
    let mut it = Interpreter::new(8);
    it.define_function("g".into(), vec!["h".into()], call(var("h"), vec![var("h")]));
    let e = call(var("g"), vec![var("g")]);
    assert!(matches!(it.evaluate(&e).map_err(|e| e.kind), Err(ErrorType::CallDepthExceeded)));
}

#[test]
fn or_with_truthy_left_never_evaluates_right() {
    let mut it = Interpreter::new(16);
    it.define("y".into(), Value::Nil);
    // true or (y = 1): y keeps nil
    let e = logical(lit(Literal::Bool(true)), TokenType::Or, "or", assign("y", whole(1)));
    assert!(as_bool(&it.evaluate(&e).unwrap()));
    assert!(matches!(it.get(&"y".to_string()), Some(Value::Nil)));
    // 0 or (z = 1): z is unbound, yet no error arises
    let e = logical(whole(0), TokenType::Or, "or", assign("z", whole(1)));
    assert_eq!(number_parts(&it.evaluate(&e).unwrap()), (0, 1));
}

#[test]
fn or_with_falsy_left_evaluates_right() {
    let mut it = Interpreter::new(16);
    it.define("y".into(), Value::Nil);
    let e = logical(lit(Literal::Nil), TokenType::Or, "or", assign("y", whole(1)));
    assert_eq!(number_parts(&it.evaluate(&e).unwrap()), (1, 1));
    assert_eq!(number_parts(&it.get(&"y".to_string()).unwrap()), (1, 1));
}

#[test]
fn and_with_falsy_left_returns_left() {
    let e = logical(lit(Literal::Bool(false)), TokenType::And, "and", assign("z", whole(1)));
    assert!(!as_bool(&eval(&e).unwrap()));
}

#[test]
fn equality_is_reflexive_and_kind_aware() {
    let eq = |a: Expression, b: Expression| {
        as_bool(&eval(&binary(a, TokenType::EqualEqual, "==", b)).unwrap())
    };
    assert!(eq(whole(1), whole(1)));
    assert!(!eq(whole(1), string("1")));
    assert!(eq(lit(Literal::Nil), lit(Literal::Nil)));
    assert!(!eq(lit(Literal::Nil), lit(Literal::Bool(false))));
    assert!(eq(lit(Literal::Number(Decimal::new(50, 2).unwrap())), lit(Literal::Number(Decimal::new(5, 1).unwrap()))));
    let ne = binary(whole(1), TokenType::BangEqual, "!=", string("1"));
    assert!(as_bool(&eval(&ne).unwrap()));
}

#[test]
fn truthiness_of_literals() {
    let not = |e: Expression| {
        as_bool(&eval(&Expression::Unary(tok(TokenType::Bang, "!"), Box::new(e))).unwrap())
    };
    assert!(not(lit(Literal::Nil)));
    assert!(not(lit(Literal::Bool(false))));
    assert!(!not(whole(0)));
    assert!(!not(string("")));
    assert!(!not(lit(Literal::Bool(true))));
}

#[test]
fn bool_plus_number_is_a_type_error() {
    let e = binary(lit(Literal::Bool(true)), TokenType::Plus, "+", whole(1));
    assert!(matches!(eval(&e), Err(ErrorType::TypeError)));
    // inside a larger tree, placed at the offending operator
    let inner = Expression::Binary(
        Box::new(lit(Literal::Bool(true))),
        tok_at(TokenType::Plus, "+", 3, 9),
        Box::new(whole(1)),
    );
    let e = binary(binary(whole(1), TokenType::Plus, "+", whole(2)), TokenType::Star, "*", inner);
    let err = Interpreter::new(16).evaluate(&e).unwrap_err();
    assert_eq!(err.kind, ErrorType::TypeError);
    assert_eq!((err.line, err.col), (3, 9));
}

#[test]
fn comparison_needs_numbers() {
    let lt = binary(whole(1), TokenType::Less, "<", whole(2));
    assert!(as_bool(&eval(&lt).unwrap()));
    let ge = binary(lit(Literal::Number(Decimal::new(-15, 1).unwrap())), TokenType::GreaterEqual, ">=", whole(-1));
    assert!(!as_bool(&eval(&ge).unwrap()));
    let bad = binary(string("a"), TokenType::Less, "<", string("b"));
    assert!(matches!(eval(&bad), Err(ErrorType::TypeError)));
}

#[test]
fn division_is_exact_and_by_zero_fails() {
    let e = binary(whole(1), TokenType::Slash, "/", whole(-4));
    assert_eq!(number_parts(&eval(&e).unwrap()), (-1, 4));
    let z = binary(whole(1), TokenType::Slash, "/", whole(0));
    assert!(matches!(eval(&z), Err(ErrorType::DivisionByZero)));
}

#[test]
fn subtraction_and_decimals() {
    // 0.1 + 0.2 == 0.3
    let tenth = |u: i64| lit(Literal::Number(Decimal::new(u, 1).unwrap()));
    let sum = binary(tenth(1), TokenType::Plus, "+", tenth(2));
    let e = binary(sum, TokenType::EqualEqual, "==", tenth(3));
    assert!(as_bool(&eval(&e).unwrap()));
    let d = binary(whole(3), TokenType::Minus, "-", whole(5));
    assert_eq!(number_parts(&eval(&d).unwrap()), (-2, 1));
}

#[test]
fn overflow_is_reported() {
    let e = binary(whole(i64::MAX), TokenType::Plus, "+", whole(1));
    assert!(matches!(eval(&e), Err(ErrorType::NumericOverflow)));
    let n = Expression::Unary(tok(TokenType::Minus, "-"), Box::new(whole(i64::MIN)));
    assert!(matches!(eval(&n), Err(ErrorType::NumericOverflow)));
}

#[test]
fn negation_requires_a_number() {
    let e = Expression::Unary(tok(TokenType::Minus, "-"), Box::new(string("x")));
    assert!(matches!(eval(&e), Err(ErrorType::TypeError)));
    let ok = Expression::Unary(tok(TokenType::Minus, "-"), Box::new(whole(4)));
    assert_eq!(number_parts(&eval(&ok).unwrap()), (-4, 1));
}

#[test]
fn malformed_operators_are_rejected() {
    let u = Expression::Unary(tok(TokenType::Plus, "+"), Box::new(whole(1)));
    assert!(matches!(eval(&u), Err(ErrorType::MalformedTree)));
    let l = logical(whole(1), TokenType::Plus, "+", whole(2));
    assert!(matches!(eval(&l), Err(ErrorType::MalformedTree)));
    let b = binary(whole(1), TokenType::Comma, ",", whole(2));
    assert!(matches!(eval(&b), Err(ErrorType::MalformedTree)));
    let v = Expression::Variable(tok(TokenType::Number, "x"));
    assert!(matches!(eval(&v), Err(ErrorType::MalformedTree)));
}

#[test]
fn variables_are_looked_up_with_shadowing() {
    let mut it = Interpreter::new(16);
    assert!(matches!(it.evaluate(&var("x")).map_err(|e| e.kind), Err(ErrorType::UndefinedName)));
    it.define("x".into(), Value::Number(Rational::from_integer(1)));
    it.define("x".into(), Value::Number(Rational::from_integer(2)));
    assert_eq!(number_parts(&it.evaluate(&var("x")).unwrap()), (2, 1));
}

#[test]
fn grouping_and_literals_are_transparent() {
    let e = Expression::Grouping(Box::new(lit(Literal::Identifier("id".into()))));
    match eval(&e).unwrap() {
        Value::Identifier(s) => assert_eq!(s, "id"),
        other => panic!("unexpected {:?}", other),
    }
    let e = Expression::Grouping(Box::new(lit(Literal::Number(Decimal::new(25, 1).unwrap()))));
    assert_eq!(number_parts(&eval(&e).unwrap()), (25, 10));
}

#[test]
fn arguments_evaluate_left_to_right() {
    let mut it = Interpreter::new(16);
    it.define("x".into(), Value::Number(Rational::from_integer(0)));
    it.define_function("second".into(), vec!["a".into(), "b".into()], var("b"));
    // second(x = 1, x) gives 1: the assignment ran first
    let e = call(var("second"), vec![assign("x", whole(1)), var("x")]);
    assert_eq!(number_parts(&it.evaluate(&e).unwrap()), (1, 1));
}

#[test]
fn results_are_kept_in_lowest_terms() {
    let tenth = || lit(Literal::Number(Decimal::new(1, 1).unwrap()));
    let mut e = tenth();
    for _ in 0..29 {
        e = binary(e, TokenType::Plus, "+", tenth());
    }
    assert_eq!(number_parts(&eval(&e).unwrap()), (3, 1));
    let half_times_four = binary(
        lit(Literal::Number(Decimal::new(5, 1).unwrap())),
        TokenType::Star,
        "*",
        whole(4),
    );
    assert_eq!(number_parts(&eval(&half_times_four).unwrap()), (2, 1));
    let neg = Expression::Unary(
        tok(TokenType::Minus, "-"),
        Box::new(lit(Literal::Number(Decimal::new(25, 1).unwrap()))),
    );
    assert_eq!(number_parts(&eval(&neg).unwrap()), (-5, 2));
}

#[test]
fn dividing_the_smallest_integer_by_minus_one_overflows() {
    let e = binary(whole(i64::MIN), TokenType::Slash, "/", whole(-1));
    assert!(matches!(eval(&e), Err(ErrorType::NumericOverflow)));
    let ok = binary(whole(i64::MIN), TokenType::Slash, "/", whole(1));
    assert_eq!(number_parts(&eval(&ok).unwrap()), (i64::MIN, 1));
}
