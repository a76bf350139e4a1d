use lox_expr::ast_printer::AstPrinter;
use lox_expr::expr::Expression;
use lox_expr::number::Decimal;
use lox_expr::token::{Literal, Token, TokenType};

fn tok(ttype: TokenType, lexeme: &str, line: usize, col: usize) -> Token {
    Token { ttype, lexeme: lexeme.into(), literal: None, line, col }
}

fn num(units: i64, scale: u32) -> Expression {
    Expression::LiteralExpression(Literal::Number(Decimal::new(units, scale).unwrap()))
}

fn print(e: Expression) -> String {
    AstPrinter::default().print(e).unwrap()
}

#[test]
fn ast_test1() {
    //-123 * (45.67)   -->>    (* (- 123) (group 45.67))
    let binary: Expression = Expression::Binary(
        Box::new(Expression::Unary(
            Token { ttype: TokenType::Minus, lexeme: "-".into(), literal: None, line: 1, col: 1 },
            Box::new(Expression::LiteralExpression(Literal::Number(Decimal::from_integer(123)))),
        )),
        Token { ttype: TokenType::Star, lexeme: "*".into(), literal: None, line: 1, col: 6 },
        Box::new(Expression::Grouping(Box::new(Expression::LiteralExpression(Literal::Number(
            Decimal::new(4567, 2).unwrap(),
        ))))),
    );
    let result = AstPrinter::default().print(binary).unwrap();
    assert_eq!(result, "((- 123) * (group 45.67))");
}

#[test]
fn ast_test2() {
    //-11.22 == (11.22)   -->>     (== (- 11.22) (group 11.22))
    let binary: Expression = Expression::Binary(
        Box::new(Expression::Unary(
            Token { ttype: TokenType::Minus, lexeme: "-".into(), literal: None, line: 2, col: 1 },
            Box::new(Expression::LiteralExpression(Literal::Number(
                Decimal::new(1122, 2).unwrap(),
            ))),
        )),
        Token { ttype: TokenType::EqualEqual, lexeme: "==".into(), literal: None, line: 2, col: 6 },
        Box::new(Expression::Grouping(Box::new(Expression::LiteralExpression(Literal::Number(
            Decimal::new(1122, 2).unwrap(),
        ))))),
    );
    let result = AstPrinter::default().print(binary).unwrap();
    assert_eq!(result, "((- 11.22) == (group 11.22))");
}

#[test]
fn prints_assignment() {
    let e = Expression::Assign(tok(TokenType::Identifier, "x", 1, 1), Box::new(num(5, 0)));
    assert_eq!(print(e), "x = 5");
}

#[test]
fn prints_logical_and_unary_bang() {
    let e = Expression::Logical(
        Box::new(Expression::Unary(
            tok(TokenType::Bang, "!", 1, 1),
            Box::new(Expression::LiteralExpression(Literal::Nil)),
        )),
        tok(TokenType::Or, "or", 1, 6),
        Box::new(Expression::LiteralExpression(Literal::Bool(false))),
    );
    assert_eq!(print(e), "((! nil) or false)");
}

#[test]
fn prints_literal_kinds() {
    assert_eq!(print(Expression::LiteralExpression(Literal::Bool(true))), "true");
    assert_eq!(print(Expression::LiteralExpression(Literal::Str("hi".into()))), "hi");
    assert_eq!(print(Expression::LiteralExpression(Literal::Identifier("abc".into()))), "abc");
}

#[test]
fn numbers_render_in_shortest_form() {
    assert_eq!(print(num(1230, 1)), "123");
    assert_eq!(print(num(150, 2)), "1.5");
    assert_eq!(print(num(5, 2)), "0.05");
    assert_eq!(print(num(-5, 1)), "-0.5");
    assert_eq!(print(num(0, 3)), "0");
    assert_eq!(print(num(i64::MIN, 0)), "-9223372036854775808");
    assert_eq!(print(num(1, 18)), "0.000000000000000001");
}

#[test]
fn scale_beyond_limit_is_refused() {
    assert!(Decimal::new(1, 19).is_none());
    assert!(Decimal::new(1, 18).is_some());
}

#[test]
fn call_and_variable_render_empty() {
    let call = Expression::Call(
        Box::new(Expression::Variable(tok(TokenType::Identifier, "f", 1, 1))),
        vec![num(1, 0)],
    );
    assert_eq!(print(call), "");
    assert_eq!(print(Expression::Variable(tok(TokenType::Identifier, "x", 1, 1))), "");
}

#[test]
fn printing_is_deterministic() {
    let build = || {
        Expression::Binary(
            Box::new(num(1, 0)),
            tok(TokenType::Plus, "+", 1, 3),
            Box::new(Expression::Grouping(Box::new(num(25, 1)))),
        )
    };
    let a = print(build());
    let b = print(build());
    assert_eq!(a, b);
    assert_eq!(a, "(1 + (group 2.5))");
}
