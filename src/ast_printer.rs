use vstd::prelude::*;

use crate::error::ErrorType;
use crate::expr::{literal_text, Expression};
use crate::token::{Literal, Token};

verus! {

/// `"(" + a + " " + op + " " + b + ")"`.
pub open spec fn parenthesize(a: Seq<char>, op: Seq<char>, b: Seq<char>) -> Seq<char> {
    seq!['('] + a + seq![' '] + op + seq![' '] + b + seq![')']
}

/// The fully parenthesized text of an expression. Calls and variables render
/// as the empty text.
pub open spec fn render(e: Expression) -> Seq<char>
    decreases e,
{
    match e {
        Expression::Assign(name, value) => name.lexeme@ + seq![' ', '=', ' '] + render(*value),
        Expression::Binary(l, op, r) => parenthesize(render(*l), op.lexeme@, render(*r)),
        Expression::Logical(l, op, r) => parenthesize(render(*l), op.lexeme@, render(*r)),
        Expression::Grouping(inner) => seq!['(', 'g', 'r', 'o', 'u', 'p', ' '] + render(*inner)
            + seq![')'],
        Expression::Unary(op, operand) => seq!['('] + op.lexeme@ + seq![' '] + render(*operand)
            + seq![')'],
        Expression::LiteralExpression(l) => literal_text(l),
        Expression::Call(_, _) => Seq::empty(),
        Expression::Variable(_) => Seq::empty(),
    }
}

/// Renders expression trees as text, for debugging and tests.
#[derive(Default)]
pub struct AstPrinter {}

impl AstPrinter {
    /// The text of `expression`; printing never fails.
    pub fn print(&mut self, expression: Expression) -> (r: Result<String, ErrorType>)
        ensures
            r matches Ok(s) && s@ == render(expression),
    {
        self.evaluate(&expression)
    }

    /// Dispatches on the node's variant to the operation for it.
    pub fn evaluate(&mut self, e: &Expression) -> (r: Result<String, ErrorType>)
        ensures
            r matches Ok(s) && s@ == render(*e),
        decreases *e, 3nat,
    {
        match e {
            Expression::Assign(name, value) => self.eval_assign(name, value),
            Expression::Binary(l, op, r) => self.eval_binary(l, op, r),
            Expression::Grouping(inner) => self.eval_grouping(inner),
            Expression::LiteralExpression(l) => self.eval_literal(l),
            Expression::Logical(l, op, r) => self.eval_logical(l, op, r),
            Expression::Unary(op, operand) => self.eval_unary(op, operand),
            Expression::Call(callee, args) => self.eval_call(callee, args),
            Expression::Variable(name) => self.eval_variable(name),
        }
    }

    fn text_of(&mut self, e: &Expression) -> (r: String)
        ensures
            r@ == render(*e),
        decreases *e, 4nat,
    {
        match self.evaluate(e) {
            Ok(s) => s,
            Err(_) => String::new(),
        }
    }

    pub fn eval_assign(&mut self, name: &Token, value: &Expression) -> (r: Result<String, ErrorType>)
        ensures
            r matches Ok(s) && s@ == render(Expression::Assign(*name, Box::new(*value))),
        decreases Expression::Assign(*name, Box::new(*value)), 2nat,
    {
        let v = self.text_of(value);
        let mut out = name.lexeme.clone();
        out.append(" = ");
        out.append(v.as_str());
        proof {
            reveal_strlit(" = ");
        }
        assert(out@ =~= render(Expression::Assign(*name, Box::new(*value))));
        Ok(out)
    }

    fn parenthesized(left: &String, operator: &Token, right: &String) -> (r: String)
        ensures
            r@ == parenthesize(left@, operator.lexeme@, right@),
    {
        let mut out = String::from_str("(");
        out.append(left.as_str());
        out.append(" ");
        out.append(operator.lexeme.as_str());
        out.append(" ");
        out.append(right.as_str());
        out.append(")");
        proof {
            reveal_strlit("(");
            reveal_strlit(" ");
            reveal_strlit(")");
        }
        assert(out@ =~= parenthesize(left@, operator.lexeme@, right@));
        out
    }

    pub fn eval_binary(&mut self, left: &Expression, operator: &Token, right: &Expression) -> (r:
        Result<String, ErrorType>)
        ensures
            r matches Ok(s) && s@ == render(
                Expression::Binary(Box::new(*left), *operator, Box::new(*right)),
            ),
        decreases Expression::Binary(Box::new(*left), *operator, Box::new(*right)), 2nat,
    {
        proof {
            let e = Expression::Binary(Box::new(*left), *operator, Box::new(*right));
            assert(decreases_to!(e => e->Binary_0));
            assert(decreases_to!(e => e->Binary_2));
        }
        let l = self.text_of(left);
        let rt = self.text_of(right);
        Ok(Self::parenthesized(&l, operator, &rt))
    }

    pub fn eval_grouping(&mut self, expr: &Expression) -> (r: Result<String, ErrorType>)
        ensures
            r matches Ok(s) && s@ == render(Expression::Grouping(Box::new(*expr))),
        decreases Expression::Grouping(Box::new(*expr)), 2nat,
    {
        let inner = self.text_of(expr);
        let mut out = String::from_str("(group ");
        out.append(inner.as_str());
        out.append(")");
        proof {
            reveal_strlit("(group ");
            reveal_strlit(")");
        }
        assert(out@ =~= render(Expression::Grouping(Box::new(*expr))));
        Ok(out)
    }

    pub fn eval_literal(&mut self, literal: &Literal) -> (r: Result<String, ErrorType>)
        ensures
            r matches Ok(s) && s@ == literal_text(*literal),
    {
        Ok(literal.to_text())
    }

    pub fn eval_logical(&mut self, left: &Expression, operator: &Token, right: &Expression) -> (r:
        Result<String, ErrorType>)
        ensures
            r matches Ok(s) && s@ == render(
                Expression::Logical(Box::new(*left), *operator, Box::new(*right)),
            ),
        decreases Expression::Logical(Box::new(*left), *operator, Box::new(*right)), 2nat,
    {
        proof {
            let e = Expression::Logical(Box::new(*left), *operator, Box::new(*right));
            assert(decreases_to!(e => e->Logical_0));
            assert(decreases_to!(e => e->Logical_2));
        }
        let l = self.text_of(left);
        let rt = self.text_of(right);
        Ok(Self::parenthesized(&l, operator, &rt))
    }

    pub fn eval_unary(&mut self, operator: &Token, value: &Expression) -> (r: Result<String, ErrorType>)
        ensures
            r matches Ok(s) && s@ == render(Expression::Unary(*operator, Box::new(*value))),
        decreases Expression::Unary(*operator, Box::new(*value)), 2nat,
    {
        let v = self.text_of(value);
        let mut out = String::from_str("(");
        out.append(operator.lexeme.as_str());
        out.append(" ");
        out.append(v.as_str());
        out.append(")");
        proof {
            reveal_strlit("(");
            reveal_strlit(" ");
            reveal_strlit(")");
        }
        assert(out@ =~= render(Expression::Unary(*operator, Box::new(*value))));
        Ok(out)
    }

    pub fn eval_call(&mut self, _callee: &Expression, _args: &Vec<Expression>) -> (r: Result<
        String,
        ErrorType,
    >)
        ensures
            r matches Ok(s) && s@ == Seq::<char>::empty(),
    {
        Ok(String::new())
    }

    pub fn eval_variable(&self, _name: &Token) -> (r: Result<String, ErrorType>)
        ensures
            r matches Ok(s) && s@ == Seq::<char>::empty(),
    {
        Ok(String::new())
    }
}

/// Rendering is a function of the tree alone: equal trees render to equal
/// text.
pub proof fn lemma_render_deterministic(a: Expression, b: Expression)
    requires
        a == b,
    ensures
        render(a) == render(b),
{
}

} // verus!
