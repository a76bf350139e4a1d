use vstd::prelude::*;

use crate::number::decimal_text;
use crate::token::{Literal, Token};

verus! {

/// The expression tree that the parser builds: each node owns its children.
#[derive(Debug)]
pub enum Expression {
    Assign(Token, Box<Expression>),
    Binary(Box<Expression>, Token, Box<Expression>),
    Grouping(Box<Expression>),
    LiteralExpression(Literal),
    Logical(Box<Expression>, Token, Box<Expression>),
    Unary(Token, Box<Expression>),
    Call(Box<Expression>, Vec<Expression>),
    Variable(Token),
}

/// The canonical display form of a literal.
pub open spec fn literal_text(l: Literal) -> Seq<char> {
    match l {
        Literal::Identifier(s) => s@,
        Literal::Str(s) => s@,
        Literal::Number(d) => decimal_text(d.units_spec(), d.scale_spec()),
        Literal::Bool(b) => if b {
            seq!['t', 'r', 'u', 'e']
        } else {
            seq!['f', 'a', 'l', 's', 'e']
        },
        Literal::Nil => seq!['n', 'i', 'l'],
    }
}

impl Literal {
    /// The canonical display form: names and strings as their raw text,
    /// numbers in their shortest exact decimal form, `true`, `false`, `nil`.
    pub fn to_text(&self) -> (r: String)
        ensures
            r@ == literal_text(*self),
    {
        match self {
            Literal::Identifier(s) => s.clone(),
            Literal::Str(s) => s.clone(),
            Literal::Number(d) => d.to_text(),
            Literal::Bool(b) => {
                proof {
                    reveal_strlit("true");
                    reveal_strlit("false");
                }
                if *b {
                    let r = String::from_str("true");
                    assert(r@ =~= seq!['t', 'r', 'u', 'e']);
                    r
                } else {
                    let r = String::from_str("false");
                    assert(r@ =~= seq!['f', 'a', 'l', 's', 'e']);
                    r
                }
            },
            Literal::Nil => {
                proof {
                    reveal_strlit("nil");
                }
                let r = String::from_str("nil");
                assert(r@ =~= seq!['n', 'i', 'l']);
                r
            },
        }
    }
}

} // verus!
