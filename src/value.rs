use vstd::prelude::*;

use crate::error::ErrorType;
use crate::number::{abs, pow10, Decimal, MAX_SCALE};
use crate::token::TokenType;

verus! {

pub open spec fn fits_i64(n: int) -> bool {
    i64::MIN <= n <= i64::MAX
}

/// What a runtime value denotes. A number is the pair `(numerator,
/// denominator)` with a positive denominator; a function is its index in the
/// interpreter's function table.
pub enum ValueModel {
    Identifier(Seq<char>),
    Str(Seq<char>),
    Number(int, int),
    Bool(bool),
    Nil,
    Function(nat),
}

/// `nil` and `false` are falsy; every other value is truthy.
pub open spec fn is_truthy(v: ValueModel) -> bool {
    match v {
        ValueModel::Nil => false,
        ValueModel::Bool(b) => b,
        _ => true,
    }
}

/// Equality of values: values of different kinds are unequal, numbers are
/// equal when they denote the same rational.
pub open spec fn values_equal(a: ValueModel, b: ValueModel) -> bool {
    match (a, b) {
        (ValueModel::Identifier(x), ValueModel::Identifier(y)) => x == y,
        (ValueModel::Str(x), ValueModel::Str(y)) => x == y,
        (ValueModel::Number(n1, d1), ValueModel::Number(n2, d2)) => n1 * d2 == n2 * d1,
        (ValueModel::Bool(x), ValueModel::Bool(y)) => x == y,
        (ValueModel::Nil, ValueModel::Nil) => true,
        (ValueModel::Function(x), ValueModel::Function(y)) => x == y,
        _ => false,
    }
}

/// Greatest common divisor, by Euclid's algorithm.
pub open spec fn gcd(a: nat, b: nat) -> nat
    decreases b,
{
    if b == 0 {
        a
    } else {
        gcd(b, a % b)
    }
}

/// `n / d` (with `d > 0`) in lowest terms.
pub open spec fn reduced(n: int, d: int) -> (int, int) {
    let g = gcd(abs(n), abs(d)) as int;
    let m = abs(n) as int / g;
    (if n < 0 {
        -m
    } else {
        m
    }, d / g)
}

/// `n / d` in lowest terms as a number value, where both parts then fit in
/// 64 bits.
pub open spec fn checked_number(n: int, d: int) -> Result<ValueModel, ErrorType> {
    let r = reduced(n, d);
    if fits_i64(r.0) && fits_i64(r.1) {
        Ok(ValueModel::Number(r.0, r.1))
    } else {
        Err(ErrorType::NumericOverflow)
    }
}

/// The arithmetic operators on two numbers.
pub open spec fn arithmetic(op: TokenType, n1: int, d1: int, n2: int, d2: int) -> Result<
    ValueModel,
    ErrorType,
> {
    match op {
        TokenType::Plus => checked_number(n1 * d2 + n2 * d1, d1 * d2),
        TokenType::Minus => checked_number(n1 * d2 - n2 * d1, d1 * d2),
        TokenType::Star => checked_number(n1 * n2, d1 * d2),
        _ => if n2 == 0 {
            Err(ErrorType::DivisionByZero)
        } else if n2 < 0 {
            checked_number(-(n1 * d2), -(d1 * n2))
        } else {
            checked_number(n1 * d2, d1 * n2)
        },
    }
}

/// The comparison operators on two numbers.
pub open spec fn comparison(op: TokenType, n1: int, d1: int, n2: int, d2: int) -> bool {
    match op {
        TokenType::Greater => n1 * d2 > n2 * d1,
        TokenType::GreaterEqual => n1 * d2 >= n2 * d1,
        TokenType::Less => n1 * d2 < n2 * d1,
        _ => n1 * d2 <= n2 * d1,
    }
}

pub open spec fn is_arithmetic(op: TokenType) -> bool {
    op == TokenType::Plus || op == TokenType::Minus || op == TokenType::Star || op
        == TokenType::Slash
}

pub open spec fn is_comparison(op: TokenType) -> bool {
    op == TokenType::Greater || op == TokenType::GreaterEqual || op == TokenType::Less || op
        == TokenType::LessEqual
}

/// The result of a binary operator on two evaluated operands.
pub open spec fn binary_result(op: TokenType, l: ValueModel, r: ValueModel) -> Result<
    ValueModel,
    ErrorType,
> {
    if op == TokenType::EqualEqual {
        Ok(ValueModel::Bool(values_equal(l, r)))
    } else if op == TokenType::BangEqual {
        Ok(ValueModel::Bool(!values_equal(l, r)))
    } else if is_arithmetic(op) || is_comparison(op) {
        match (l, r) {
            (ValueModel::Number(n1, d1), ValueModel::Number(n2, d2)) => if is_arithmetic(op) {
                arithmetic(op, n1, d1, n2, d2)
            } else {
                Ok(ValueModel::Bool(comparison(op, n1, d1, n2, d2)))
            },
            (ValueModel::Str(a), ValueModel::Str(b)) => if op == TokenType::Plus {
                Ok(ValueModel::Str(a + b))
            } else {
                Err(ErrorType::TypeError)
            },
            _ => Err(ErrorType::TypeError),
        }
    } else {
        Err(ErrorType::MalformedTree)
    }
}

/// The result of a unary operator on an evaluated operand.
pub open spec fn unary_result(op: TokenType, v: ValueModel) -> Result<ValueModel, ErrorType> {
    if op == TokenType::Minus {
        match v {
            ValueModel::Number(n, d) => checked_number(-n, d),
            _ => Err(ErrorType::TypeError),
        }
    } else if op == TokenType::Bang {
        Ok(ValueModel::Bool(!is_truthy(v)))
    } else {
        Err(ErrorType::MalformedTree)
    }
}

/// An exact rational number with a positive denominator.
#[derive(Debug, Clone, Copy)]
pub struct Rational {
    num: i64,
    den: i64,
}

impl Rational {
    #[verifier::type_invariant]
    spec fn positive_den(self) -> bool {
        self.den > 0
    }

    pub closed spec fn num_spec(self) -> int {
        self.num as int
    }

    pub closed spec fn den_spec(self) -> int {
        self.den as int
    }

    /// The whole number `n`.
    pub fn from_integer(n: i64) -> (r: Rational)
        ensures
            r.num_spec() == n,
            r.den_spec() == 1,
    {
        Rational { num: n, den: 1 }
    }

    /// `units / 10^scale`, exactly.
    pub fn from_decimal(d: Decimal) -> (r: Rational)
        ensures
            r.num_spec() == d.units_spec(),
            r.den_spec() == pow10(d.scale_spec()),
    {
        let s = d.scale();
        let p = crate::number::pow10_exec(s);
        Rational { num: d.units(), den: p as i64 }
    }

    pub fn numerator(&self) -> (r: i64)
        ensures
            r == self.num_spec(),
    {
        self.num
    }

    pub fn denominator(&self) -> (r: i64)
        ensures
            r == self.den_spec(),
            r > 0,
    {
        proof {
            use_type_invariant(self);
        }
        self.den
    }
}

/// A runtime value: a literal's value, or a function by its index in the
/// interpreter's function table.
#[derive(Debug)]
pub enum Value {
    Identifier(String),
    Str(String),
    Number(Rational),
    Bool(bool),
    Nil,
    Function(usize),
}

impl View for Value {
    type V = ValueModel;

    open spec fn view(&self) -> ValueModel {
        match self {
            Value::Identifier(s) => ValueModel::Identifier(s@),
            Value::Str(s) => ValueModel::Str(s@),
            Value::Number(q) => ValueModel::Number(q.num_spec(), q.den_spec()),
            Value::Bool(b) => ValueModel::Bool(*b),
            Value::Nil => ValueModel::Nil,
            Value::Function(i) => ValueModel::Function(*i as nat),
        }
    }
}

/// A result with its value replaced by the value's model.
pub open spec fn result_view<E>(r: Result<Value, E>) -> Result<ValueModel, E> {
    match r {
        Ok(v) => Ok(v@),
        Err(e) => Err(e),
    }
}

impl Value {
    /// A copy of this value.
    pub fn duplicate(&self) -> (r: Value)
        ensures
            r@ == self@,
    {
        match self {
            Value::Identifier(s) => Value::Identifier(s.clone()),
            Value::Str(s) => Value::Str(s.clone()),
            Value::Number(q) => Value::Number(*q),
            Value::Bool(b) => Value::Bool(*b),
            Value::Nil => Value::Nil,
            Value::Function(i) => Value::Function(*i),
        }
    }

    /// Whether the value counts as true where a condition is expected.
    pub fn is_truthy(&self) -> (r: bool)
        ensures
            r == is_truthy(self@),
    {
        match self {
            Value::Nil => false,
            Value::Bool(b) => *b,
            _ => true,
        }
    }

    /// Equality of values as the `==` operator of the language sees it.
    pub fn equals(&self, other: &Value) -> (r: bool)
        ensures
            r == values_equal(self@, other@),
    {
        match (self, other) {
            (Value::Identifier(x), Value::Identifier(y)) => x.eq(y),
            (Value::Str(x), Value::Str(y)) => x.eq(y),
            (Value::Number(a), Value::Number(b)) => {
                let (l, r) = cross_products(a, b);
                l == r
            },
            (Value::Bool(x), Value::Bool(y)) => *x == *y,
            (Value::Nil, Value::Nil) => true,
            (Value::Function(x), Value::Function(y)) => *x == *y,
            _ => false,
        }
    }
}

spec fn i64_bound() -> int {
    0x8000_0000_0000_0000
}

proof fn lemma_scaled_bound(x: int, y: int)
    requires
        -i64_bound() <= x < i64_bound(),
        0 < y < i64_bound(),
    ensures
        -85070591730234615856620279821087277056 <= x * y <= 85070591730234615847396907784232501249,
{
    assert(-85070591730234615856620279821087277056 <= x * y
        <= 85070591730234615847396907784232501249) by (nonlinear_arith)
        requires
            -9223372036854775808 <= x <= 9223372036854775807,
            1 <= y <= 9223372036854775807,
    ;
}

proof fn lemma_product_bound(x: int, y: int)
    requires
        -i64_bound() <= x < i64_bound(),
        -i64_bound() <= y < i64_bound(),
    ensures
        -85070591730234615865843651857942052864 <= x * y <= 85070591730234615865843651857942052864,
{
    assert(-85070591730234615865843651857942052864 <= x * y
        <= 85070591730234615865843651857942052864) by (nonlinear_arith)
        requires
            -9223372036854775808 <= x <= 9223372036854775808,
            -9223372036854775808 <= y <= 9223372036854775808,
    ;
}

/// `(a.num * b.den, b.num * a.den)`, computed without overflow.
fn cross_products(a: &Rational, b: &Rational) -> (r: (i128, i128))
    ensures
        r.0 == a.num_spec() * b.den_spec(),
        r.1 == b.num_spec() * a.den_spec(),
{
    let n1 = a.numerator() as i128;
    let d1 = a.denominator() as i128;
    let n2 = b.numerator() as i128;
    let d2 = b.denominator() as i128;
    proof {
        lemma_scaled_bound(n1 as int, d2 as int);
        lemma_scaled_bound(n2 as int, d1 as int);
    }
    (n1 * d2, n2 * d1)
}

proof fn lemma_gcd_bounds(a: nat, b: nat)
    requires
        b > 0,
    ensures
        1 <= gcd(a, b) <= b,
    decreases b,
{
    reveal_with_fuel(gcd, 2);
    if a % b != 0 {
        lemma_gcd_bounds(b, a % b);
    }
}

proof fn lemma_gcd_divides(a: nat, b: nat)
    requires
        a > 0 || b > 0,
    ensures
        gcd(a, b) > 0,
        a == gcd(a, b) * (a / gcd(a, b)),
        b == gcd(a, b) * (b / gcd(a, b)),
    decreases b,
{
    if b == 0 {
        vstd::arithmetic::div_mod::lemma_div_multiples_vanish(1, a as int);
        vstd::arithmetic::div_mod::lemma_div_multiples_vanish(0, a as int);
    } else {
        let r = a % b;
        lemma_gcd_divides(b, r);
        let g = gcd(b, r) as int;
        let k = (b as int / g) * (a as int / b as int) + r as int / g;
        vstd::arithmetic::div_mod::lemma_fundamental_div_mod(a as int, b as int);
        assert(a == g * k) by (nonlinear_arith)
            requires
                b == g * (b as int / g),
                r == g * (r as int / g),
                a == b * (a as int / b as int) + r,
                k == (b as int / g) * (a as int / b as int) + r as int / g,
        ;
        vstd::arithmetic::div_mod::lemma_div_multiples_vanish(k, g);
        assert(gcd(a, b) == g);
    }
}

/// Reducing to lowest terms keeps the value: `n / d` and its reduced form
/// are equal numbers, and the reduced denominator stays positive.
pub proof fn lemma_reduced_same_value(n: int, d: int)
    requires
        d > 0,
    ensures
        reduced(n, d).1 > 0,
        values_equal(
            ValueModel::Number(n, d),
            ValueModel::Number(reduced(n, d).0, reduced(n, d).1),
        ),
{
    lemma_gcd_divides(abs(n), abs(d));
    lemma_gcd_bounds(abs(n), abs(d));
    let g = gcd(abs(n), abs(d)) as int;
    let m = abs(n) as int / g;
    let e = d / g;
    assert(e > 0) by (nonlinear_arith)
        requires
            d == g * e,
            d > 0,
            g > 0,
    ;
    if n < 0 {
        assert(n * e == -m * d) by (nonlinear_arith)
            requires
                -n == g * m,
                d == g * e,
        ;
    } else {
        assert(n * e == m * d) by (nonlinear_arith)
            requires
                n == g * m,
                d == g * e,
        ;
    }
}

fn gcd_exec(a: u128, b: u128) -> (r: u128)
    ensures
        r == gcd(a as nat, b as nat),
    decreases b,
{
    if b == 0 {
        a
    } else {
        gcd_exec(b, a % b)
    }
}

/// The number `n / d` in lowest terms, or an overflow error where a part
/// does not fit.
fn checked_number_exec(n: i128, d: i128) -> (r: Result<Value, ErrorType>)
    requires
        d > 0,
    ensures
        result_view(r) == checked_number(n as int, d as int),
{
    let a: u128 = if n < 0 {
        (-(n + 1)) as u128 + 1
    } else {
        n as u128
    };
    let b = d as u128;
    let g = gcd_exec(a, b);
    proof {
        lemma_gcd_bounds(a as nat, b as nat);
        assert(b / g >= 1) by (nonlinear_arith)
            requires
                1 <= g <= b,
        ;
        assert(b / g <= b) by (nonlinear_arith)
            requires
                1 <= g,
        ;
    }
    let m = a / g;
    let rd = b / g;
    if rd > i64::MAX as u128 {
        return Err(ErrorType::NumericOverflow);
    }
    if n < 0 {
        if m > 0x8000_0000_0000_0000u128 {
            return Err(ErrorType::NumericOverflow);
        }
        let num: i64 = if m == 0x8000_0000_0000_0000u128 {
            i64::MIN
        } else {
            -(m as i64)
        };
        Ok(Value::Number(Rational { num, den: rd as i64 }))
    } else {
        if m > i64::MAX as u128 {
            return Err(ErrorType::NumericOverflow);
        }
        Ok(Value::Number(Rational { num: m as i64, den: rd as i64 }))
    }
}

/// An arithmetic operator on two numbers.
fn arithmetic_exec(op: TokenType, a: &Rational, b: &Rational) -> (r: Result<Value, ErrorType>)
    requires
        is_arithmetic(op),
    ensures
        result_view(r) == arithmetic(op, a.num_spec(), a.den_spec(), b.num_spec(), b.den_spec()),
{
    let n1 = a.numerator() as i128;
    let d1 = a.denominator() as i128;
    let n2 = b.numerator() as i128;
    let d2 = b.denominator() as i128;
    proof {
        lemma_scaled_bound(n1 as int, d2 as int);
        lemma_scaled_bound(n2 as int, d1 as int);
        lemma_product_bound(n1 as int, n2 as int);
        lemma_product_bound(d1 as int, d2 as int);
        lemma_product_bound(d1 as int, n2 as int);
        assert(d1 * d2 > 0) by (nonlinear_arith)
            requires
                d1 > 0,
                d2 > 0,
        ;
    }
    match op {
        TokenType::Plus => checked_number_exec(n1 * d2 + n2 * d1, d1 * d2),
        TokenType::Minus => checked_number_exec(n1 * d2 - n2 * d1, d1 * d2),
        TokenType::Star => checked_number_exec(n1 * n2, d1 * d2),
        _ => {
            if n2 == 0 {
                Err(ErrorType::DivisionByZero)
            } else if n2 < 0 {
                assert(d1 * n2 < 0) by (nonlinear_arith)
                    requires
                        d1 > 0,
                        n2 < 0,
                ;
                checked_number_exec(-(n1 * d2), -(d1 * n2))
            } else {
                assert(d1 * n2 > 0) by (nonlinear_arith)
                    requires
                        d1 > 0,
                        n2 > 0,
                ;
                checked_number_exec(n1 * d2, d1 * n2)
            }
        },
    }
}

/// A comparison operator on two numbers.
fn comparison_exec(op: TokenType, a: &Rational, b: &Rational) -> (r: bool)
    requires
        is_comparison(op),
    ensures
        r == comparison(op, a.num_spec(), a.den_spec(), b.num_spec(), b.den_spec()),
{
    let (l, rt) = cross_products(a, b);
    match op {
        TokenType::Greater => l > rt,
        TokenType::GreaterEqual => l >= rt,
        TokenType::Less => l < rt,
        _ => l <= rt,
    }
}

fn is_arithmetic_exec(op: TokenType) -> (r: bool)
    ensures
        r == is_arithmetic(op),
{
    op == TokenType::Plus || op == TokenType::Minus || op == TokenType::Star || op
        == TokenType::Slash
}

fn is_comparison_exec(op: TokenType) -> (r: bool)
    ensures
        r == is_comparison(op),
{
    op == TokenType::Greater || op == TokenType::GreaterEqual || op == TokenType::Less || op
        == TokenType::LessEqual
}

/// Applies a binary operator of kind `op` to two evaluated operands.
pub fn binary_op(op: TokenType, l: &Value, r: &Value) -> (res: Result<Value, ErrorType>)
    ensures
        result_view(res) == binary_result(op, l@, r@),
{
    if op == TokenType::EqualEqual {
        Ok(Value::Bool(l.equals(r)))
    } else if op == TokenType::BangEqual {
        Ok(Value::Bool(!l.equals(r)))
    } else if is_arithmetic_exec(op) || is_comparison_exec(op) {
        match (l, r) {
            (Value::Number(a), Value::Number(b)) => {
                if is_arithmetic_exec(op) {
                    arithmetic_exec(op, a, b)
                } else {
                    Ok(Value::Bool(comparison_exec(op, a, b)))
                }
            },
            (Value::Str(a), Value::Str(b)) => {
                if op == TokenType::Plus {
                    let mut s = a.clone();
                    s.append(b.as_str());
                    Ok(Value::Str(s))
                } else {
                    Err(ErrorType::TypeError)
                }
            },
            _ => Err(ErrorType::TypeError),
        }
    } else {
        Err(ErrorType::MalformedTree)
    }
}

/// Applies a unary operator of kind `op` to an evaluated operand.
pub fn unary_op(op: TokenType, v: &Value) -> (res: Result<Value, ErrorType>)
    ensures
        result_view(res) == unary_result(op, v@),
{
    if op == TokenType::Minus {
        match v {
            Value::Number(q) => {
                let n = q.numerator() as i128;
                let d = q.denominator() as i128;
                checked_number_exec(-n, d)
            },
            _ => Err(ErrorType::TypeError),
        }
    } else if op == TokenType::Bang {
        Ok(Value::Bool(!v.is_truthy()))
    } else {
        Err(ErrorType::MalformedTree)
    }
}

/// Whether two values are of the same kind.
pub open spec fn same_kind(a: ValueModel, b: ValueModel) -> bool {
    match (a, b) {
        (ValueModel::Identifier(_), ValueModel::Identifier(_)) => true,
        (ValueModel::Str(_), ValueModel::Str(_)) => true,
        (ValueModel::Number(_, _), ValueModel::Number(_, _)) => true,
        (ValueModel::Bool(_), ValueModel::Bool(_)) => true,
        (ValueModel::Nil, ValueModel::Nil) => true,
        (ValueModel::Function(_), ValueModel::Function(_)) => true,
        _ => false,
    }
}

/// `==` is reflexive, never fails, and holds of no two values of different
/// kinds.
pub proof fn lemma_equality_reflexive_and_kind_aware(a: ValueModel, b: ValueModel)
    ensures
        binary_result(TokenType::EqualEqual, a, a) == Ok::<ValueModel, ErrorType>(
            ValueModel::Bool(true),
        ),
        binary_result(TokenType::EqualEqual, a, b) is Ok,
        binary_result(TokenType::BangEqual, a, b) is Ok,
        !same_kind(a, b) ==> binary_result(TokenType::EqualEqual, a, b) == Ok::<
            ValueModel,
            ErrorType,
        >(ValueModel::Bool(false)),
{
}

/// `nil` and `false` are the only falsy values; `!` negates truthiness.
pub proof fn lemma_truthiness(v: ValueModel)
    ensures
        !is_truthy(v) <==> (v == ValueModel::Nil || v == ValueModel::Bool(false)),
        unary_result(TokenType::Bang, v) == Ok::<ValueModel, ErrorType>(
            ValueModel::Bool(!is_truthy(v)),
        ),
{
}

/// An arithmetic or comparison operator on operands that are neither two
/// numbers nor two strings fails with a type error, whatever their values.
pub proof fn lemma_operand_type_error(op: TokenType, l: ValueModel, r: ValueModel)
    requires
        is_arithmetic(op) || is_comparison(op),
        !(l is Number && r is Number),
        !(l is Str && r is Str),
    ensures
        binary_result(op, l, r) == Err::<ValueModel, ErrorType>(ErrorType::TypeError),
{
}

} // verus!
