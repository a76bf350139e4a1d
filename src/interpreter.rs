use vstd::prelude::*;

use crate::environment::{env_assign, env_lookup, Bindings, Environment};
use crate::error::{ErrorType, RuntimeError};
use crate::expr::Expression;
use crate::number::pow10;
use crate::token::{Literal, Token, TokenType};
use crate::value::{
    binary_op,
    binary_result,
    is_truthy,
    result_view,
    unary_op,
    unary_result,
    Rational,
    Value,
    ValueModel,
};

verus! {

/// A function that values can refer to: its parameters and a body expression,
/// evaluated with the parameters bound to the arguments and nothing else.
#[derive(Debug)]
pub struct FunctionDecl {
    pub name: String,
    pub params: Vec<String>,
    pub body: Expression,
}

/// The value a literal denotes.
pub open spec fn literal_value(l: Literal) -> ValueModel {
    match l {
        Literal::Identifier(s) => ValueModel::Identifier(s@),
        Literal::Str(s) => ValueModel::Str(s@),
        Literal::Number(d) => ValueModel::Number(d.units_spec(), pow10(d.scale_spec()) as int),
        Literal::Bool(b) => ValueModel::Bool(b),
        Literal::Nil => ValueModel::Nil,
    }
}

/// An error of kind `kind` at the position of `t`.
pub open spec fn error_at(kind: ErrorType, t: Token) -> RuntimeError {
    RuntimeError { kind, line: t.line, col: t.col }
}

/// An error of kind `kind` from a node that holds no token.
pub open spec fn error_without_position(kind: ErrorType) -> RuntimeError {
    RuntimeError { kind, line: 0, col: 0 }
}

/// A result of an operator, with its error placed at the operator.
pub open spec fn at_operator(r: Result<ValueModel, ErrorType>, op: Token) -> Result<
    ValueModel,
    RuntimeError,
> {
    match r {
        Ok(v) => Ok(v),
        Err(k) => Err(error_at(k, op)),
    }
}

/// The bindings of a function's parameters to the arguments of a call.
pub open spec fn parameter_bindings(params: Seq<String>, args: Seq<ValueModel>) -> Bindings {
    Seq::new(params.len(), |i: int| (params[i]@, args[i]))
}

/// The value of the variable `name` under `env`.
pub open spec fn variable_result(name: Token, env: Bindings) -> Result<ValueModel, RuntimeError> {
    if name.ttype != TokenType::Identifier {
        Err(error_at(ErrorType::MalformedTree, name))
    } else {
        match env_lookup(env, name.lexeme@) {
            Some(v) => Ok(v),
            None => Err(error_at(ErrorType::UndefinedName, name)),
        }
    }
}

/// What evaluating `e` under `env` gives, with the bindings afterwards.
/// `depth` is the number of calls that may still be nested.
pub open spec fn eval(e: Expression, env: Bindings, funcs: Seq<FunctionDecl>, depth: nat) -> (
    Result<ValueModel, RuntimeError>,
    Bindings,
)
    decreases depth, e, 0nat,
{
    match e {
        Expression::LiteralExpression(l) => (Ok(literal_value(l)), env),
        Expression::Grouping(inner) => eval(*inner, env, funcs, depth),
        Expression::Unary(op, operand) => {
            let (r, env1) = eval(*operand, env, funcs, depth);
            match r {
                Ok(v) => (at_operator(unary_result(op.ttype, v), op), env1),
                Err(err) => (Err(err), env1),
            }
        },
        Expression::Binary(l, op, r) => {
            let (lr, env1) = eval(*l, env, funcs, depth);
            match lr {
                Ok(lv) => {
                    let (rr, env2) = eval(*r, env1, funcs, depth);
                    match rr {
                        Ok(rv) => (at_operator(binary_result(op.ttype, lv, rv), op), env2),
                        Err(err) => (Err(err), env2),
                    }
                },
                Err(err) => (Err(err), env1),
            }
        },
        Expression::Logical(l, op, r) => {
            if op.ttype != TokenType::And && op.ttype != TokenType::Or {
                (Err(error_at(ErrorType::MalformedTree, op)), env)
            } else {
                let (lr, env1) = eval(*l, env, funcs, depth);
                match lr {
                    Ok(lv) => if (op.ttype == TokenType::Or) == is_truthy(lv) {
                        (Ok(lv), env1)
                    } else {
                        eval(*r, env1, funcs, depth)
                    },
                    Err(err) => (Err(err), env1),
                }
            }
        },
        Expression::Variable(name) => (variable_result(name, env), env),
        Expression::Assign(name, value) => {
            if name.ttype != TokenType::Identifier {
                (Err(error_at(ErrorType::MalformedTree, name)), env)
            } else {
                let (r, env1) = eval(*value, env, funcs, depth);
                match r {
                    Ok(v) => match env_assign(env1, name.lexeme@, v) {
                        Some(env2) => (Ok(v), env2),
                        None => (Err(error_at(ErrorType::UndefinedName, name)), env1),
                    },
                    Err(err) => (Err(err), env1),
                }
            }
        },
        Expression::Call(callee, args) => {
            let (cr, env1) = eval(*callee, env, funcs, depth);
            match cr {
                Ok(cv) => {
                    let (ar, env2) = eval_args(args@, 0, env1, funcs, depth, Seq::empty());
                    match ar {
                        Ok(vals) => match cv {
                            ValueModel::Function(id) => if id >= funcs.len() {
                                (Err(error_without_position(ErrorType::NotCallable)), env2)
                            } else if vals.len() != funcs[id as int].params@.len() {
                                (Err(error_without_position(ErrorType::ArityMismatch)), env2)
                            } else if depth == 0 {
                                (Err(error_without_position(ErrorType::CallDepthExceeded)), env2)
                            } else {
                                let f = funcs[id as int];
                                let body_env = parameter_bindings(f.params@, vals);
                                (eval(f.body, body_env, funcs, (depth - 1) as nat).0, env2)
                            },
                            _ => (Err(error_without_position(ErrorType::NotCallable)), env2),
                        },
                        Err(err) => (Err(err), env2),
                    }
                },
                Err(err) => (Err(err), env1),
            }
        },
    }
}

/// Evaluates `args[i..]` left to right after the values `acc` of the earlier
/// ones.
pub open spec fn eval_args(
    args: Seq<Expression>,
    i: int,
    env: Bindings,
    funcs: Seq<FunctionDecl>,
    depth: nat,
    acc: Seq<ValueModel>,
) -> (Result<Seq<ValueModel>, RuntimeError>, Bindings)
    decreases depth, args, args.len() - i,
{
    if i < 0 || i >= args.len() {
        (Ok(acc), env)
    } else {
        let (r, env1) = eval(args[i], env, funcs, depth);
        match r {
            Ok(v) => eval_args(args, i + 1, env1, funcs, depth, acc.push(v)),
            Err(err) => (Err(err), env1),
        }
    }
}

pub open spec fn values_view(vals: Seq<Value>) -> Seq<ValueModel> {
    vals.map_values(|v: Value| v@)
}

fn literal_to_value(l: &Literal) -> (r: Value)
    ensures
        r@ == literal_value(*l),
{
    match l {
        Literal::Identifier(s) => Value::Identifier(s.clone()),
        Literal::Str(s) => Value::Str(s.clone()),
        Literal::Number(d) => Value::Number(Rational::from_decimal(*d)),
        Literal::Bool(b) => Value::Bool(*b),
        Literal::Nil => Value::Nil,
    }
}

fn error_at_exec(kind: ErrorType, t: &Token) -> (r: RuntimeError)
    ensures
        r == error_at(kind, *t),
{
    RuntimeError { kind, line: t.line, col: t.col }
}

fn at_operator_exec(r: Result<Value, ErrorType>, op: &Token) -> (res: Result<Value, RuntimeError>)
    ensures
        result_view(res) == at_operator(result_view(r), *op),
{
    match r {
        Ok(v) => Ok(v),
        Err(k) => Err(error_at_exec(k, op)),
    }
}

fn bind_parameters(params: &Vec<String>, vals: &Vec<Value>) -> (r: Environment)
    requires
        params@.len() == vals@.len(),
    ensures
        r@ == parameter_bindings(params@, values_view(vals@)),
{
    let mut env = Environment::new();
    let mut k: usize = 0;
    while k < params.len()
        invariant
            k <= params@.len() == vals@.len(),
            env@ == parameter_bindings(params@, values_view(vals@)).subrange(0, k as int),
        decreases params@.len() - k,
    {
        env.define(params[k].clone(), vals[k].duplicate());
        k = k + 1;
        assert(env@ =~= parameter_bindings(params@, values_view(vals@)).subrange(0, k as int));
    }
    assert(env@ =~= parameter_bindings(params@, values_view(vals@)));
    env
}

/// Evaluates `e` under `env`, as `eval` describes: dispatches on the node's
/// variant to the operation for it.
fn eval_expr(env: &mut Environment, funcs: &Vec<FunctionDecl>, e: &Expression, depth: usize) -> (r:
    Result<Value, RuntimeError>)
    ensures
        (result_view(r), final(env)@) == eval(*e, old(env)@, funcs@, depth as nat),
    decreases depth, *e, 1nat,
{
    match e {
        Expression::Assign(name, value) => eval_assign(env, funcs, name, value, depth),
        Expression::Binary(l, op, r) => eval_binary(env, funcs, l, op, r, depth),
        Expression::Grouping(inner) => eval_grouping(env, funcs, inner, depth),
        Expression::LiteralExpression(l) => eval_literal(l),
        Expression::Logical(l, op, r) => eval_logical(env, funcs, l, op, r, depth),
        Expression::Unary(op, operand) => eval_unary(env, funcs, op, operand, depth),
        Expression::Call(callee, args) => eval_call(env, funcs, callee, args, depth),
        Expression::Variable(name) => eval_variable(env, name),
    }
}

fn eval_assign(
    env: &mut Environment,
    funcs: &Vec<FunctionDecl>,
    name: &Token,
    value: &Expression,
    depth: usize,
) -> (r: Result<Value, RuntimeError>)
    ensures
        (result_view(r), final(env)@) == eval(
            Expression::Assign(*name, Box::new(*value)),
            old(env)@,
            funcs@,
            depth as nat,
        ),
    decreases depth, Expression::Assign(*name, Box::new(*value)), 0nat,
{
    if name.ttype != TokenType::Identifier {
        return Err(error_at_exec(ErrorType::MalformedTree, name));
    }
    let v = eval_expr(env, funcs, value, depth)?;
    let stored = v.duplicate();
    if env.assign(&name.lexeme, stored) {
        Ok(v)
    } else {
        Err(error_at_exec(ErrorType::UndefinedName, name))
    }
}

fn eval_binary(
    env: &mut Environment,
    funcs: &Vec<FunctionDecl>,
    left: &Expression,
    operator: &Token,
    right: &Expression,
    depth: usize,
) -> (r: Result<Value, RuntimeError>)
    ensures
        (result_view(r), final(env)@) == eval(
            Expression::Binary(Box::new(*left), *operator, Box::new(*right)),
            old(env)@,
            funcs@,
            depth as nat,
        ),
    decreases depth, Expression::Binary(Box::new(*left), *operator, Box::new(*right)), 0nat,
{
    proof {
        let e = Expression::Binary(Box::new(*left), *operator, Box::new(*right));
        assert(decreases_to!(e => e->Binary_0));
        assert(decreases_to!(e => e->Binary_2));
    }
    let lv = eval_expr(env, funcs, left, depth)?;
    let rv = eval_expr(env, funcs, right, depth)?;
    at_operator_exec(binary_op(operator.ttype, &lv, &rv), operator)
}

fn eval_grouping(env: &mut Environment, funcs: &Vec<FunctionDecl>, expr: &Expression, depth: usize) -> (r:
    Result<Value, RuntimeError>)
    ensures
        (result_view(r), final(env)@) == eval(
            Expression::Grouping(Box::new(*expr)),
            old(env)@,
            funcs@,
            depth as nat,
        ),
    decreases depth, Expression::Grouping(Box::new(*expr)), 0nat,
{
    eval_expr(env, funcs, expr, depth)
}

fn eval_literal(literal: &Literal) -> (r: Result<Value, RuntimeError>)
    ensures
        result_view(r) == Ok::<ValueModel, RuntimeError>(literal_value(*literal)),
{
    Ok(literal_to_value(literal))
}

fn eval_logical(
    env: &mut Environment,
    funcs: &Vec<FunctionDecl>,
    left: &Expression,
    operator: &Token,
    right: &Expression,
    depth: usize,
) -> (r: Result<Value, RuntimeError>)
    ensures
        (result_view(r), final(env)@) == eval(
            Expression::Logical(Box::new(*left), *operator, Box::new(*right)),
            old(env)@,
            funcs@,
            depth as nat,
        ),
    decreases depth, Expression::Logical(Box::new(*left), *operator, Box::new(*right)), 0nat,
{
    proof {
        let e = Expression::Logical(Box::new(*left), *operator, Box::new(*right));
        assert(decreases_to!(e => e->Logical_0));
        assert(decreases_to!(e => e->Logical_2));
    }
    if operator.ttype != TokenType::And && operator.ttype != TokenType::Or {
        return Err(error_at_exec(ErrorType::MalformedTree, operator));
    }
    let lv = eval_expr(env, funcs, left, depth)?;
    if (operator.ttype == TokenType::Or) == lv.is_truthy() {
        Ok(lv)
    } else {
        eval_expr(env, funcs, right, depth)
    }
}

fn eval_unary(
    env: &mut Environment,
    funcs: &Vec<FunctionDecl>,
    operator: &Token,
    value: &Expression,
    depth: usize,
) -> (r: Result<Value, RuntimeError>)
    ensures
        (result_view(r), final(env)@) == eval(
            Expression::Unary(*operator, Box::new(*value)),
            old(env)@,
            funcs@,
            depth as nat,
        ),
    decreases depth, Expression::Unary(*operator, Box::new(*value)), 0nat,
{
    let v = eval_expr(env, funcs, value, depth)?;
    at_operator_exec(unary_op(operator.ttype, &v), operator)
}

fn eval_call(
    env: &mut Environment,
    funcs: &Vec<FunctionDecl>,
    callee: &Expression,
    args: &Vec<Expression>,
    depth: usize,
) -> (r: Result<Value, RuntimeError>)
    ensures
        (result_view(r), final(env)@) == eval(
            Expression::Call(Box::new(*callee), *args),
            old(env)@,
            funcs@,
            depth as nat,
        ),
    decreases depth, Expression::Call(Box::new(*callee), *args), 0nat,
{
    let ghost e = Expression::Call(Box::new(*callee), *args);
    proof {
        assert(decreases_to!(e => e->Call_0));
    }
    let cv = eval_expr(env, funcs, callee, depth)?;
    let ghost env1 = env@;
    let mut vals: Vec<Value> = Vec::new();
    let mut i: usize = 0;
    assert(values_view(vals@) =~= Seq::<ValueModel>::empty());
    while i < args.len()
        invariant
            i <= args@.len(),
            e == Expression::Call(Box::new(*callee), *args),
            vals@.len() == i,
            eval(*callee, old(env)@, funcs@, depth as nat) == (Ok::<ValueModel, RuntimeError>(
                cv@,
            ), env1),
            eval_args(args@, 0, env1, funcs@, depth as nat, Seq::empty()) == eval_args(
                args@,
                i as int,
                env@,
                funcs@,
                depth as nat,
                values_view(vals@),
            ),
        decreases args@.len() - i,
    {
        proof {
            assert(decreases_to!(e => e->Call_1));
            assert(decreases_to!(e->Call_1 => e->Call_1@));
            assert(decreases_to!(e->Call_1@ => e->Call_1@[i as int])) by {
                vstd::seq::axiom_seq_index_decreases(e->Call_1@, i as int);
            }
        }
        let v = eval_expr(env, funcs, &args[i], depth)?;
        let ghost before = values_view(vals@);
        vals.push(v);
        assert(values_view(vals@) =~= before.push(vals@[i as int]@));
        i = i + 1;
    }
    let id = match cv {
        Value::Function(id) => id,
        _ => {
            return Err(RuntimeError { kind: ErrorType::NotCallable, line: 0, col: 0 });
        },
    };
    if id >= funcs.len() {
        return Err(RuntimeError { kind: ErrorType::NotCallable, line: 0, col: 0 });
    }
    let f = &funcs[id];
    if vals.len() != f.params.len() {
        return Err(RuntimeError { kind: ErrorType::ArityMismatch, line: 0, col: 0 });
    }
    if depth == 0 {
        return Err(RuntimeError { kind: ErrorType::CallDepthExceeded, line: 0, col: 0 });
    }
    let mut local = bind_parameters(&f.params, &vals);
    eval_expr(&mut local, funcs, &f.body, depth - 1)
}

fn eval_variable(env: &Environment, name: &Token) -> (r: Result<Value, RuntimeError>)
    ensures
        result_view(r) == variable_result(*name, env@),
{
    if name.ttype != TokenType::Identifier {
        return Err(error_at_exec(ErrorType::MalformedTree, name));
    }
    match env.get(&name.lexeme) {
        Some(v) => Ok(v),
        None => Err(error_at_exec(ErrorType::UndefinedName, name)),
    }
}

/// Evaluates expression trees against a store of bindings and a table of
/// functions, nesting at most `max_depth` calls.
#[derive(Debug)]
pub struct Interpreter {
    environment: Environment,
    functions: Vec<FunctionDecl>,
    max_depth: usize,
}

impl Interpreter {
    pub closed spec fn bindings(&self) -> Bindings {
        self.environment@
    }

    pub closed spec fn functions(&self) -> Seq<FunctionDecl> {
        self.functions@
    }

    pub closed spec fn max_depth(&self) -> nat {
        self.max_depth as nat
    }

    /// An interpreter with no bindings and no functions.
    pub fn new(max_depth: usize) -> (r: Interpreter)
        ensures
            r.bindings() == Seq::<(Seq<char>, ValueModel)>::empty(),
            r.functions() == Seq::<FunctionDecl>::empty(),
            r.max_depth() == max_depth,
    {
        Interpreter { environment: Environment::new(), functions: Vec::new(), max_depth }
    }

    /// Binds `name` to `value`, shadowing any earlier binding of it.
    pub fn define(&mut self, name: String, value: Value)
        ensures
            final(self).bindings() == old(self).bindings().push((name@, value@)),
            final(self).functions() == old(self).functions(),
            final(self).max_depth() == old(self).max_depth(),
    {
        self.environment.define(name, value);
    }

    /// Adds a function to the table and binds `name` to it; returns its index.
    pub fn define_function(&mut self, name: String, params: Vec<String>, body: Expression) -> (r:
        usize)
        requires
            old(self).functions().len() < usize::MAX,
        ensures
            r == old(self).functions().len(),
            final(self).functions() == old(self).functions().push(
                FunctionDecl { name, params, body },
            ),
            final(self).bindings() == old(self).bindings().push(
                (name@, ValueModel::Function(r as nat)),
            ),
            final(self).max_depth() == old(self).max_depth(),
    {
        let id = self.functions.len();
        let bound = name.clone();
        self.functions.push(FunctionDecl { name, params, body });
        self.environment.define(bound, Value::Function(id));
        id
    }

    /// The value bound to `name`, where it is bound.
    pub fn get(&self, name: &String) -> (r: Option<Value>)
        ensures
            crate::environment::env_lookup(self.bindings(), name@) == match r {
                Some(v) => Some(v@),
                None => None::<ValueModel>,
            },
    {
        self.environment.get(name)
    }

    /// Evaluates `e`: its value, or the first error met, with the bindings
    /// changed by the assignments that ran.
    pub fn evaluate(&mut self, e: &Expression) -> (r: Result<Value, RuntimeError>)
        ensures
            (result_view(r), final(self).bindings()) == eval(
                *e,
                old(self).bindings(),
                old(self).functions(),
                old(self).max_depth(),
            ),
            final(self).functions() == old(self).functions(),
            final(self).max_depth() == old(self).max_depth(),
    {
        eval_expr(&mut self.environment, &self.functions, e, self.max_depth)
    }
}

/// Short-circuit of `or`: where the left operand evaluates to a truthy value,
/// the right operand is not evaluated; the result and the bindings are those
/// of the left operand alone, whatever the right operand is.
pub proof fn lemma_or_short_circuit(
    left: Expression,
    op: Token,
    right: Expression,
    env: Bindings,
    funcs: Seq<FunctionDecl>,
    depth: nat,
)
    requires
        op.ttype == TokenType::Or,
        eval(left, env, funcs, depth).0 matches Ok(v) && is_truthy(v),
    ensures
        eval(Expression::Logical(Box::new(left), op, Box::new(right)), env, funcs, depth) == eval(
            left,
            env,
            funcs,
            depth,
        ),
{
}

/// Short-circuit of `and`: where the left operand evaluates to a falsy value,
/// the right operand is not evaluated.
pub proof fn lemma_and_short_circuit(
    left: Expression,
    op: Token,
    right: Expression,
    env: Bindings,
    funcs: Seq<FunctionDecl>,
    depth: nat,
)
    requires
        op.ttype == TokenType::And,
        eval(left, env, funcs, depth).0 matches Ok(v) && !is_truthy(v),
    ensures
        eval(Expression::Logical(Box::new(left), op, Box::new(right)), env, funcs, depth) == eval(
            left,
            env,
            funcs,
            depth,
        ),
{
}

/// An operand type error inside any tree: where both operands of an
/// arithmetic or comparison operator evaluate, and are neither two numbers
/// nor two strings, the node fails with a type error at its operator.
pub proof fn lemma_type_error_in_tree(
    left: Expression,
    op: Token,
    right: Expression,
    env: Bindings,
    funcs: Seq<FunctionDecl>,
    depth: nat,
)
    requires
        crate::value::is_arithmetic(op.ttype) || crate::value::is_comparison(op.ttype),
        eval(left, env, funcs, depth).0 matches Ok(lv) && (eval(
            right,
            eval(left, env, funcs, depth).1,
            funcs,
            depth,
        ).0 matches Ok(rv) && !(lv is Number && rv is Number) && !(lv is Str && rv is Str)),
    ensures
        eval(Expression::Binary(Box::new(left), op, Box::new(right)), env, funcs, depth).0 == Err::<
            ValueModel,
            RuntimeError,
        >(error_at(ErrorType::TypeError, op)),
{
    let lv = eval(left, env, funcs, depth).0->Ok_0;
    let rv = eval(right, eval(left, env, funcs, depth).1, funcs, depth).0->Ok_0;
    crate::value::lemma_operand_type_error(op.ttype, lv, rv);
}

} // verus!
