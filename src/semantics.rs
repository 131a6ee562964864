//! The meaning of expressions, as spec functions over mathematical integers.
use vstd::prelude::*;
use crate::expr::{ArithCmpOp, ArithExpr, BinArithOp, BinLogicOp, BoolExpr, EvalError, Expr, Value};

verus! {

/// Number of distinct `i64` values.
pub open spec fn i64_range() -> int {
    0x1_0000_0000_0000_0000
}

/// `x` reduced into the `i64` range modulo 2^64 (two's-complement wraparound).
pub open spec fn wrap_i64(x: int) -> i64 {
    let m = x % i64_range();
    if m > i64::MAX {
        (m - i64_range()) as i64
    } else {
        m as i64
    }
}

/// Integer division rounding the quotient toward zero; `b` is nonzero.
pub open spec fn trunc_div(a: int, b: int) -> int {
    if a >= 0 && b > 0 {
        a / b
    } else if a < 0 && b < 0 {
        (-a) / (-b)
    } else if a < 0 {
        -((-a) / b)
    } else {
        -(a / (-b))
    }
}

/// One arithmetic operator applied to two evaluated operands.
pub open spec fn arith_step(op: BinArithOp, a: i64, b: i64) -> Result<i64, EvalError> {
    match op {
        BinArithOp::AddOp => Ok(wrap_i64(a + b)),
        BinArithOp::SubOp => Ok(wrap_i64(a - b)),
        BinArithOp::MulOp => Ok(wrap_i64(a * b)),
        BinArithOp::IntDivOp => if b == 0 {
            Err(EvalError::DivisionByZero)
        } else {
            Ok(wrap_i64(trunc_div(a as int, b as int)))
        },
    }
}

/// One comparison operator applied to two evaluated operands.
pub open spec fn compare(op: ArithCmpOp, a: i64, b: i64) -> bool {
    match op {
        ArithCmpOp::LtOp => a < b,
        ArithCmpOp::LteOp => a <= b,
        ArithCmpOp::GtOp => a > b,
        ArithCmpOp::GteOp => a >= b,
        ArithCmpOp::ArithEqOp => a == b,
        ArithCmpOp::ArithNeqOp => a != b,
    }
}

/// The outcome of evaluating an arithmetic tree, left operand first; the
/// first error met ends the evaluation.
pub open spec fn arith_outcome(e: ArithExpr) -> Result<i64, EvalError>
    decreases e,
{
    match e {
        ArithExpr::IntLit(n) => Ok(n),
        ArithExpr::BinArithExpr { left, right, op } => match arith_outcome(*left) {
            Err(err) => Err(err),
            Ok(a) => match arith_outcome(*right) {
                Err(err) => Err(err),
                Ok(b) => arith_step(op, a, b),
            },
        },
    }
}

/// The outcome of evaluating a boolean tree. `And` and `Or` look at their
/// right operand only when the left one leaves the result open; every other
/// operator needs both operands.
pub open spec fn bool_outcome(e: BoolExpr) -> Result<bool, EvalError>
    decreases e,
{
    match e {
        BoolExpr::BoolLit(b) => Ok(b),
        BoolExpr::NotExpr(inner) => match bool_outcome(*inner) {
            Err(err) => Err(err),
            Ok(b) => Ok(!b),
        },
        BoolExpr::ArithCmpExpr { left, right, op } => match arith_outcome(*left) {
            Err(err) => Err(err),
            Ok(a) => match arith_outcome(*right) {
                Err(err) => Err(err),
                Ok(b) => Ok(compare(op, a, b)),
            },
        },
        BoolExpr::BinBoolExpr { left, right, op } => match bool_outcome(*left) {
            Err(err) => Err(err),
            Ok(a) => match op {
                BinLogicOp::AndOp => if a { bool_outcome(*right) } else { Ok(false) },
                BinLogicOp::OrOp => if a { Ok(true) } else { bool_outcome(*right) },
                BinLogicOp::BoolEqOp => match bool_outcome(*right) {
                    Err(err) => Err(err),
                    Ok(b) => Ok(a == b),
                },
                BinLogicOp::BoolNeqOp => match bool_outcome(*right) {
                    Err(err) => Err(err),
                    Ok(b) => Ok(a != b),
                },
            },
        },
    }
}

/// The outcome of evaluating a generic expression, tagged with its sort.
pub open spec fn expr_outcome(e: Expr) -> Result<Value, EvalError> {
    match e {
        Expr::ArithExpr(a) => match arith_outcome(a) {
            Err(err) => Err(err),
            Ok(n) => Ok(Value::IntValue(n)),
        },
        Expr::BoolExpr(b) => match bool_outcome(b) {
            Err(err) => Err(err),
            Ok(v) => Ok(Value::BoolValue(v)),
        },
    }
}

} // verus!
