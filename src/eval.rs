//! The evaluators.
use vstd::prelude::*;
use crate::expr::{ArithCmpOp, ArithExpr, BinArithOp, BinLogicOp, BoolExpr, EvalError, Expr, Value};
use crate::semantics::{arith_outcome, arith_step, bool_outcome, compare, expr_outcome, i64_range, trunc_div, wrap_i64};

verus! {

/// A value at most 2^64 outside the `i64` range wraps by a single shift
/// of 2^64.
proof fn lemma_wrap_near(x: int)
    requires
        i64::MIN - i64_range() <= x <= i64::MAX + i64_range(),
    ensures
        wrap_i64(x) == (if x > i64::MAX {
            x - i64_range()
        } else if x < i64::MIN {
            x + i64_range()
        } else {
            x
        }),
{
}

/// A truncated quotient by a divisor other than 0 and -1 stays within the
/// magnitude of the dividend.
proof fn lemma_trunc_div_bounded(a: int, b: int)
    requires
        b != 0,
        b != -1,
        i64::MIN <= a <= i64::MAX,
    ensures
        i64::MIN <= trunc_div(a, b) <= i64::MAX,
{
    if a >= 0 && b > 0 {
        assert(0 <= a / b <= a) by (nonlinear_arith)
            requires a >= 0, b > 0;
    } else if a < 0 && b < 0 {
        assert(0 <= (-a) / (-b) <= (-a) / 2) by (nonlinear_arith)
            requires -a > 0, -b >= 2;
    } else if a < 0 {
        assert(0 <= (-a) / b <= -a) by (nonlinear_arith)
            requires -a > 0, b > 0;
    } else {
        assert(0 <= a / (-b) <= a) by (nonlinear_arith)
            requires a >= 0, -b > 0;
    }
}

/// Applies one arithmetic operator to two evaluated operands.
fn apply_arith(op: BinArithOp, a: i64, b: i64) -> (r: Result<i64, EvalError>)
    ensures
        r == arith_step(op, a, b),
{
    match op {
        BinArithOp::AddOp => {
            proof { lemma_wrap_near(a + b); }
            Ok(a.wrapping_add(b))
        },
        BinArithOp::SubOp => {
            proof { lemma_wrap_near(a - b); }
            Ok(a.wrapping_sub(b))
        },
        BinArithOp::MulOp => Ok(a.wrapping_mul(b)),
        BinArithOp::IntDivOp => {
            if b == 0 {
                Err(EvalError::DivisionByZero)
            } else if b == -1 {
                proof {
                    assert(trunc_div(a as int, -1) == -a);
                    lemma_wrap_near(0 - a);
                }
                Ok(0i64.wrapping_sub(a))
            } else {
                proof {
                    lemma_trunc_div_bounded(a as int, b as int);
                    lemma_wrap_near(trunc_div(a as int, b as int));
                }
                Ok(a.checked_div(b).unwrap())
            }
        },
    }
}

/// Applies one comparison operator to two evaluated operands.
fn apply_compare(op: ArithCmpOp, a: i64, b: i64) -> (r: bool)
    ensures
        r == compare(op, a, b),
{
    match op {
        ArithCmpOp::LtOp => a < b,
        ArithCmpOp::LteOp => a <= b,
        ArithCmpOp::GtOp => a > b,
        ArithCmpOp::GteOp => a >= b,
        ArithCmpOp::ArithEqOp => a == b,
        ArithCmpOp::ArithNeqOp => a != b,
    }
}

/// Evaluates an arithmetic tree: both operands of every operator, left
/// first. Fails with `DivisionByZero` when a divisor evaluates to 0.
pub fn eval_arith_expr(arith_expr: ArithExpr) -> (r: Result<i64, EvalError>)
    ensures
        r == arith_outcome(arith_expr),
    decreases arith_expr,
{
    match arith_expr {
        ArithExpr::BinArithExpr { left, right, op } => {
            let a = match eval_arith_expr(*left) {
                Ok(a) => a,
                Err(err) => return Err(err),
            };
            let b = match eval_arith_expr(*right) {
                Ok(b) => b,
                Err(err) => return Err(err),
            };
            apply_arith(op, a, b)
        },
        ArithExpr::IntLit(num) => Ok(num),
    }
}

/// Evaluates a boolean tree. `And` skips its right operand when the left
/// one is false, `Or` when it is true; comparisons, `BoolEq` and `BoolNeq`
/// evaluate both operands, left first. A division by zero anywhere that is
/// evaluated fails the whole evaluation.
pub fn eval_bool_expr(bool_expr: BoolExpr) -> (r: Result<bool, EvalError>)
    ensures
        r == bool_outcome(bool_expr),
    decreases bool_expr,
{
    match bool_expr {
        BoolExpr::ArithCmpExpr { left, right, op } => {
            let a = match eval_arith_expr(*left) {
                Ok(a) => a,
                Err(err) => return Err(err),
            };
            let b = match eval_arith_expr(*right) {
                Ok(b) => b,
                Err(err) => return Err(err),
            };
            Ok(apply_compare(op, a, b))
        },
        BoolExpr::BinBoolExpr { left, right, op } => {
            let a = match eval_bool_expr(*left) {
                Ok(a) => a,
                Err(err) => return Err(err),
            };
            match op {
                BinLogicOp::AndOp => if a { eval_bool_expr(*right) } else { Ok(false) },
                BinLogicOp::OrOp => if a { Ok(true) } else { eval_bool_expr(*right) },
                BinLogicOp::BoolEqOp => match eval_bool_expr(*right) {
                    Ok(b) => Ok(a == b),
                    Err(err) => Err(err),
                },
                BinLogicOp::BoolNeqOp => match eval_bool_expr(*right) {
                    Ok(b) => Ok(a != b),
                    Err(err) => Err(err),
                },
            }
        },
        BoolExpr::NotExpr(expr) => match eval_bool_expr(*expr) {
            Ok(b) => Ok(!b),
            Err(err) => Err(err),
        },
        BoolExpr::BoolLit(val) => Ok(val),
    }
}

/// Evaluates an expression of either sort and tags the result with it.
pub fn eval(expr: Expr) -> (r: Result<Value, EvalError>)
    ensures
        r == expr_outcome(expr),
{
    match expr {
        Expr::ArithExpr(arith_expr) => match eval_arith_expr(arith_expr) {
            Ok(n) => Ok(Value::IntValue(n)),
            Err(err) => Err(err),
        },
        Expr::BoolExpr(bool_expr) => match eval_bool_expr(bool_expr) {
            Ok(b) => Ok(Value::BoolValue(b)),
            Err(err) => Err(err),
        },
    }
}

} // verus!
