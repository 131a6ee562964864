//! Properties that hold of every expression tree.
use vstd::prelude::*;
use crate::expr::{ArithCmpOp, ArithExpr, BinArithOp, BinLogicOp, BoolExpr, EvalError, Expr, Value};
use crate::semantics::{arith_outcome, bool_outcome, expr_outcome};

verus! {

/// Evaluation is deterministic: equal trees have the same outcome, so `eval`,
/// whose result is exactly `expr_outcome`, returns the same on each of them.
pub proof fn lemma_eval_deterministic(a: Expr, b: Expr)
    requires
        a == b,
    ensures
        expr_outcome(a) == expr_outcome(b),
{
}

/// Evaluation keeps to the sort of the expression: an arithmetic expression
/// never yields a boolean and a boolean expression never yields an integer.
pub proof fn lemma_eval_keeps_sort(e: Expr)
    ensures
        expr_outcome(e) matches Ok(v) ==> match e {
            Expr::ArithExpr(_) => v is IntValue,
            Expr::BoolExpr(_) => v is BoolValue,
        },
{
}

/// `And` with a false left operand is false, whatever its right operand
/// would do, a division by zero included: the right operand is not evaluated.
pub proof fn lemma_and_short_circuits(left: BoolExpr, right: BoolExpr)
    requires
        bool_outcome(left) == Ok::<bool, EvalError>(false),
    ensures
        bool_outcome(BoolExpr::BinBoolExpr { left: Box::new(left), right: Box::new(right), op: BinLogicOp::AndOp })
            == Ok::<bool, EvalError>(false),
{
}

/// `Or` with a true left operand is true, whatever its right operand would
/// do, a division by zero included: the right operand is not evaluated.
pub proof fn lemma_or_short_circuits(left: BoolExpr, right: BoolExpr)
    requires
        bool_outcome(left) == Ok::<bool, EvalError>(true),
    ensures
        bool_outcome(BoolExpr::BinBoolExpr { left: Box::new(left), right: Box::new(right), op: BinLogicOp::OrOp })
            == Ok::<bool, EvalError>(true),
{
}

/// `BoolEq` and `BoolNeq` always evaluate their right operand: when it fails,
/// the whole expression fails, whatever the left operand is.
pub proof fn lemma_bool_equality_is_strict(left: BoolExpr, right: BoolExpr, op: BinLogicOp)
    requires
        op is BoolEqOp || op is BoolNeqOp,
        bool_outcome(right) is Err,
    ensures
        bool_outcome(BoolExpr::BinBoolExpr { left: Box::new(left), right: Box::new(right), op }) is Err,
{
}

/// Every comparison evaluates both arithmetic operands: when the right one
/// fails, the comparison fails, whatever the left one is.
pub proof fn lemma_comparison_is_strict(left: ArithExpr, right: ArithExpr, op: ArithCmpOp)
    requires
        arith_outcome(right) is Err,
    ensures
        bool_outcome(BoolExpr::ArithCmpExpr { left: Box::new(left), right: Box::new(right), op }) is Err,
{
}

/// Dividing anything by the literal 0 fails with `DivisionByZero` and yields
/// no value.
pub proof fn lemma_division_by_zero_is_fatal(left: ArithExpr)
    ensures
        arith_outcome(ArithExpr::BinArithExpr { left: Box::new(left), right: Box::new(ArithExpr::IntLit(0)), op: BinArithOp::IntDivOp })
            == Err::<i64, EvalError>(EvalError::DivisionByZero),
        expr_outcome(Expr::ArithExpr(ArithExpr::BinArithExpr { left: Box::new(left), right: Box::new(ArithExpr::IntLit(0)), op: BinArithOp::IntDivOp }))
            == Err::<Value, EvalError>(EvalError::DivisionByZero),
{
    reveal_with_fuel(arith_outcome, 2);
    match arith_outcome(left) {
        Err(err) => assert(err is DivisionByZero),
        Ok(_) => {},
    }
}

} // verus!
