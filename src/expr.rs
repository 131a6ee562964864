//! The expression trees and the values they evaluate to.
use vstd::prelude::*;

verus! {

/// A generic expression: exactly one of the two sorts.
pub enum Expr {
    ArithExpr(ArithExpr),
    BoolExpr(BoolExpr),
}

/// An arithmetic expression, evaluating to an `i64`.
pub enum ArithExpr {
    BinArithExpr { left: Box<ArithExpr>, right: Box<ArithExpr>, op: BinArithOp },
    IntLit(i64),
}

/// A boolean expression; comparisons embed arithmetic operands.
#[allow(inconsistent_fields)]
pub enum BoolExpr {
    ArithCmpExpr { left: Box<ArithExpr>, right: Box<ArithExpr>, op: ArithCmpOp },
    BinBoolExpr { left: Box<BoolExpr>, right: Box<BoolExpr>, op: BinLogicOp },
    NotExpr(Box<BoolExpr>),
    BoolLit(bool),
}

#[derive(Clone, Copy, Debug, PartialEq, Eq, Structural)]
pub enum BinArithOp {
    AddOp,
    SubOp,
    MulOp,
    IntDivOp,
}

#[derive(Clone, Copy, Debug, PartialEq, Eq, Structural)]
pub enum ArithCmpOp {
    LtOp,
    LteOp,
    GtOp,
    GteOp,
    ArithEqOp,
    ArithNeqOp,
}

#[derive(Clone, Copy, Debug, PartialEq, Eq, Structural)]
pub enum BinLogicOp {
    AndOp,
    OrOp,
    BoolEqOp,
    BoolNeqOp,
}

/// The result of a successful evaluation, tagged with its sort.
#[derive(Clone, Copy, Debug, PartialEq, Eq, Structural)]
pub enum Value {
    BoolValue(bool),
    IntValue(i64),
}

/// The one way an evaluation can fail; it aborts the whole evaluation.
#[derive(Clone, Copy, Debug, PartialEq, Eq, Structural)]
pub enum EvalError {
    DivisionByZero,
}

} // verus!
