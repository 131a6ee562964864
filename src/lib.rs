//! Evaluation core of a two-sorted expression language: arithmetic over
//! 64-bit signed integers, and booleans that may embed arithmetic comparisons.
//!
//! Trees are evaluated strictly, left operand first, with short-circuiting
//! only for `And` and `Or`. Division by zero aborts the evaluation with
//! [`EvalError::DivisionByZero`]. Integer overflow wraps around in two's
//! complement (`i64::MIN / -1` gives `i64::MIN`).
pub mod expr;
pub mod semantics;
pub mod eval;
pub mod laws;

pub use expr::{ArithCmpOp, ArithExpr, BinArithOp, BinLogicOp, BoolExpr, EvalError, Expr, Value};
pub use eval::{eval, eval_arith_expr, eval_bool_expr};

