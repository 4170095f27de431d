//! Arithmetic expression trees and their evaluator.
//!
//! A tree node carries its tag as a string: a decimal literal, one of the
//! symbolic constants `t` / `pi` / `e`, a unary function name, or a binary
//! operator. Evaluation at a parameter value is total: a missing child is
//! evaluated as 0.0 and an unknown tag yields a sentinel value, never a
//! failure.
use vstd::prelude::*;

use crate::fbits::{
    add_bits, sub_bits, mul_bits, div_bits, pow_bits, sin_bits, cos_bits, tan_bits, ln_bits,
    exp_bits, sqrt_bits, parse_bits, add64, sub64, mul64, div64, pow64, sin64, cos64, tan64, ln64,
    exp64, sqrt64, parse_number, ZERO_BITS, PI_BITS, EULER_BITS, SENTINEL_BITS,
};

verus! {

/// One node of an expression tree; children are absent for leaves and for the
/// unused side of a unary operator.
#[derive(Debug)]
pub struct TreeNode {
    pub val: String,
    pub left: Option<Box<TreeNode>>,
    pub right: Option<Box<TreeNode>>,
}

/// The operator or symbol a non-literal tag denotes.
#[derive(Debug, Clone, Copy, PartialEq, Eq, Structural)]
pub enum OpKind {
    Param,
    Pi,
    Euler,
    Sin,
    Cos,
    Tan,
    Ln,
    Exp,
    Sqrt,
    Plus,
    Minus,
    Times,
    Divide,
    Power,
    Unknown,
}

/// Classifies a tag that is not a numeric literal.
pub open spec fn op_of(s: Seq<char>) -> OpKind {
    if s == "t"@ {
        OpKind::Param
    } else if s == "pi"@ {
        OpKind::Pi
    } else if s == "e"@ {
        OpKind::Euler
    } else if s == "sin"@ {
        OpKind::Sin
    } else if s == "cos"@ {
        OpKind::Cos
    } else if s == "tan"@ {
        OpKind::Tan
    } else if s == "ln"@ {
        OpKind::Ln
    } else if s == "exp"@ {
        OpKind::Exp
    } else if s == "sqrt"@ {
        OpKind::Sqrt
    } else if s == "+"@ {
        OpKind::Plus
    } else if s == "-"@ {
        OpKind::Minus
    } else if s == "*"@ {
        OpKind::Times
    } else if s == "/"@ {
        OpKind::Divide
    } else if s == "**"@ {
        OpKind::Power
    } else {
        OpKind::Unknown
    }
}

/// Runtime classification of a tag, agreeing with `op_of` on its view.
pub fn op_kind(val: &String) -> (r: OpKind)
    ensures
        r == op_of(val@),
{
    if str_is(val, "t") {
        OpKind::Param
    } else if str_is(val, "pi") {
        OpKind::Pi
    } else if str_is(val, "e") {
        OpKind::Euler
    } else if str_is(val, "sin") {
        OpKind::Sin
    } else if str_is(val, "cos") {
        OpKind::Cos
    } else if str_is(val, "tan") {
        OpKind::Tan
    } else if str_is(val, "ln") {
        OpKind::Ln
    } else if str_is(val, "exp") {
        OpKind::Exp
    } else if str_is(val, "sqrt") {
        OpKind::Sqrt
    } else if str_is(val, "+") {
        OpKind::Plus
    } else if str_is(val, "-") {
        OpKind::Minus
    } else if str_is(val, "*") {
        OpKind::Times
    } else if str_is(val, "/") {
        OpKind::Divide
    } else if str_is(val, "**") {
        OpKind::Power
    } else {
        OpKind::Unknown
    }
}

/// Whether a string equals the given literal, by view.
pub(crate) fn str_is(val: &String, lit: &str) -> (r: bool)
    ensures
        r == (val@ == lit@),
{
    let s = String::from_str(lit);
    *val == s
}

/// The result of one operator applied to the already-evaluated child values
/// `l` and `r` at parameter `t`; unary functions consume only the left value,
/// and an unknown operator yields the sentinel.
pub open spec fn apply_op(op: OpKind, t: u64, l: u64, r: u64) -> u64 {
    match op {
        OpKind::Param => t,
        OpKind::Pi => PI_BITS,
        OpKind::Euler => EULER_BITS,
        OpKind::Sin => sin_bits(l),
        OpKind::Cos => cos_bits(l),
        OpKind::Tan => tan_bits(l),
        OpKind::Ln => ln_bits(l),
        OpKind::Exp => exp_bits(l),
        OpKind::Sqrt => sqrt_bits(l),
        OpKind::Plus => add_bits(l, r),
        OpKind::Minus => sub_bits(l, r),
        OpKind::Times => mul_bits(l, r),
        OpKind::Divide => div_bits(l, r),
        OpKind::Power => pow_bits(l, r),
        OpKind::Unknown => SENTINEL_BITS,
    }
}

/// The value of an expression tree at parameter `t`: a numeric-literal tag
/// denotes itself; otherwise both children are evaluated (0.0 when absent)
/// and the tag's operator is applied.
pub open spec fn eval_spec(node: TreeNode, t: u64) -> u64
    decreases node,
{
    match parse_bits(node.val@) {
        Some(b) => b,
        None => {
            let l = match node.left {
                Some(x) => eval_spec(*x, t),
                None => ZERO_BITS,
            };
            let r = match node.right {
                Some(x) => eval_spec(*x, t),
                None => ZERO_BITS,
            };
            apply_op(op_of(node.val@), t, l, r)
        },
    }
}

/// Evaluates an expression tree at parameter `v`. Total: never fails, for any
/// tree shape and any parameter.
pub fn eval(root: &TreeNode, v: u64) -> (r: u64)
    ensures
        r == eval_spec(*root, v),
    decreases *root,
{
    if let Some(b) = parse_number(&root.val) {
        return b;
    }
    let l = match &root.left {
        Some(x) => eval(&*x, v),
        None => ZERO_BITS,
    };
    let r = match &root.right {
        Some(x) => eval(&*x, v),
        None => ZERO_BITS,
    };
    match op_kind(&root.val) {
        OpKind::Param => v,
        OpKind::Pi => PI_BITS,
        OpKind::Euler => EULER_BITS,
        OpKind::Sin => sin64(l),
        OpKind::Cos => cos64(l),
        OpKind::Tan => tan64(l),
        OpKind::Ln => ln64(l),
        OpKind::Exp => exp64(l),
        OpKind::Sqrt => sqrt64(l),
        OpKind::Plus => add64(l, r),
        OpKind::Minus => sub64(l, r),
        OpKind::Times => mul64(l, r),
        OpKind::Divide => div64(l, r),
        OpKind::Power => pow64(l, r),
        OpKind::Unknown => SENTINEL_BITS,
    }
}

/// Law: evaluation is a pure function of the tree and the parameter. Any two
/// results meeting `eval`'s contract for the same tree and parameter are
/// bit-identical.
pub proof fn lemma_eval_deterministic(node: TreeNode, t: u64, r1: u64, r2: u64)
    requires
        r1 == eval_spec(node, t),
        r2 == eval_spec(node, t),
    ensures
        r1 == r2,
{
}

/// Law: a node whose tag is a numeric literal evaluates to that literal, for
/// any parameter value; in particular its value does not depend on `t`.
pub proof fn lemma_literal_eval(node: TreeNode, b: u64, t1: u64, t2: u64)
    requires
        parse_bits(node.val@) == Some(b),
    ensures
        eval_spec(node, t1) == b,
        eval_spec(node, t2) == b,
{
}

/// Law: a node whose tag neither parses as a number nor names a known
/// operator evaluates to the sentinel value, for any parameter and any
/// children.
pub proof fn lemma_unknown_tag_sentinel(node: TreeNode, t: u64)
    requires
        parse_bits(node.val@) is None,
        op_of(node.val@) == OpKind::Unknown,
    ensures
        eval_spec(node, t) == SENTINEL_BITS,
{
}

} // verus!
