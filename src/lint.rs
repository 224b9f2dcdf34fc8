use vstd::prelude::*;
use crate::ast::{Block, Expr, ExprKind, LitIntType, LitKind, StmtKind};

verus! {

/// What the lint decides about one expression.
#[derive(Clone, Copy, Debug, PartialEq, Eq, Structural)]
pub enum MatchResult {
    /// Not an `if` that turns a boolean into `1` or `0`.
    NoMatch,
    /// The expression is `if cond { 1 } else { 0 }` and may be replaced by a
    /// conversion of `cond` into `int_type` (`int_type::from(cond)`, or
    /// `cond as int_type`); `Unsuffixed` leaves the type to inference.
    Match { int_type: LitIntType },
}

/// The lint pass: it holds no state of its own.
#[derive(Debug)]
pub struct BoolToIntWithIf;

/// True when `b` holds exactly one statement, a trailing expression that is an
/// integer literal of value `expected`, whatever its suffix.
pub open spec fn is_single_int_literal(b: Block, expected: u128) -> bool {
    &&& b.stmts@.len() == 1
    &&& b.stmts@[0].kind matches StmtKind::Expr(inner)
    &&& inner.kind matches ExprKind::Lit(LitKind::Int(value, _))
    &&& value == expected
}

/// Whether the single statement of `block` is the integer literal `expected`.
pub fn check_literal(block: &Block, expected: u128) -> (r: bool)
    ensures
        r == is_single_int_literal(*block, expected),
{
    if block.stmts.len() != 1 {
        return false;
    }
    match &block.stmts[0].kind {
        StmtKind::Expr(inner) => match &inner.kind {
            ExprKind::Lit(LitKind::Int(value, _)) => *value == expected,
            _ => false,
        },
        _ => false,
    }
}

/// True when the else part of an `if` is a plain block (not an `else if`)
/// that holds only the integer literal `expected`.
pub open spec fn is_else_literal(else_expr: Option<Box<Expr>>, expected: u128) -> bool {
    match else_expr {
        Some(e) => match e.kind {
            ExprKind::Block(b) => is_single_int_literal(b, expected),
            _ => false,
        },
        None => false,
    }
}

/// The suffix of the literal that a single-literal block holds.
pub open spec fn block_suffix(b: Block) -> LitIntType {
    match b.stmts@[0].kind {
        StmtKind::Expr(inner) => match inner.kind {
            ExprKind::Lit(LitKind::Int(_, suffix)) => suffix,
            _ => LitIntType::Unsuffixed,
        },
        _ => LitIntType::Unsuffixed,
    }
}

/// The integer type to convert into: the suffix written on the `1`, or else
/// the one written on the `0`.
pub open spec fn suggested_type(then_block: Block, else_expr: Option<Box<Expr>>) -> LitIntType {
    if block_suffix(then_block) != LitIntType::Unsuffixed {
        block_suffix(then_block)
    } else {
        match else_expr {
            Some(e) => match e.kind {
                ExprKind::Block(b) => block_suffix(b),
                _ => LitIntType::Unsuffixed,
            },
            None => LitIntType::Unsuffixed,
        }
    }
}

/// The decision on `e`: a match exactly when `e` is written in the source
/// (not produced by a macro), is an `if`, its then block is the single
/// literal `1` and its else part is a plain block holding the single literal `0`.
pub open spec fn lint_result(e: Expr) -> MatchResult {
    match e.kind {
        ExprKind::If(_, then_block, else_expr) => {
            if !e.from_expansion && is_single_int_literal(then_block, 1)
                && is_else_literal(else_expr, 0) {
                MatchResult::Match { int_type: suggested_type(then_block, else_expr) }
            } else {
                MatchResult::NoMatch
            }
        },
        _ => MatchResult::NoMatch,
    }
}

/// The suffix of the literal that `block` holds, given that it holds a single one.
fn literal_suffix(block: &Block) -> (r: LitIntType)
    requires
        block.stmts@.len() == 1,
    ensures
        r == block_suffix(*block),
{
    match &block.stmts[0].kind {
        StmtKind::Expr(inner) => match &inner.kind {
            ExprKind::Lit(LitKind::Int(_, suffix)) => *suffix,
            _ => LitIntType::Unsuffixed,
        },
        _ => LitIntType::Unsuffixed,
    }
}

impl BoolToIntWithIf {
    pub fn new() -> (r: BoolToIntWithIf) {
        BoolToIntWithIf
    }

    /// Inspects one expression and says whether it is an `if` that only turns
    /// its condition into `1` or `0`.
    pub fn check_expr(&mut self, expr: &Expr) -> (r: MatchResult)
        ensures
            r == lint_result(*expr),
            *final(self) == *old(self),
    {
        if expr.from_expansion {
            return MatchResult::NoMatch;
        }
        match &expr.kind {
            ExprKind::If(_, block, else_expr) => {
                let if_block_matches = check_literal(block, 1);
                let else_block_matches = match else_expr {
                    Some(e) => match &e.kind {
                        ExprKind::Block(else_block) => check_literal(else_block, 0),
                        _ => false,
                    },
                    None => false,
                };
                if if_block_matches && else_block_matches {
                    let then_suffix = literal_suffix(block);
                    let int_type = if then_suffix != LitIntType::Unsuffixed {
                        then_suffix
                    } else {
                        match else_expr {
                            Some(e) => match &e.kind {
                                ExprKind::Block(else_block) => literal_suffix(else_block),
                                _ => LitIntType::Unsuffixed,
                            },
                            None => LitIntType::Unsuffixed,
                        }
                    };
                    MatchResult::Match { int_type }
                } else {
                    MatchResult::NoMatch
                }
            },
            _ => MatchResult::NoMatch,
        }
    }
}

} // verus!
