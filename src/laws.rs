use vstd::prelude::*;
use crate::ast::{Block, Expr, ExprKind, LitIntType, LitKind, Stmt, StmtKind};
use crate::lint::{lint_result, MatchResult};

verus! {

/// True when `s` is the trailing expression `value` written with `suffix`.
pub open spec fn is_literal_stmt(s: Stmt, value: u128, suffix: LitIntType) -> bool {
    &&& s.kind matches StmtKind::Expr(inner)
    &&& inner.kind == ExprKind::Lit(LitKind::Int(value, suffix))
}

/// True when `b` is exactly `{ value }`, the literal written with `suffix`.
pub open spec fn is_literal_block(b: Block, value: u128, suffix: LitIntType) -> bool {
    &&& b.stmts@.len() == 1
    &&& is_literal_stmt(b.stmts@[0], value, suffix)
}

/// True when `e` is an `if` whose then block is exactly `{ v1 }` (suffix `s1`)
/// and whose else part is the plain block `{ v0 }` (suffix `s0`).
pub open spec fn is_if_of_literals(
    e: Expr,
    v1: u128,
    s1: LitIntType,
    v0: u128,
    s0: LitIntType,
) -> bool {
    &&& e.kind matches ExprKind::If(_, then_block, Some(else_expr))
    &&& is_literal_block(then_block, v1, s1)
    &&& else_expr.kind matches ExprKind::Block(else_block)
    &&& is_literal_block(else_block, v0, s0)
}

/// `if cond { 1 } else { 0 }` written in the source matches, whatever the
/// condition and the literals' suffixes; the suggested type is the suffix on
/// the `1`, or else the one on the `0`.
pub proof fn lemma_one_zero_matches(e: Expr, s1: LitIntType, s0: LitIntType)
    requires
        !e.from_expansion,
        is_if_of_literals(e, 1, s1, 0, s0),
    ensures
        lint_result(e) == (MatchResult::Match {
            int_type: if s1 != LitIntType::Unsuffixed { s1 } else { s0 },
        }),
{
}

/// An expression produced by a macro expansion never matches, whatever it holds.
pub proof fn lemma_expansion_never_matches(e: Expr)
    requires
        e.from_expansion,
    ensures
        lint_result(e) == MatchResult::NoMatch,
{
}

/// An `if` without an else part never matches.
pub proof fn lemma_missing_else_never_matches(e: Expr)
    requires
        e.kind matches ExprKind::If(_, _, None),
    ensures
        lint_result(e) == MatchResult::NoMatch,
{
}

/// An `if` followed by `else if` never matches.
pub proof fn lemma_else_if_never_matches(e: Expr)
    requires
        e.kind matches ExprKind::If(_, _, Some(else_expr)) && else_expr.kind is If,
    ensures
        lint_result(e) == MatchResult::NoMatch,
{
}

/// A then block that is a single integer literal other than `1` never matches.
pub proof fn lemma_then_not_one_never_matches(e: Expr, v: u128, s: LitIntType)
    requires
        e.kind matches ExprKind::If(_, then_block, _) && is_literal_block(then_block, v, s),
        v != 1,
    ensures
        lint_result(e) == MatchResult::NoMatch,
{
}

/// An else block that is a single integer literal other than `0` never matches.
pub proof fn lemma_else_not_zero_never_matches(e: Expr, v: u128, s: LitIntType)
    requires
        e.kind matches ExprKind::If(_, _, Some(else_expr)) && else_expr.kind matches ExprKind::Block(
            else_block,
        ) && is_literal_block(else_block, v, s),
        v != 0,
    ensures
        lint_result(e) == MatchResult::NoMatch,
{
}

/// `if cond { 0 } else { 1 }` never matches: it computes the negated condition.
pub proof fn lemma_swapped_never_matches(e: Expr, s1: LitIntType, s0: LitIntType)
    requires
        is_if_of_literals(e, 0, s1, 1, s0),
    ensures
        lint_result(e) == MatchResult::NoMatch,
{
}

/// A then block holding the literal `1` followed by any other statement never
/// matches: the block must hold the literal alone.
pub proof fn lemma_then_extra_statement_never_matches(e: Expr, s: LitIntType)
    requires
        e.kind matches ExprKind::If(_, then_block, _) && then_block.stmts@.len() == 2
            && is_literal_stmt(then_block.stmts@[0], 1, s),
    ensures
        lint_result(e) == MatchResult::NoMatch,
{
}

/// An else block holding the literal `0` followed by any other statement never
/// matches.
pub proof fn lemma_else_extra_statement_never_matches(e: Expr, s: LitIntType)
    requires
        e.kind matches ExprKind::If(_, _, Some(else_expr)) && else_expr.kind matches ExprKind::Block(
            else_block,
        ) && else_block.stmts@.len() == 2 && is_literal_stmt(else_block.stmts@[0], 0, s),
    ensures
        lint_result(e) == MatchResult::NoMatch,
{
}

/// Two `if` expressions of single literals that differ only in the literals'
/// suffixes (and in their conditions) either both match or both do not.
pub proof fn lemma_suffix_does_not_matter(
    e1: Expr,
    e2: Expr,
    v1: u128,
    v0: u128,
    s1: LitIntType,
    s0: LitIntType,
    t1: LitIntType,
    t0: LitIntType,
)
    requires
        e1.from_expansion == e2.from_expansion,
        is_if_of_literals(e1, v1, s1, v0, s0),
        is_if_of_literals(e2, v1, t1, v0, t0),
    ensures
        (lint_result(e1) is Match) == (lint_result(e2) is Match),
{
}

} // verus!
