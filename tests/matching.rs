use bool_to_int_with_if::ast::{Block, Expr, ExprKind, LitIntType, LitKind, Stmt, StmtKind};
use bool_to_int_with_if::lint::{check_literal, BoolToIntWithIf, MatchResult};

fn cond() -> Box<Expr> {
    Box::new(Expr::new(ExprKind::Path))
}

fn int_stmt(value: u128, suffix: LitIntType) -> Stmt {
    Stmt::new(StmtKind::Expr(Expr::new(ExprKind::Lit(LitKind::Int(value, suffix)))))
}

fn int_block(value: u128, suffix: LitIntType) -> Block {
    Block::new(vec![int_stmt(value, suffix)])
}

fn else_block(block: Block) -> Option<Box<Expr>> {
    Some(Box::new(Expr::new(ExprKind::Block(block))))
}

fn if_of(then_block: Block, else_expr: Option<Box<Expr>>) -> Expr {
    Expr::new(ExprKind::If(cond(), then_block, else_expr))
}

fn if_else(v1: u128, s1: LitIntType, v0: u128, s0: LitIntType) -> Expr {
    if_of(int_block(v1, s1), else_block(int_block(v0, s0)))
}

fn check(e: &Expr) -> MatchResult {
    BoolToIntWithIf::new().check_expr(e)
}

const U: LitIntType = LitIntType::Unsuffixed;

#[test]
fn one_else_zero_matches() {
    let e = if_else(1, U, 0, U);
    assert_eq!(check(&e), MatchResult::Match { int_type: U });
}

#[test]
fn one_else_two_does_not_match() {
    assert_eq!(check(&if_else(1, U, 2, U)), MatchResult::NoMatch);
}

#[test]
fn missing_else_does_not_match() {
    let e = if_of(int_block(1, U), None);
    assert_eq!(check(&e), MatchResult::NoMatch);
}

#[test]
fn swapped_literals_do_not_match() {
    assert_eq!(check(&if_else(0, U, 1, U)), MatchResult::NoMatch);
}

#[test]
fn macro_expanded_does_not_match() {
    let e = Expr::expanded(ExprKind::If(
        cond(),
        int_block(1, U),
        else_block(int_block(0, U)),
    ));
    assert_eq!(check(&e), MatchResult::NoMatch);
}

#[test]
fn suffixed_literal_matches_like_unsuffixed() {
    assert_eq!(
        check(&if_else(1, LitIntType::I64, 0, U)),
        MatchResult::Match { int_type: LitIntType::I64 }
    );
    assert_eq!(
        check(&if_else(1, U, 0, LitIntType::U8)),
        MatchResult::Match { int_type: LitIntType::U8 }
    );
    assert_eq!(
        check(&if_else(1, LitIntType::I32, 0, LitIntType::U8)),
        MatchResult::Match { int_type: LitIntType::I32 }
    );
}

#[test]
fn then_value_other_than_one_does_not_match() {
    assert_eq!(check(&if_else(2, U, 0, U)), MatchResult::NoMatch);
    assert_eq!(check(&if_else(u128::MAX, U, 0, U)), MatchResult::NoMatch);
}

#[test]
fn then_block_with_extra_statement_does_not_match() {
    let then_block = Block::new(vec![int_stmt(1, U), Stmt::new(StmtKind::Empty)]);
    let e = if_of(then_block, else_block(int_block(0, U)));
    assert_eq!(check(&e), MatchResult::NoMatch);
}

#[test]
fn else_block_with_extra_statement_does_not_match() {
    let else_stmts = Block::new(vec![int_stmt(0, U), Stmt::new(StmtKind::Empty)]);
    let e = if_of(int_block(1, U), else_block(else_stmts));
    assert_eq!(check(&e), MatchResult::NoMatch);
}

#[test]
fn else_if_does_not_match() {
    let inner = if_else(1, U, 0, U);
    let e = if_of(int_block(1, U), Some(Box::new(inner)));
    assert_eq!(check(&e), MatchResult::NoMatch);
}

#[test]
fn empty_blocks_do_not_match() {
    let e = if_of(Block::new(vec![]), else_block(Block::new(vec![])));
    assert_eq!(check(&e), MatchResult::NoMatch);
}

#[test]
fn literal_with_semicolon_does_not_match() {
    let then_stmt = Stmt::new(StmtKind::Semi(Expr::new(ExprKind::Lit(LitKind::Int(1, U)))));
    let e = if_of(Block::new(vec![then_stmt]), else_block(int_block(0, U)));
    assert_eq!(check(&e), MatchResult::NoMatch);
}

#[test]
fn non_integer_literals_do_not_match() {
    let float_block = Block::new(vec![Stmt::new(StmtKind::Expr(Expr::new(ExprKind::Lit(
        LitKind::Float,
    ))))]);
    let e = if_of(float_block, else_block(int_block(0, U)));
    assert_eq!(check(&e), MatchResult::NoMatch);
    let bool_block = Block::new(vec![Stmt::new(StmtKind::Expr(Expr::new(ExprKind::Lit(
        LitKind::Bool(true),
    ))))]);
    let e = if_of(int_block(1, U), else_block(bool_block));
    assert_eq!(check(&e), MatchResult::NoMatch);
}

#[test]
fn non_if_expression_does_not_match() {
    assert_eq!(check(&Expr::new(ExprKind::Path)), MatchResult::NoMatch);
    let block = Expr::new(ExprKind::Block(int_block(1, U)));
    assert_eq!(check(&block), MatchResult::NoMatch);
}

#[test]
fn check_literal_compares_value_alone() {
    assert!(check_literal(&int_block(1, U), 1));
    assert!(check_literal(&int_block(1, LitIntType::Usize), 1));
    assert!(!check_literal(&int_block(1, U), 0));
    assert!(check_literal(&int_block(0, U), 0));
    assert!(!check_literal(&Block::new(vec![int_stmt(1, U), int_stmt(1, U)]), 1));
    let local = Block::new(vec![Stmt::new(StmtKind::Local)]);
    assert!(!check_literal(&local, 1));
}
