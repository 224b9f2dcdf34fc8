use vstd::prelude::*;

verus! {

/// The suffix written on an integer literal, if any (`1_i64`, `0u8`, `1`).
#[derive(Clone, Copy, Debug, PartialEq, Eq, Structural)]
pub enum LitIntType {
    Unsuffixed,
    I8,
    I16,
    I32,
    I64,
    I128,
    Isize,
    U8,
    U16,
    U32,
    U64,
    U128,
    Usize,
}

/// The kinds of literal that may appear in an expression.
#[derive(Clone, Copy, Debug, PartialEq, Eq, Structural)]
pub enum LitKind {
    /// An integer literal: its value and its suffix.
    Int(u128, LitIntType),
    /// A floating-point literal; its digits play no part in the lint.
    Float,
    Bool(bool),
    Char(char),
    Str,
    Byte(u8),
}

/// An expression node, with the flag that tells whether it was produced by a
/// macro expansion rather than written in the source.
#[derive(Debug)]
pub struct Expr {
    pub kind: ExprKind,
    pub from_expansion: bool,
}

/// The kinds of expression the lint distinguishes; everything else is `Other`.
#[derive(Debug)]
pub enum ExprKind {
    Lit(LitKind),
    /// `if cond { then } else { else_expr }`; the else part is a block
    /// expression, or another `if` for an `else if` chain.
    If(Box<Expr>, Block, Option<Box<Expr>>),
    Block(Block),
    /// A path such as a variable name.
    Path,
    Other,
}

/// A statement of a block.
#[derive(Debug)]
pub struct Stmt {
    pub kind: StmtKind,
}

#[derive(Debug)]
pub enum StmtKind {
    /// A `let` binding.
    Local,
    /// An item declared inside a block.
    Item,
    /// A trailing expression, without a semicolon.
    Expr(Expr),
    /// An expression followed by a semicolon.
    Semi(Expr),
    /// A lone `;`.
    Empty,
    MacCall,
}

/// A braced sequence of statements.
#[derive(Debug)]
pub struct Block {
    pub stmts: Vec<Stmt>,
}

impl Expr {
    /// An expression written in the source (not from a macro expansion).
    pub fn new(kind: ExprKind) -> (r: Expr)
        ensures
            r.kind == kind,
            !r.from_expansion,
    {
        Expr { kind, from_expansion: false }
    }

    /// An expression produced by a macro expansion.
    pub fn expanded(kind: ExprKind) -> (r: Expr)
        ensures
            r.kind == kind,
            r.from_expansion,
    {
        Expr { kind, from_expansion: true }
    }
}

impl Stmt {
    pub fn new(kind: StmtKind) -> (r: Stmt)
        ensures
            r.kind == kind,
    {
        Stmt { kind }
    }
}

impl Block {
    pub fn new(stmts: Vec<Stmt>) -> (r: Block)
        ensures
            r.stmts@ == stmts@,
    {
        Block { stmts }
    }
}

} // verus!
