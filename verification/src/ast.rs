//! The abstract syntax taxonomy the documentation generator works over.
//!
//! A parser front-end lowers its own tree into these types. Every node kind
//! the generator understands has a variant of its own; everything else is
//! carried as an `Other` node holding a structural dump of the original,
//! so the generator is total over arbitrary input trees.

use vstd::prelude::*;

verus! {

/// An annotation (or, generally, value) expression.
///
/// String-literal expressions keep both their text (`value`, read by the
/// docstring extractor) and the front-end's structural dump (`dump`, used by
/// the stringifier's fallback branch). `Other` keeps only a dump.
#[allow(inconsistent_fields)]
pub enum Expr {
    Name { id: String },
    Attribute { value: Box<Expr>, attr: String },
    Subscript { value: Box<Expr>, slice: Box<Expr> },
    List { elts: Vec<Expr> },
    Tuple { elts: Vec<Expr> },
    Call { func: Box<Expr>, args: Vec<Expr> },
    BinOp { left: Box<Expr>, right: Box<Expr> },
    StrLit { value: String, dump: String },
    Other { dump: String },
}

/// A statement of the bounded grammar the reconstructor supports.
///
/// `Other` is the explicit fallback case: any statement kind outside the
/// grammar arrives as its structural dump and is rendered as a placeholder
/// comment line.
#[allow(inconsistent_fields)]
pub enum Stmt {
    ExprStmt { value: Expr },
    Pass,
    Return { value: Option<Expr> },
    If { test: Expr, body: Vec<Stmt>, orelse: Vec<Stmt> },
    Assign { targets: Vec<Expr>, value: Expr },
    AugAssign { target: Expr, op: String, value: Expr },
    For { target: Expr, iterable: Expr, body: Vec<Stmt> },
    While { test: Expr, body: Vec<Stmt> },
    Raise { exc: Option<Expr> },
    Other { dump: String },
}

/// One positional or keyword-only parameter: a name and an optional
/// annotation expression.
pub struct Param {
    pub name: String,
    pub annotation: Option<Expr>,
}

/// A function's parameter list.
///
/// `defaults` holds the literal text of the default expressions for the
/// trailing positional parameters, in order: with `n` parameters and `d`
/// defaults, parameter `i` owns default `i - (n - d)` when `i >= n - d`.
/// Keyword-only defaults are not carried; the table builder renders
/// keyword-only parameters as required.
pub struct Arguments {
    pub args: Vec<Param>,
    pub defaults: Vec<String>,
    pub kwonlyargs: Vec<Param>,
}

/// A function (or method) declaration.
pub struct FunctionDef {
    pub name: String,
    pub decorators: Vec<Expr>,
    pub args: Arguments,
    pub returns: Option<Expr>,
    pub body: Vec<Stmt>,
}

/// A class declaration; its body reuses the top-level statement taxonomy.
pub struct ClassDef {
    pub name: String,
    pub body: Vec<TopStmt>,
}

/// A statement as it appears at module (or class-body) level.
pub enum TopStmt {
    Func(FunctionDef),
    Class(ClassDef),
    Simple(Stmt),
}

/// A well-formed expression tree: identifiers are non-empty (as every
/// parsed Python identifier is) and fallback nodes carry a non-empty
/// structural dump. The stringifier maps such trees to non-empty text.
pub open spec fn expr_wf(e: Expr) -> bool
    decreases e, 0int,
{
    match e {
        Expr::Name { id } => id@.len() > 0,
        Expr::Attribute { value, attr: _ } => expr_wf(*value),
        Expr::Subscript { value, slice } => expr_wf(*value) && expr_wf(*slice),
        Expr::List { elts } => exprs_wf(elts@),
        Expr::Tuple { elts } => exprs_wf(elts@),
        Expr::Call { func, args } => expr_wf(*func) && exprs_wf(args@),
        Expr::BinOp { left, right } => expr_wf(*left) && expr_wf(*right),
        Expr::StrLit { value: _, dump } => dump@.len() > 0,
        Expr::Other { dump } => dump@.len() > 0,
    }
}

pub open spec fn exprs_wf(elems: Seq<Expr>) -> bool
    decreases elems, 1int,
{
    forall|i: int| 0 <= i < elems.len() ==> expr_wf(#[trigger] elems[i])
}

/// The defaults of a parameter list can be aligned against its trailing
/// positional parameters: there are no more defaults than parameters.
/// The front-end parser guarantees this shape; the builders require it.
pub open spec fn args_wf(a: Arguments) -> bool {
    a.defaults@.len() <= a.args@.len()
}

pub open spec fn fn_wf(f: FunctionDef) -> bool {
    args_wf(f.args)
}

/// Every function declaration in a top-level statement has an alignable
/// parameter list.
pub open spec fn top_stmt_wf(t: TopStmt) -> bool
    decreases t, 0int,
{
    match t {
        TopStmt::Func(f) => fn_wf(f),
        TopStmt::Class(c) => tops_wf(c.body@),
        TopStmt::Simple(_) => true,
    }
}

pub open spec fn tops_wf(body: Seq<TopStmt>) -> bool
    decreases body, 1int,
{
    forall|i: int| 0 <= i < body.len() ==> top_stmt_wf(#[trigger] body[i])
}

} // verus!
