//! The syntax tree shared by the parser and the evaluator.
//!
//! Each type of the tree has a view, which holds sequences where the tree
//! holds vectors and strings. Contracts speak of views.

use vstd::prelude::*;

verus! {

/// A module: its statements in order.
pub type AST = Vec<ASTStmt>;

/// A name.
pub type ASTIdentifier = String;

/// A parameter of a function.
pub type ASTArg = ASTIdentifier;

/// The parameters of a function.
pub type ASTArguments = Vec<ASTArg>;

/// The two short-circuiting connectives.
#[derive(Debug, PartialEq, Eq, Clone, Copy, Structural)]
pub enum ASTBoolOp {
    And,
    Or,
}

/// The binary operators.
#[derive(Debug, PartialEq, Eq, Clone, Copy, Structural)]
pub enum ASTOperator {
    Add,
    Sub,
    Mul,
    Div,
    Mod,
    LShift,
    RShift,
    BitOr,
    BitXor,
    BitAnd,
}

/// The unary operators.
#[derive(Debug, PartialEq, Eq, Clone, Copy, Structural)]
pub enum ASTUnaryOp {
    Invert,
    Not,
    UAdd,
    USub,
}

/// The comparison operators.
#[derive(Debug, PartialEq, Eq, Clone, Copy, Structural)]
pub enum ASTCmpOp {
    Eq,
    NotEq,
    Lt,
    LtE,
    Gt,
    GtE,
    Is,
    IsNot,
    In,
    NotIn,
}

/// A literal. A float is kept as its digits, as written.
#[derive(Debug, PartialEq)]
pub enum ASTConstant {
    Int(
        i64,
    ),
    Float(
        String,
    ),
    String(
        String,
    ),
    NoneValue,
    True,
    False,
}

/// A statement.
#[derive(Debug, PartialEq)]
pub enum ASTStmt {
    FuncDef(
        /// name
        String,
        /// parameters
        Vec<ASTIdentifier>,
        /// body
        Vec<ASTStmt>,
    ),
    Return(
        /// value
        Option<ASTExpr>,
    ),
    Delete(
        /// targets
        Vec<ASTExpr>,
    ),
    Assign(
        /// targets
        Vec<ASTExpr>,
        /// value
        ASTExpr,
    ),
    For(
        /// target
        ASTExpr,
        /// iterable
        ASTExpr,
        /// body
        Vec<ASTStmt>,
    ),
    While(
        /// test
        ASTExpr,
        /// body
        Vec<ASTStmt>,
    ),
    If(
        /// test
        ASTExpr,
        /// body
        Vec<ASTStmt>,
        /// orelse
        Vec<ASTStmt>,
    ),
    Global(
        /// names
        Vec<ASTIdentifier>,
    ),
    Expr(
        /// value
        ASTExpr,
    ),
    Pass,
    Break,
    Continue,
}

/// An expression.
#[derive(Debug, PartialEq)]
pub enum ASTExpr {
    BoolOp(
        /// connective
        ASTBoolOp,
        /// operands
        Vec<ASTExpr>,
    ),
    BinOp(
        /// left
        Box<ASTExpr>,
        /// operator
        ASTOperator,
        /// right
        Box<ASTExpr>,
    ),
    UnaryOp(
        /// operator
        ASTUnaryOp,
        /// operand
        Box<ASTExpr>,
    ),
    IfExp(
        /// test
        Box<ASTExpr>,
        /// body
        Box<ASTExpr>,
        /// orelse
        Box<ASTExpr>,
    ),
    Dict(
        /// keys
        Vec<ASTExpr>,
        /// values, as many as keys
        Vec<ASTExpr>,
    ),
    SetDisplay(
        /// elements
        Vec<ASTExpr>,
    ),
    Compare(
        /// left
        Box<ASTExpr>,
        /// operators
        Vec<ASTCmpOp>,
        /// comparators, as many as operators
        Vec<ASTExpr>,
    ),
    Call(
        /// callee
        Box<ASTExpr>,
        /// arguments
        Vec<ASTExpr>,
    ),
    Constant(
        /// value
        ASTConstant,
    ),
    Subscript(
        /// value
        Box<ASTExpr>,
        /// slice
        ASTSlice,
    ),
    Name(
        /// identifier
        String,
    ),
    List(
        /// elements
        Vec<ASTExpr>,
    ),
    Tuple(
        /// elements
        Vec<ASTExpr>,
    ),
    Starred(
        /// value
        Box<ASTExpr>,
    ),
}

/// What stands between the brackets of a subscript.
#[derive(Debug, PartialEq)]
pub enum ASTSlice {
    Slice(
        /// lower
        Option<Box<ASTExpr>>,
        /// upper
        Option<Box<ASTExpr>>,
        /// step
        Option<Box<ASTExpr>>,
    ),
    Index(
        /// value
        Box<ASTExpr>,
    ),
}

/// A literal as contracts see it.
pub enum ConstantV {
    Int(
        int,
    ),
    Float(
        Seq<char>,
    ),
    String(
        Seq<char>,
    ),
    NoneValue,
    True,
    False,
}

/// A statement as contracts see it.
pub enum StmtV {
    FuncDef(
        /// name
        Seq<char>,
        /// parameters
        Seq<Seq<char>>,
        /// body
        Seq<StmtV>,
    ),
    Return(
        /// value
        Option<ExprV>,
    ),
    Delete(
        /// targets
        Seq<ExprV>,
    ),
    Assign(
        /// targets
        Seq<ExprV>,
        /// value
        ExprV,
    ),
    For(
        /// target
        ExprV,
        /// iterable
        ExprV,
        /// body
        Seq<StmtV>,
    ),
    While(
        /// test
        ExprV,
        /// body
        Seq<StmtV>,
    ),
    If(
        /// test
        ExprV,
        /// body
        Seq<StmtV>,
        /// orelse
        Seq<StmtV>,
    ),
    Global(
        /// names
        Seq<Seq<char>>,
    ),
    Expr(
        /// value
        ExprV,
    ),
    Pass,
    Break,
    Continue,
}

/// An expression as contracts see it.
pub enum ExprV {
    BoolOp(
        /// connective
        ASTBoolOp,
        /// operands
        Seq<ExprV>,
    ),
    BinOp(
        /// left
        Box<ExprV>,
        /// operator
        ASTOperator,
        /// right
        Box<ExprV>,
    ),
    UnaryOp(
        /// operator
        ASTUnaryOp,
        /// operand
        Box<ExprV>,
    ),
    IfExp(
        /// test
        Box<ExprV>,
        /// body
        Box<ExprV>,
        /// orelse
        Box<ExprV>,
    ),
    Dict(
        /// keys
        Seq<ExprV>,
        /// values, as many as keys
        Seq<ExprV>,
    ),
    SetDisplay(
        /// elements
        Seq<ExprV>,
    ),
    Compare(
        /// left
        Box<ExprV>,
        /// operators
        Seq<ASTCmpOp>,
        /// comparators, as many as operators
        Seq<ExprV>,
    ),
    Call(
        /// callee
        Box<ExprV>,
        /// arguments
        Seq<ExprV>,
    ),
    Constant(
        /// value
        ConstantV,
    ),
    Subscript(
        /// value
        Box<ExprV>,
        /// slice
        SliceV,
    ),
    Name(
        /// identifier
        Seq<char>,
    ),
    List(
        /// elements
        Seq<ExprV>,
    ),
    Tuple(
        /// elements
        Seq<ExprV>,
    ),
    Starred(
        /// value
        Box<ExprV>,
    ),
}

/// A subscript as contracts see it.
pub enum SliceV {
    Slice(
        /// lower
        Option<Box<ExprV>>,
        /// upper
        Option<Box<ExprV>>,
        /// step
        Option<Box<ExprV>>,
    ),
    Index(
        /// value
        Box<ExprV>,
    ),
}

/// The views of a run of names.
#[verifier::opaque]
pub open spec fn names_view(names: Seq<String>) -> Seq<Seq<char>> {
    Seq::new(names.len(), |i: int| names[i]@)
}

/// The view of a literal.
pub open spec fn constant_view(x: ASTConstant) -> ConstantV
{
    match x {
        ASTConstant::Int(a0) => ConstantV::Int(a0 as int),
        ASTConstant::Float(a0) => ConstantV::Float(a0@),
        ASTConstant::String(a0) => ConstantV::String(a0@),
        ASTConstant::NoneValue => ConstantV::NoneValue,
        ASTConstant::True => ConstantV::True,
        ASTConstant::False => ConstantV::False,
    }
}

/// The views of a run of expressions.
#[verifier::opaque]
pub open spec fn exprs_view(x: Seq<ASTExpr>) -> Seq<ExprV>
    decreases x,
{
    Seq::new(
        x.len(),
        |i: int|
            if 0 <= i < x.len() {
                expr_view(x[i])
            } else {
                arbitrary()
            },
    )
}

#[verifier::opaque]
pub open spec fn expr_view(x: ASTExpr) -> ExprV
    decreases x,
{
    match x {
        ASTExpr::BoolOp(a0, a1) => ExprV::BoolOp(a0, exprs_view(a1@)),
        ASTExpr::BinOp(a0, a1, a2) => ExprV::BinOp(Box::new(expr_view(*a0)), a1, Box::new(expr_view(*a2))),
        ASTExpr::UnaryOp(a0, a1) => ExprV::UnaryOp(a0, Box::new(expr_view(*a1))),
        ASTExpr::IfExp(a0, a1, a2) => ExprV::IfExp(Box::new(expr_view(*a0)), Box::new(expr_view(*a1)), Box::new(expr_view(*a2))),
        ASTExpr::Dict(a0, a1) => ExprV::Dict(exprs_view(a0@), exprs_view(a1@)),
        ASTExpr::SetDisplay(a0) => ExprV::SetDisplay(exprs_view(a0@)),
        ASTExpr::Compare(a0, a1, a2) => ExprV::Compare(Box::new(expr_view(*a0)), a1@, exprs_view(a2@)),
        ASTExpr::Call(a0, a1) => ExprV::Call(Box::new(expr_view(*a0)), exprs_view(a1@)),
        ASTExpr::Constant(a0) => ExprV::Constant(constant_view(a0)),
        ASTExpr::Subscript(a0, a1) => ExprV::Subscript(Box::new(expr_view(*a0)), slice_view(a1)),
        ASTExpr::Name(a0) => ExprV::Name(a0@),
        ASTExpr::List(a0) => ExprV::List(exprs_view(a0@)),
        ASTExpr::Tuple(a0) => ExprV::Tuple(exprs_view(a0@)),
        ASTExpr::Starred(a0) => ExprV::Starred(Box::new(expr_view(*a0))),
    }
}

#[verifier::opaque]
pub open spec fn slice_view(x: ASTSlice) -> SliceV
    decreases x,
{
    match x {
        ASTSlice::Slice(a0, a1, a2) => SliceV::Slice(match a0 { Some(e) => Some(Box::new(expr_view(*e))), None => None }, match a1 { Some(e) => Some(Box::new(expr_view(*e))), None => None }, match a2 { Some(e) => Some(Box::new(expr_view(*e))), None => None }),
        ASTSlice::Index(a0) => SliceV::Index(Box::new(expr_view(*a0))),
    }
}

/// The views of a run of statements.
#[verifier::opaque]
pub open spec fn stmts_view(x: Seq<ASTStmt>) -> Seq<StmtV>
    decreases x,
{
    Seq::new(
        x.len(),
        |i: int|
            if 0 <= i < x.len() {
                stmt_view(x[i])
            } else {
                arbitrary()
            },
    )
}

#[verifier::opaque]
pub open spec fn stmt_view(x: ASTStmt) -> StmtV
    decreases x,
{
    match x {
        ASTStmt::FuncDef(a0, a1, a2) => StmtV::FuncDef(a0@, names_view(a1@), stmts_view(a2@)),
        ASTStmt::Return(a0) => StmtV::Return(match a0 { Some(e) => Some(expr_view(e)), None => None }),
        ASTStmt::Delete(a0) => StmtV::Delete(exprs_view(a0@)),
        ASTStmt::Assign(a0, a1) => StmtV::Assign(exprs_view(a0@), expr_view(a1)),
        ASTStmt::For(a0, a1, a2) => StmtV::For(expr_view(a0), expr_view(a1), stmts_view(a2@)),
        ASTStmt::While(a0, a1) => StmtV::While(expr_view(a0), stmts_view(a1@)),
        ASTStmt::If(a0, a1, a2) => StmtV::If(expr_view(a0), stmts_view(a1@), stmts_view(a2@)),
        ASTStmt::Global(a0) => StmtV::Global(names_view(a0@)),
        ASTStmt::Expr(a0) => StmtV::Expr(expr_view(a0)),
        ASTStmt::Pass => StmtV::Pass,
        ASTStmt::Break => StmtV::Break,
        ASTStmt::Continue => StmtV::Continue,
    }
}

impl View for ASTConstant {
    type V = ConstantV;

    open spec fn view(&self) -> ConstantV {
        constant_view(*self)
    }
}

impl View for ASTExpr {
    type V = ExprV;

    open spec fn view(&self) -> ExprV {
        expr_view(*self)
    }
}

impl View for ASTSlice {
    type V = SliceV;

    open spec fn view(&self) -> SliceV {
        slice_view(*self)
    }
}

impl View for ASTStmt {
    type V = StmtV;

    open spec fn view(&self) -> StmtV {
        stmt_view(*self)
    }
}

/// An owned copy of `x`.
pub fn clone_names(x: &Vec<String>) -> (r: Vec<String>)
    ensures
        names_view(r@) == names_view(x@),
{
    proof {
        reveal(names_view);
        reveal(exprs_view);
        reveal(expr_view);
        reveal(slice_view);
        reveal(stmts_view);
        reveal(stmt_view);
    }
    let mut r: Vec<String> = Vec::new();
    let mut i: usize = 0;
    while i < x.len()
        invariant
            i <= x.len(),
            r@.len() == i,
            forall|k: int| 0 <= k < i ==> r@[k]@ == x@[k]@,
        decreases x.len() - i,
    {
        r.push(x[i].clone());
        i = i + 1;
    }
    proof {
        reveal(names_view);
        reveal(exprs_view);
        reveal(expr_view);
        reveal(slice_view);
        reveal(stmts_view);
        reveal(stmt_view);
        assert(names_view(r@) =~= names_view(x@));
    }
    r
}

/// An owned copy of `x`.
pub fn clone_ops(x: &Vec<ASTCmpOp>) -> (r: Vec<ASTCmpOp>)
    ensures
        r@ == x@,
{
    proof {
        reveal(names_view);
        reveal(exprs_view);
        reveal(expr_view);
        reveal(slice_view);
        reveal(stmts_view);
        reveal(stmt_view);
    }
    let mut r: Vec<ASTCmpOp> = Vec::new();
    let mut i: usize = 0;
    while i < x.len()
        invariant
            i <= x.len(),
            r@.len() == i,
            forall|k: int| 0 <= k < i ==> r@[k] == x@[k],
        decreases x.len() - i,
    {
        r.push(x[i]);
        i = i + 1;
    }
    proof {
        reveal(names_view);
        reveal(exprs_view);
        reveal(expr_view);
        reveal(slice_view);
        reveal(stmts_view);
        reveal(stmt_view);
        assert(r@ =~= x@);
    }
    r
}

/// An owned copy of `x`.
pub fn clone_constant(x: &ASTConstant) -> (r: ASTConstant)
    ensures
        constant_view(r) == constant_view(*x),
{
    proof {
        reveal(names_view);
        reveal(exprs_view);
        reveal(expr_view);
        reveal(slice_view);
        reveal(stmts_view);
        reveal(stmt_view);
    }
    match x {
        ASTConstant::Int(a0) => ASTConstant::Int(*a0),
        ASTConstant::Float(a0) => ASTConstant::Float(a0.clone()),
        ASTConstant::String(a0) => ASTConstant::String(a0.clone()),
        ASTConstant::NoneValue => ASTConstant::NoneValue,
        ASTConstant::True => ASTConstant::True,
        ASTConstant::False => ASTConstant::False,
    }
}

/// An owned copy of `x`.
pub fn clone_exprs(x: &Vec<ASTExpr>) -> (r: Vec<ASTExpr>)
    ensures
        exprs_view(r@) == exprs_view(x@),
    decreases x,
{
    proof {
        reveal(names_view);
        reveal(exprs_view);
        reveal(expr_view);
        reveal(slice_view);
        reveal(stmts_view);
        reveal(stmt_view);
    }
    let mut r: Vec<ASTExpr> = Vec::new();
    let mut i: usize = 0;
    while i < x.len()
        invariant
            i <= x.len(),
            r@.len() == i,
            forall|k: int| 0 <= k < i ==> expr_view(r@[k]) == expr_view(x@[k]),
        decreases x.len() - i,
    {
        r.push(clone_expr(&x[i]));
        i = i + 1;
    }
    proof {
        reveal(names_view);
        reveal(exprs_view);
        reveal(expr_view);
        reveal(slice_view);
        reveal(stmts_view);
        reveal(stmt_view);
        assert(exprs_view(r@) =~= exprs_view(x@));
    }
    r
}

/// An owned copy of `x`.
pub fn clone_expr(x: &ASTExpr) -> (r: ASTExpr)
    ensures
        expr_view(r) == expr_view(*x),
    decreases x,
{
    proof {
        reveal(names_view);
        reveal(exprs_view);
        reveal(expr_view);
        reveal(slice_view);
        reveal(stmts_view);
        reveal(stmt_view);
    }
    match x {
        ASTExpr::BoolOp(a0, a1) => ASTExpr::BoolOp(*a0, clone_exprs(a1)),
        ASTExpr::BinOp(a0, a1, a2) => ASTExpr::BinOp(Box::new(clone_expr(a0)), *a1, Box::new(clone_expr(a2))),
        ASTExpr::UnaryOp(a0, a1) => ASTExpr::UnaryOp(*a0, Box::new(clone_expr(a1))),
        ASTExpr::IfExp(a0, a1, a2) => ASTExpr::IfExp(Box::new(clone_expr(a0)), Box::new(clone_expr(a1)), Box::new(clone_expr(a2))),
        ASTExpr::Dict(a0, a1) => ASTExpr::Dict(clone_exprs(a0), clone_exprs(a1)),
        ASTExpr::SetDisplay(a0) => ASTExpr::SetDisplay(clone_exprs(a0)),
        ASTExpr::Compare(a0, a1, a2) => ASTExpr::Compare(Box::new(clone_expr(a0)), clone_ops(a1), clone_exprs(a2)),
        ASTExpr::Call(a0, a1) => ASTExpr::Call(Box::new(clone_expr(a0)), clone_exprs(a1)),
        ASTExpr::Constant(a0) => ASTExpr::Constant(clone_constant(a0)),
        ASTExpr::Subscript(a0, a1) => ASTExpr::Subscript(Box::new(clone_expr(a0)), clone_slice(a1)),
        ASTExpr::Name(a0) => ASTExpr::Name(a0.clone()),
        ASTExpr::List(a0) => ASTExpr::List(clone_exprs(a0)),
        ASTExpr::Tuple(a0) => ASTExpr::Tuple(clone_exprs(a0)),
        ASTExpr::Starred(a0) => ASTExpr::Starred(Box::new(clone_expr(a0))),
    }
}

/// An owned copy of `x`.
pub fn clone_slice(x: &ASTSlice) -> (r: ASTSlice)
    ensures
        slice_view(r) == slice_view(*x),
    decreases x,
{
    proof {
        reveal(names_view);
        reveal(exprs_view);
        reveal(expr_view);
        reveal(slice_view);
        reveal(stmts_view);
        reveal(stmt_view);
    }
    match x {
        ASTSlice::Slice(a0, a1, a2) => ASTSlice::Slice(match a0 { Some(e) => Some(Box::new(clone_expr(e))), None => None }, match a1 { Some(e) => Some(Box::new(clone_expr(e))), None => None }, match a2 { Some(e) => Some(Box::new(clone_expr(e))), None => None }),
        ASTSlice::Index(a0) => ASTSlice::Index(Box::new(clone_expr(a0))),
    }
}

/// An owned copy of `x`.
pub fn clone_stmts(x: &Vec<ASTStmt>) -> (r: Vec<ASTStmt>)
    ensures
        stmts_view(r@) == stmts_view(x@),
    decreases x,
{
    proof {
        reveal(names_view);
        reveal(exprs_view);
        reveal(expr_view);
        reveal(slice_view);
        reveal(stmts_view);
        reveal(stmt_view);
    }
    let mut r: Vec<ASTStmt> = Vec::new();
    let mut i: usize = 0;
    while i < x.len()
        invariant
            i <= x.len(),
            r@.len() == i,
            forall|k: int| 0 <= k < i ==> stmt_view(r@[k]) == stmt_view(x@[k]),
        decreases x.len() - i,
    {
        r.push(clone_stmt(&x[i]));
        i = i + 1;
    }
    proof {
        reveal(names_view);
        reveal(exprs_view);
        reveal(expr_view);
        reveal(slice_view);
        reveal(stmts_view);
        reveal(stmt_view);
        assert(stmts_view(r@) =~= stmts_view(x@));
    }
    r
}

/// An owned copy of `x`.
pub fn clone_stmt(x: &ASTStmt) -> (r: ASTStmt)
    ensures
        stmt_view(r) == stmt_view(*x),
    decreases x,
{
    proof {
        reveal(names_view);
        reveal(exprs_view);
        reveal(expr_view);
        reveal(slice_view);
        reveal(stmts_view);
        reveal(stmt_view);
    }
    match x {
        ASTStmt::FuncDef(a0, a1, a2) => ASTStmt::FuncDef(a0.clone(), clone_names(a1), clone_stmts(a2)),
        ASTStmt::Return(a0) => ASTStmt::Return(match a0 { Some(e) => Some(clone_expr(e)), None => None }),
        ASTStmt::Delete(a0) => ASTStmt::Delete(clone_exprs(a0)),
        ASTStmt::Assign(a0, a1) => ASTStmt::Assign(clone_exprs(a0), clone_expr(a1)),
        ASTStmt::For(a0, a1, a2) => ASTStmt::For(clone_expr(a0), clone_expr(a1), clone_stmts(a2)),
        ASTStmt::While(a0, a1) => ASTStmt::While(clone_expr(a0), clone_stmts(a1)),
        ASTStmt::If(a0, a1, a2) => ASTStmt::If(clone_expr(a0), clone_stmts(a1), clone_stmts(a2)),
        ASTStmt::Global(a0) => ASTStmt::Global(clone_names(a0)),
        ASTStmt::Expr(a0) => ASTStmt::Expr(clone_expr(a0)),
        ASTStmt::Pass => ASTStmt::Pass,
        ASTStmt::Break => ASTStmt::Break,
        ASTStmt::Continue => ASTStmt::Continue,
    }
}

impl Clone for ASTConstant {
    fn clone(&self) -> (r: Self)
        ensures
            r@ == self@,
    {
        clone_constant(self)
    }
}

impl Clone for ASTExpr {
    fn clone(&self) -> (r: Self)
        ensures
            r@ == self@,
    {
        clone_expr(self)
    }
}

impl Clone for ASTSlice {
    fn clone(&self) -> (r: Self)
        ensures
            r@ == self@,
    {
        clone_slice(self)
    }
}

impl Clone for ASTStmt {
    fn clone(&self) -> (r: Self)
        ensures
            r@ == self@,
    {
        clone_stmt(self)
    }
}

impl ASTExpr {
    /// The node `BoolOp` of these parts.
    pub fn new_bool_op(connective: ASTBoolOp, operands: Vec<ASTExpr>) -> (r: ASTExpr)
        ensures
            r@ == ExprV::BoolOp(connective, exprs_view(operands@)),
    {
        proof {
            reveal(names_view);
            reveal(exprs_view);
            reveal(expr_view);
            reveal(slice_view);
            reveal(stmts_view);
            reveal(stmt_view);
        }
        ASTExpr::BoolOp(connective, operands)
    }

    /// The node `BinOp` of these parts.
    pub fn new_bin_op(left: ASTExpr, operator: ASTOperator, right: ASTExpr) -> (r: ASTExpr)
        ensures
            r@ == ExprV::BinOp(Box::new(left@), operator, Box::new(right@)),
    {
        proof {
            reveal(names_view);
            reveal(exprs_view);
            reveal(expr_view);
            reveal(slice_view);
            reveal(stmts_view);
            reveal(stmt_view);
        }
        ASTExpr::BinOp(Box::new(left), operator, Box::new(right))
    }

    /// The node `UnaryOp` of these parts.
    pub fn new_unary_op(operator: ASTUnaryOp, operand: ASTExpr) -> (r: ASTExpr)
        ensures
            r@ == ExprV::UnaryOp(operator, Box::new(operand@)),
    {
        proof {
            reveal(names_view);
            reveal(exprs_view);
            reveal(expr_view);
            reveal(slice_view);
            reveal(stmts_view);
            reveal(stmt_view);
        }
        ASTExpr::UnaryOp(operator, Box::new(operand))
    }

    /// The node `IfExp` of these parts.
    pub fn new_if_exp(test: ASTExpr, body: ASTExpr, orelse: ASTExpr) -> (r: ASTExpr)
        ensures
            r@ == ExprV::IfExp(Box::new(test@), Box::new(body@), Box::new(orelse@)),
    {
        proof {
            reveal(names_view);
            reveal(exprs_view);
            reveal(expr_view);
            reveal(slice_view);
            reveal(stmts_view);
            reveal(stmt_view);
        }
        ASTExpr::IfExp(Box::new(test), Box::new(body), Box::new(orelse))
    }

    /// The node `Dict` of these parts.
    pub fn new_dict(keys: Vec<ASTExpr>, values: Vec<ASTExpr>) -> (r: ASTExpr)
        ensures
            r@ == ExprV::Dict(exprs_view(keys@), exprs_view(values@)),
    {
        proof {
            reveal(names_view);
            reveal(exprs_view);
            reveal(expr_view);
            reveal(slice_view);
            reveal(stmts_view);
            reveal(stmt_view);
        }
        ASTExpr::Dict(keys, values)
    }

    /// The node `SetDisplay` of these parts.
    pub fn new_set_display(elements: Vec<ASTExpr>) -> (r: ASTExpr)
        ensures
            r@ == ExprV::SetDisplay(exprs_view(elements@)),
    {
        proof {
            reveal(names_view);
            reveal(exprs_view);
            reveal(expr_view);
            reveal(slice_view);
            reveal(stmts_view);
            reveal(stmt_view);
        }
        ASTExpr::SetDisplay(elements)
    }

    /// The node `Compare` of these parts.
    pub fn new_compare(left: ASTExpr, operators: Vec<ASTCmpOp>, comparators: Vec<ASTExpr>) -> (r: ASTExpr)
        ensures
            r@ == ExprV::Compare(Box::new(left@), operators@, exprs_view(comparators@)),
    {
        proof {
            reveal(names_view);
            reveal(exprs_view);
            reveal(expr_view);
            reveal(slice_view);
            reveal(stmts_view);
            reveal(stmt_view);
        }
        ASTExpr::Compare(Box::new(left), operators, comparators)
    }

    /// The node `Call` of these parts.
    pub fn new_call(callee: ASTExpr, arguments: Vec<ASTExpr>) -> (r: ASTExpr)
        ensures
            r@ == ExprV::Call(Box::new(callee@), exprs_view(arguments@)),
    {
        proof {
            reveal(names_view);
            reveal(exprs_view);
            reveal(expr_view);
            reveal(slice_view);
            reveal(stmts_view);
            reveal(stmt_view);
        }
        ASTExpr::Call(Box::new(callee), arguments)
    }

    /// The node `Constant` of these parts.
    pub fn new_constant(value: ASTConstant) -> (r: ASTExpr)
        ensures
            r@ == ExprV::Constant(value@),
    {
        proof {
            reveal(names_view);
            reveal(exprs_view);
            reveal(expr_view);
            reveal(slice_view);
            reveal(stmts_view);
            reveal(stmt_view);
        }
        ASTExpr::Constant(value)
    }

    /// The node `Subscript` of these parts.
    pub fn new_subscript(value: ASTExpr, slice: ASTSlice) -> (r: ASTExpr)
        ensures
            r@ == ExprV::Subscript(Box::new(value@), slice@),
    {
        proof {
            reveal(names_view);
            reveal(exprs_view);
            reveal(expr_view);
            reveal(slice_view);
            reveal(stmts_view);
            reveal(stmt_view);
        }
        ASTExpr::Subscript(Box::new(value), slice)
    }

    /// The node `Name` of these parts.
    pub fn new_name(identifier: String) -> (r: ASTExpr)
        ensures
            r@ == ExprV::Name(identifier@),
    {
        proof {
            reveal(names_view);
            reveal(exprs_view);
            reveal(expr_view);
            reveal(slice_view);
            reveal(stmts_view);
            reveal(stmt_view);
        }
        ASTExpr::Name(identifier)
    }

    /// The node `List` of these parts.
    pub fn new_list(elements: Vec<ASTExpr>) -> (r: ASTExpr)
        ensures
            r@ == ExprV::List(exprs_view(elements@)),
    {
        proof {
            reveal(names_view);
            reveal(exprs_view);
            reveal(expr_view);
            reveal(slice_view);
            reveal(stmts_view);
            reveal(stmt_view);
        }
        ASTExpr::List(elements)
    }

    /// The node `Tuple` of these parts.
    pub fn new_tuple(elements: Vec<ASTExpr>) -> (r: ASTExpr)
        ensures
            r@ == ExprV::Tuple(exprs_view(elements@)),
    {
        proof {
            reveal(names_view);
            reveal(exprs_view);
            reveal(expr_view);
            reveal(slice_view);
            reveal(stmts_view);
            reveal(stmt_view);
        }
        ASTExpr::Tuple(elements)
    }

    /// The node `Starred` of these parts.
    pub fn new_starred(value: ASTExpr) -> (r: ASTExpr)
        ensures
            r@ == ExprV::Starred(Box::new(value@)),
    {
        proof {
            reveal(names_view);
            reveal(exprs_view);
            reveal(expr_view);
            reveal(slice_view);
            reveal(stmts_view);
            reveal(stmt_view);
        }
        ASTExpr::Starred(Box::new(value))
    }

}

impl ASTSlice {
    /// The node `Slice` of these parts.
    pub fn new_slice(lower: Option<Box<ASTExpr>>, upper: Option<Box<ASTExpr>>, step: Option<Box<ASTExpr>>) -> (r: ASTSlice)
        ensures
            r@ == SliceV::Slice(match lower { Some(e) => Some(Box::new(e@)), None => None }, match upper { Some(e) => Some(Box::new(e@)), None => None }, match step { Some(e) => Some(Box::new(e@)), None => None }),
    {
        proof {
            reveal(names_view);
            reveal(exprs_view);
            reveal(expr_view);
            reveal(slice_view);
            reveal(stmts_view);
            reveal(stmt_view);
        }
        ASTSlice::Slice(lower, upper, step)
    }

    /// The node `Index` of these parts.
    pub fn new_index(value: ASTExpr) -> (r: ASTSlice)
        ensures
            r@ == SliceV::Index(Box::new(value@)),
    {
        proof {
            reveal(names_view);
            reveal(exprs_view);
            reveal(expr_view);
            reveal(slice_view);
            reveal(stmts_view);
            reveal(stmt_view);
        }
        ASTSlice::Index(Box::new(value))
    }

}

impl ASTStmt {
    /// The node `FuncDef` of these parts.
    pub fn new_func_def(name: String, parameters: Vec<ASTIdentifier>, body: Vec<ASTStmt>) -> (r: ASTStmt)
        ensures
            r@ == StmtV::FuncDef(name@, names_view(parameters@), stmts_view(body@)),
    {
        proof {
            reveal(names_view);
            reveal(exprs_view);
            reveal(expr_view);
            reveal(slice_view);
            reveal(stmts_view);
            reveal(stmt_view);
        }
        ASTStmt::FuncDef(name, parameters, body)
    }

    /// The node `Return` of these parts.
    pub fn new_return(value: Option<ASTExpr>) -> (r: ASTStmt)
        ensures
            r@ == StmtV::Return(match value { Some(e) => Some(e@), None => None }),
    {
        proof {
            reveal(names_view);
            reveal(exprs_view);
            reveal(expr_view);
            reveal(slice_view);
            reveal(stmts_view);
            reveal(stmt_view);
        }
        ASTStmt::Return(value)
    }

    /// The node `Delete` of these parts.
    pub fn new_delete(targets: Vec<ASTExpr>) -> (r: ASTStmt)
        ensures
            r@ == StmtV::Delete(exprs_view(targets@)),
    {
        proof {
            reveal(names_view);
            reveal(exprs_view);
            reveal(expr_view);
            reveal(slice_view);
            reveal(stmts_view);
            reveal(stmt_view);
        }
        ASTStmt::Delete(targets)
    }

    /// The node `Assign` of these parts.
    pub fn new_assign(targets: Vec<ASTExpr>, value: ASTExpr) -> (r: ASTStmt)
        ensures
            r@ == StmtV::Assign(exprs_view(targets@), value@),
    {
        proof {
            reveal(names_view);
            reveal(exprs_view);
            reveal(expr_view);
            reveal(slice_view);
            reveal(stmts_view);
            reveal(stmt_view);
        }
        ASTStmt::Assign(targets, value)
    }

    /// The node `For` of these parts.
    pub fn new_for(target: ASTExpr, iterable: ASTExpr, body: Vec<ASTStmt>) -> (r: ASTStmt)
        ensures
            r@ == StmtV::For(target@, iterable@, stmts_view(body@)),
    {
        proof {
            reveal(names_view);
            reveal(exprs_view);
            reveal(expr_view);
            reveal(slice_view);
            reveal(stmts_view);
            reveal(stmt_view);
        }
        ASTStmt::For(target, iterable, body)
    }

    /// The node `While` of these parts.
    pub fn new_while(test: ASTExpr, body: Vec<ASTStmt>) -> (r: ASTStmt)
        ensures
            r@ == StmtV::While(test@, stmts_view(body@)),
    {
        proof {
            reveal(names_view);
            reveal(exprs_view);
            reveal(expr_view);
            reveal(slice_view);
            reveal(stmts_view);
            reveal(stmt_view);
        }
        ASTStmt::While(test, body)
    }

    /// The node `If` of these parts.
    pub fn new_if(test: ASTExpr, body: Vec<ASTStmt>, orelse: Vec<ASTStmt>) -> (r: ASTStmt)
        ensures
            r@ == StmtV::If(test@, stmts_view(body@), stmts_view(orelse@)),
    {
        proof {
            reveal(names_view);
            reveal(exprs_view);
            reveal(expr_view);
            reveal(slice_view);
            reveal(stmts_view);
            reveal(stmt_view);
        }
        ASTStmt::If(test, body, orelse)
    }

    /// The node `Global` of these parts.
    pub fn new_global(names: Vec<ASTIdentifier>) -> (r: ASTStmt)
        ensures
            r@ == StmtV::Global(names_view(names@)),
    {
        proof {
            reveal(names_view);
            reveal(exprs_view);
            reveal(expr_view);
            reveal(slice_view);
            reveal(stmts_view);
            reveal(stmt_view);
        }
        ASTStmt::Global(names)
    }

    /// The node `Expr` of these parts.
    pub fn new_expr(value: ASTExpr) -> (r: ASTStmt)
        ensures
            r@ == StmtV::Expr(value@),
    {
        proof {
            reveal(names_view);
            reveal(exprs_view);
            reveal(expr_view);
            reveal(slice_view);
            reveal(stmts_view);
            reveal(stmt_view);
        }
        ASTStmt::Expr(value)
    }

    /// The node `Pass`.
    pub fn new_pass() -> (r: ASTStmt)
        ensures
            r@ == StmtV::Pass,
    {
        proof {
            reveal(names_view);
            reveal(exprs_view);
            reveal(expr_view);
            reveal(slice_view);
            reveal(stmts_view);
            reveal(stmt_view);
        }
        ASTStmt::Pass
    }

    /// The node `Break`.
    pub fn new_break() -> (r: ASTStmt)
        ensures
            r@ == StmtV::Break,
    {
        proof {
            reveal(names_view);
            reveal(exprs_view);
            reveal(expr_view);
            reveal(slice_view);
            reveal(stmts_view);
            reveal(stmt_view);
        }
        ASTStmt::Break
    }

    /// The node `Continue`.
    pub fn new_continue() -> (r: ASTStmt)
        ensures
            r@ == StmtV::Continue,
    {
        proof {
            reveal(names_view);
            reveal(exprs_view);
            reveal(expr_view);
            reveal(slice_view);
            reveal(stmts_view);
            reveal(stmt_view);
        }
        ASTStmt::Continue
    }

}

/// The view of a run goes element by element.
pub proof fn lemma_exprs_view(v: Seq<ASTExpr>)
    ensures
        exprs_view(v).len() == v.len(),
        forall|i: int| 0 <= i < v.len() ==> #[trigger] exprs_view(v)[i] == v[i]@,
{
    reveal(names_view);
    reveal(exprs_view);
    reveal(expr_view);
    reveal(slice_view);
    reveal(stmts_view);
    reveal(stmt_view);
    reveal(exprs_view);
    reveal(expr_view);
    reveal(slice_view);
    reveal(stmts_view);
    reveal(stmt_view);
}

/// The view of a run with one more expression.
pub proof fn lemma_exprs_push(v: Seq<ASTExpr>, e: ASTExpr)
    ensures
        exprs_view(v.push(e)) == exprs_view(v).push(e@),
{
    reveal(names_view);
    reveal(exprs_view);
    reveal(expr_view);
    reveal(slice_view);
    reveal(stmts_view);
    reveal(stmt_view);
    reveal(exprs_view);
    reveal(expr_view);
    reveal(slice_view);
    reveal(stmts_view);
    reveal(stmt_view);
    assert(exprs_view(v.push(e)) =~= exprs_view(v).push(e@));
}

/// The view of the empty run.
pub proof fn lemma_exprs_empty()
    ensures
        exprs_view(Seq::<ASTExpr>::empty()) == Seq::<ExprV>::empty(),
{
    reveal(names_view);
    reveal(exprs_view);
    reveal(expr_view);
    reveal(slice_view);
    reveal(stmts_view);
    reveal(stmt_view);
    reveal(exprs_view);
    reveal(expr_view);
    reveal(slice_view);
    reveal(stmts_view);
    reveal(stmt_view);
    assert(exprs_view(Seq::<ASTExpr>::empty()) =~= Seq::<ExprV>::empty());
}

/// The view of a run goes element by element.
pub proof fn lemma_stmts_view(v: Seq<ASTStmt>)
    ensures
        stmts_view(v).len() == v.len(),
        forall|i: int| 0 <= i < v.len() ==> #[trigger] stmts_view(v)[i] == v[i]@,
{
    reveal(names_view);
    reveal(exprs_view);
    reveal(expr_view);
    reveal(slice_view);
    reveal(stmts_view);
    reveal(stmt_view);
    reveal(exprs_view);
    reveal(expr_view);
    reveal(slice_view);
    reveal(stmts_view);
    reveal(stmt_view);
}

/// The view of a run with one more statement.
pub proof fn lemma_stmts_push(v: Seq<ASTStmt>, e: ASTStmt)
    ensures
        stmts_view(v.push(e)) == stmts_view(v).push(e@),
{
    reveal(names_view);
    reveal(exprs_view);
    reveal(expr_view);
    reveal(slice_view);
    reveal(stmts_view);
    reveal(stmt_view);
    reveal(exprs_view);
    reveal(expr_view);
    reveal(slice_view);
    reveal(stmts_view);
    reveal(stmt_view);
    assert(stmts_view(v.push(e)) =~= stmts_view(v).push(e@));
}

/// The view of the empty run.
pub proof fn lemma_stmts_empty()
    ensures
        stmts_view(Seq::<ASTStmt>::empty()) == Seq::<StmtV>::empty(),
{
    reveal(names_view);
    reveal(exprs_view);
    reveal(expr_view);
    reveal(slice_view);
    reveal(stmts_view);
    reveal(stmt_view);
    reveal(exprs_view);
    reveal(expr_view);
    reveal(slice_view);
    reveal(stmts_view);
    reveal(stmt_view);
    assert(stmts_view(Seq::<ASTStmt>::empty()) =~= Seq::<StmtV>::empty());
}

/// The view of a run goes element by element.
pub proof fn lemma_names_view(v: Seq<String>)
    ensures
        names_view(v).len() == v.len(),
        forall|i: int| 0 <= i < v.len() ==> #[trigger] names_view(v)[i] == v[i]@,
{
    reveal(names_view);
    reveal(exprs_view);
    reveal(expr_view);
    reveal(slice_view);
    reveal(stmts_view);
    reveal(stmt_view);
}

/// The view of a run with one more name.
pub proof fn lemma_names_push(v: Seq<String>, e: String)
    ensures
        names_view(v.push(e)) == names_view(v).push(e@),
{
    reveal(names_view);
    reveal(exprs_view);
    reveal(expr_view);
    reveal(slice_view);
    reveal(stmts_view);
    reveal(stmt_view);
    assert(names_view(v.push(e)) =~= names_view(v).push(e@));
}

/// The view of the empty run.
pub proof fn lemma_names_empty()
    ensures
        names_view(Seq::<String>::empty()) == Seq::<Seq<char>>::empty(),
{
    reveal(names_view);
    reveal(exprs_view);
    reveal(expr_view);
    reveal(slice_view);
    reveal(stmts_view);
    reveal(stmt_view);
    assert(names_view(Seq::<String>::empty()) =~= Seq::<Seq<char>>::empty());
}

/// The view of a node, one level deep.
pub proof fn lemma_expr_view(x: &ASTExpr)
    ensures
        x@ == (match *x {
            ASTExpr::BoolOp(a0, a1) => ExprV::BoolOp(a0, exprs_view(a1@)),
            ASTExpr::BinOp(a0, a1, a2) => ExprV::BinOp(Box::new((*a0)@), a1, Box::new((*a2)@)),
            ASTExpr::UnaryOp(a0, a1) => ExprV::UnaryOp(a0, Box::new((*a1)@)),
            ASTExpr::IfExp(a0, a1, a2) => ExprV::IfExp(Box::new((*a0)@), Box::new((*a1)@), Box::new((*a2)@)),
            ASTExpr::Dict(a0, a1) => ExprV::Dict(exprs_view(a0@), exprs_view(a1@)),
            ASTExpr::SetDisplay(a0) => ExprV::SetDisplay(exprs_view(a0@)),
            ASTExpr::Compare(a0, a1, a2) => ExprV::Compare(Box::new((*a0)@), a1@, exprs_view(a2@)),
            ASTExpr::Call(a0, a1) => ExprV::Call(Box::new((*a0)@), exprs_view(a1@)),
            ASTExpr::Constant(a0) => ExprV::Constant(a0@),
            ASTExpr::Subscript(a0, a1) => ExprV::Subscript(Box::new((*a0)@), a1@),
            ASTExpr::Name(a0) => ExprV::Name(a0@),
            ASTExpr::List(a0) => ExprV::List(exprs_view(a0@)),
            ASTExpr::Tuple(a0) => ExprV::Tuple(exprs_view(a0@)),
            ASTExpr::Starred(a0) => ExprV::Starred(Box::new((*a0)@)),
        }),
{
    reveal(names_view);
    reveal(exprs_view);
    reveal(expr_view);
    reveal(slice_view);
    reveal(stmts_view);
    reveal(stmt_view);
}

/// The view of a node, one level deep.
pub proof fn lemma_slice_view(x: &ASTSlice)
    ensures
        x@ == (match *x {
            ASTSlice::Slice(a0, a1, a2) => SliceV::Slice(match a0 { Some(e) => Some(Box::new((*e)@)), None => None }, match a1 { Some(e) => Some(Box::new((*e)@)), None => None }, match a2 { Some(e) => Some(Box::new((*e)@)), None => None }),
            ASTSlice::Index(a0) => SliceV::Index(Box::new((*a0)@)),
        }),
{
    reveal(names_view);
    reveal(exprs_view);
    reveal(expr_view);
    reveal(slice_view);
    reveal(stmts_view);
    reveal(stmt_view);
}

/// The view of a node, one level deep.
pub proof fn lemma_stmt_view(x: &ASTStmt)
    ensures
        x@ == (match *x {
            ASTStmt::FuncDef(a0, a1, a2) => StmtV::FuncDef(a0@, names_view(a1@), stmts_view(a2@)),
            ASTStmt::Return(a0) => StmtV::Return(match a0 { Some(e) => Some(e@), None => None }),
            ASTStmt::Delete(a0) => StmtV::Delete(exprs_view(a0@)),
            ASTStmt::Assign(a0, a1) => StmtV::Assign(exprs_view(a0@), a1@),
            ASTStmt::For(a0, a1, a2) => StmtV::For(a0@, a1@, stmts_view(a2@)),
            ASTStmt::While(a0, a1) => StmtV::While(a0@, stmts_view(a1@)),
            ASTStmt::If(a0, a1, a2) => StmtV::If(a0@, stmts_view(a1@), stmts_view(a2@)),
            ASTStmt::Global(a0) => StmtV::Global(names_view(a0@)),
            ASTStmt::Expr(a0) => StmtV::Expr(a0@),
            ASTStmt::Pass => StmtV::Pass,
            ASTStmt::Break => StmtV::Break,
            ASTStmt::Continue => StmtV::Continue,
        }),
{
    reveal(names_view);
    reveal(exprs_view);
    reveal(expr_view);
    reveal(slice_view);
    reveal(stmts_view);
    reveal(stmt_view);
}

} // verus!
