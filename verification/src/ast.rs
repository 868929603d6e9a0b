//! The abstract syntax tree: a closed set of typed variants for
//! declarations, statements and expressions, built once by the parser,
//! checked by the semantic analyzer and read by the code generator.
//!
//! Name-to-item mappings keep insertion order (functions, struct fields,
//! globals are plain ordered sequences) so that diagnostics and code
//! generation are deterministic.
use vstd::prelude::*;

verus! {

broadcast use vstd::std_specs::vec::group_vec_axioms, vstd::seq::group_seq_axioms;

/// A whole translation unit: functions, global variables and structs,
/// each list ordered as declared, names unique within each list.
#[derive(Debug)]
pub struct AST {
    pub functions: Vec<Function>,
    pub global_variables: Vec<Variable>,
    pub structs: Vec<Struct>,
}

#[derive(Debug)]
pub struct Function {
    pub name: String,
    pub return_type: Type,
    pub parameters: Vec<Variable>,
    pub body: Block,
}

#[derive(Debug)]
pub struct Variable {
    pub name: String,
    pub var_type: Type,
    pub is_const: bool,
}

/// Field order determines memory layout: fields are laid out
/// consecutively in declaration order.
#[derive(Debug)]
pub struct Struct {
    pub name: String,
    pub fields: Vec<Variable>,
}

/// The closed set of types. A floating-point literal or value is carried
/// symbolically (by its source spelling) through the front end; the
/// back end gives it meaning.
#[derive(Debug)]
pub enum Type {
    Void,
    Int,
    Float,
    Double,
    Char,
    Bool,
    Pointer(Box<Type>),
    Array(Box<Type>, Option<usize>),
    Struct(String),
    Function(Box<Type>, Vec<Type>),
}

#[derive(Debug)]
pub struct Block {
    pub statements: Vec<Statement>,
}

#[derive(Debug)]
pub enum Statement {
    Declaration(Variable, Option<Expression>),
    Assignment(Expression, Expression),
    If(Expression, Block, Option<Block>),
    While(Expression, Block),
    For(Box<Statement>, Expression, Box<Statement>, Block),
    Return(Option<Expression>),
    Expression(Expression),
    Block(Block),
}

#[derive(Debug)]
pub enum Expression {
    Literal(Literal),
    Variable(String),
    BinaryOp(Box<Expression>, BinaryOperator, Box<Expression>),
    UnaryOp(UnaryOperator, Box<Expression>),
    Call(String, Vec<Expression>),
    Cast(Box<Expression>, Type),
    Index(Box<Expression>, Box<Expression>),
    Member(Box<Expression>, String),
    Pointer(Box<Expression>),
    Address(Box<Expression>),
}

/// A floating-point literal keeps its source spelling: the front end
/// never computes with it.
#[derive(Debug)]
pub enum Literal {
    Int(i64),
    Float(String),
    Char(char),
    String(String),
    Bool(bool),
    Null,
}

#[derive(Debug)]
pub enum BinaryOperator {
    Add,
    Subtract,
    Multiply,
    Divide,
    Modulo,
    Equal,
    NotEqual,
    LessThan,
    GreaterThan,
    LessThanOrEqual,
    GreaterThanOrEqual,
    LogicalAnd,
    LogicalOr,
    BitwiseAnd,
    BitwiseOr,
    BitwiseXor,
    LeftShift,
    RightShift,
}

#[derive(Debug)]
pub enum UnaryOperator {
    Negate,
    LogicalNot,
    BitwiseNot,
    PreIncrement,
    PostIncrement,
    PreDecrement,
    PostDecrement,
}

// ---------------------------------------------------------------------
// Ghost mirrors: the mathematical model every contract speaks of.
// ---------------------------------------------------------------------

pub enum TypeV {
    Void,
    Int,
    Float,
    Double,
    Char,
    Bool,
    Pointer(Box<TypeV>),
    Array(Box<TypeV>, Option<int>),
    Struct(Seq<char>),
    Function(Box<TypeV>, Seq<TypeV>),
}

pub struct VariableV {
    pub name: Seq<char>,
    pub var_type: TypeV,
    pub is_const: bool,
}

pub struct StructV {
    pub name: Seq<char>,
    pub fields: Seq<VariableV>,
}

pub enum LiteralV {
    Int(int),
    Float(Seq<char>),
    Char(char),
    String(Seq<char>),
    Bool(bool),
    Null,
}

pub enum ExpressionV {
    Literal(LiteralV),
    Variable(Seq<char>),
    BinaryOp(Box<ExpressionV>, BinaryOperator, Box<ExpressionV>),
    UnaryOp(UnaryOperator, Box<ExpressionV>),
    Call(Seq<char>, Seq<ExpressionV>),
    Cast(Box<ExpressionV>, TypeV),
    Index(Box<ExpressionV>, Box<ExpressionV>),
    Member(Box<ExpressionV>, Seq<char>),
    Pointer(Box<ExpressionV>),
    Address(Box<ExpressionV>),
}

pub enum StatementV {
    Declaration(VariableV, Option<ExpressionV>),
    Assignment(ExpressionV, ExpressionV),
    If(ExpressionV, BlockV, Option<BlockV>),
    While(ExpressionV, BlockV),
    For(Box<StatementV>, ExpressionV, Box<StatementV>, BlockV),
    Return(Option<ExpressionV>),
    Expression(ExpressionV),
    Block(BlockV),
}

pub struct BlockV {
    pub statements: Seq<StatementV>,
}

pub struct FunctionV {
    pub name: Seq<char>,
    pub return_type: TypeV,
    pub parameters: Seq<VariableV>,
    pub body: BlockV,
}

pub struct ProgramV {
    pub functions: Seq<FunctionV>,
    pub global_variables: Seq<VariableV>,
    pub structs: Seq<StructV>,
}

pub open spec fn view_opt_int(n: Option<usize>) -> Option<int> {
    match n {
        Some(k) => Some(k as int),
        None => None,
    }
}

pub open spec fn view_type(t: Type) -> TypeV
    decreases t,
{
    match t {
        Type::Void => TypeV::Void,
        Type::Int => TypeV::Int,
        Type::Float => TypeV::Float,
        Type::Double => TypeV::Double,
        Type::Char => TypeV::Char,
        Type::Bool => TypeV::Bool,
        Type::Pointer(t2) => TypeV::Pointer(Box::new(view_type(*t2))),
        Type::Array(t2, n) => TypeV::Array(Box::new(view_type(*t2)), view_opt_int(n)),
        Type::Struct(name) => TypeV::Struct(name@),
        Type::Function(ret, params) => TypeV::Function(
            Box::new(view_type(*ret)),
            view_types(params@),
        ),
    }
}

pub open spec fn view_types(s: Seq<Type>) -> Seq<TypeV>
    decreases s,
{
    if s.len() == 0 {
        Seq::empty()
    } else {
        view_types(s.drop_last()).push(view_type(s.last()))
    }
}

pub open spec fn view_variable(v: Variable) -> VariableV {
    VariableV { name: v.name@, var_type: view_type(v.var_type), is_const: v.is_const }
}

pub open spec fn view_variables(vs: Seq<Variable>) -> Seq<VariableV> {
    Seq::new(vs.len(), |i: int| view_variable(vs[i]))
}

pub open spec fn view_struct(s: Struct) -> StructV {
    StructV { name: s.name@, fields: view_variables(s.fields@) }
}

pub open spec fn view_literal(l: Literal) -> LiteralV {
    match l {
        Literal::Int(v) => LiteralV::Int(v as int),
        Literal::Float(s) => LiteralV::Float(s@),
        Literal::Char(c) => LiteralV::Char(c),
        Literal::String(s) => LiteralV::String(s@),
        Literal::Bool(b) => LiteralV::Bool(b),
        Literal::Null => LiteralV::Null,
    }
}

pub open spec fn view_expr(e: Expression) -> ExpressionV
    decreases e,
{
    match e {
        Expression::Literal(l) => ExpressionV::Literal(view_literal(l)),
        Expression::Variable(name) => ExpressionV::Variable(name@),
        Expression::BinaryOp(a, op, b) => ExpressionV::BinaryOp(
            Box::new(view_expr(*a)),
            op,
            Box::new(view_expr(*b)),
        ),
        Expression::UnaryOp(op, a) => ExpressionV::UnaryOp(op, Box::new(view_expr(*a))),
        Expression::Call(name, args) => ExpressionV::Call(name@, view_exprs(args@)),
        Expression::Cast(a, t) => ExpressionV::Cast(Box::new(view_expr(*a)), view_type(t)),
        Expression::Index(a, i) => ExpressionV::Index(
            Box::new(view_expr(*a)),
            Box::new(view_expr(*i)),
        ),
        Expression::Member(a, name) => ExpressionV::Member(Box::new(view_expr(*a)), name@),
        Expression::Pointer(a) => ExpressionV::Pointer(Box::new(view_expr(*a))),
        Expression::Address(a) => ExpressionV::Address(Box::new(view_expr(*a))),
    }
}

pub open spec fn view_exprs(s: Seq<Expression>) -> Seq<ExpressionV>
    decreases s,
{
    if s.len() == 0 {
        Seq::empty()
    } else {
        view_exprs(s.drop_last()).push(view_expr(s.last()))
    }
}

pub open spec fn view_stmt(s: Statement) -> StatementV
    decreases s,
{
    match s {
        Statement::Declaration(v, init) => StatementV::Declaration(
            view_variable(v),
            match init {
                Some(e) => Some(view_expr(e)),
                None => None,
            },
        ),
        Statement::Assignment(lhs, rhs) => StatementV::Assignment(view_expr(lhs), view_expr(rhs)),
        Statement::If(c, t, e) => StatementV::If(
            view_expr(c),
            view_block(t),
            match e {
                Some(b) => Some(view_block(b)),
                None => None,
            },
        ),
        Statement::While(c, b) => StatementV::While(view_expr(c), view_block(b)),
        Statement::For(init, c, post, b) => StatementV::For(
            Box::new(view_stmt(*init)),
            view_expr(c),
            Box::new(view_stmt(*post)),
            view_block(b),
        ),
        Statement::Return(e) => StatementV::Return(
            match e {
                Some(e) => Some(view_expr(e)),
                None => None,
            },
        ),
        Statement::Expression(e) => StatementV::Expression(view_expr(e)),
        Statement::Block(b) => StatementV::Block(view_block(b)),
    }
}

pub open spec fn view_block(b: Block) -> BlockV
    decreases b,
{
    BlockV { statements: view_stmts(b.statements@) }
}

pub open spec fn view_stmts(s: Seq<Statement>) -> Seq<StatementV>
    decreases s,
{
    if s.len() == 0 {
        Seq::empty()
    } else {
        view_stmts(s.drop_last()).push(view_stmt(s.last()))
    }
}

pub open spec fn view_function(f: Function) -> FunctionV {
    FunctionV {
        name: f.name@,
        return_type: view_type(f.return_type),
        parameters: view_variables(f.parameters@),
        body: view_block(f.body),
    }
}

pub open spec fn view_fn_seq(s: Seq<Function>) -> Seq<FunctionV> {
    Seq::new(s.len(), |i: int| view_function(s[i]))
}

pub open spec fn view_struct_seq(s: Seq<Struct>) -> Seq<StructV> {
    Seq::new(s.len(), |i: int| view_struct(s[i]))
}

pub open spec fn view_program(p: AST) -> ProgramV {
    ProgramV {
        functions: view_fn_seq(p.functions@),
        global_variables: view_variables(p.global_variables@),
        structs: view_struct_seq(p.structs@),
    }
}

// Push and empty laws for the sequence views: the parser accumulates
// nodes one at a time and its contracts speak of whole sequences.

pub proof fn lemma_view_fn_seq_push(s: Seq<Function>, x: Function)
    ensures
        view_fn_seq(s.push(x)) =~= view_fn_seq(s).push(view_function(x)),
{
}

pub proof fn lemma_view_struct_seq_push(s: Seq<Struct>, x: Struct)
    ensures
        view_struct_seq(s.push(x)) =~= view_struct_seq(s).push(view_struct(x)),
{
}

pub proof fn lemma_view_variables_push(s: Seq<Variable>, x: Variable)
    ensures
        view_variables(s.push(x)) =~= view_variables(s).push(view_variable(x)),
{
}

pub proof fn lemma_view_types_push(s: Seq<Type>, x: Type)
    ensures
        view_types(s.push(x)) =~= view_types(s).push(view_type(x)),
    decreases s.len(),
{
    assert(s.push(x).drop_last() =~= s);
    assert(s.push(x).last() == x);
}

pub broadcast proof fn lemma_view_types_len(s: Seq<Type>)
    ensures
        #[trigger] view_types(s).len() == s.len(),
    decreases s.len(),
{
    if s.len() > 0 {
        lemma_view_types_len(s.drop_last());
    }
}

pub broadcast proof fn lemma_view_exprs_len(s: Seq<Expression>)
    ensures
        #[trigger] view_exprs(s).len() == s.len(),
    decreases s.len(),
{
    if s.len() > 0 {
        lemma_view_exprs_len(s.drop_last());
    }
}

pub proof fn lemma_view_exprs_index(s: Seq<Expression>, i: int)
    requires
        0 <= i < s.len(),
    ensures
        view_exprs(s)[i] == view_expr(s[i]),
    decreases s.len(),
{
    lemma_view_exprs_len(s.drop_last());
    if i < s.len() - 1 {
        lemma_view_exprs_index(s.drop_last(), i);
    }
}

pub proof fn lemma_view_stmts_index(s: Seq<Statement>, i: int)
    requires
        0 <= i < s.len(),
    ensures
        view_stmts(s)[i] == view_stmt(s[i]),
    decreases s.len(),
{
    lemma_view_stmts_len(s.drop_last());
    if i < s.len() - 1 {
        lemma_view_stmts_index(s.drop_last(), i);
    }
}

pub broadcast proof fn lemma_view_stmts_len(s: Seq<Statement>)
    ensures
        #[trigger] view_stmts(s).len() == s.len(),
    decreases s.len(),
{
    if s.len() > 0 {
        lemma_view_stmts_len(s.drop_last());
    }
}

pub proof fn lemma_view_exprs_push(s: Seq<Expression>, x: Expression)
    ensures
        view_exprs(s.push(x)) =~= view_exprs(s).push(view_expr(x)),
{
    assert(s.push(x).drop_last() =~= s);
    assert(s.push(x).last() == x);
}

pub proof fn lemma_view_stmts_push(s: Seq<Statement>, x: Statement)
    ensures
        view_stmts(s.push(x)) =~= view_stmts(s).push(view_stmt(x)),
{
    assert(s.push(x).drop_last() =~= s);
    assert(s.push(x).last() == x);
}

impl DeepView for Type {
    type V = TypeV;

    open spec fn deep_view(&self) -> TypeV {
        view_type(*self)
    }
}

impl DeepView for Variable {
    type V = VariableV;

    open spec fn deep_view(&self) -> VariableV {
        view_variable(*self)
    }
}

impl DeepView for Struct {
    type V = StructV;

    open spec fn deep_view(&self) -> StructV {
        view_struct(*self)
    }
}

impl DeepView for Literal {
    type V = LiteralV;

    open spec fn deep_view(&self) -> LiteralV {
        view_literal(*self)
    }
}

impl DeepView for Expression {
    type V = ExpressionV;

    open spec fn deep_view(&self) -> ExpressionV {
        view_expr(*self)
    }
}

impl DeepView for Statement {
    type V = StatementV;

    open spec fn deep_view(&self) -> StatementV {
        view_stmt(*self)
    }
}

impl DeepView for Block {
    type V = BlockV;

    open spec fn deep_view(&self) -> BlockV {
        view_block(*self)
    }
}

impl DeepView for Function {
    type V = FunctionV;

    open spec fn deep_view(&self) -> FunctionV {
        view_function(*self)
    }
}

impl DeepView for AST {
    type V = ProgramV;

    open spec fn deep_view(&self) -> ProgramV {
        view_program(*self)
    }
}

} // verus!
