//! The parser: a recursive-descent consumer of the token stream with one
//! production per grammar rule and standard C precedence and
//! associativity (logical-or/and, bitwise, equality, relational, shift,
//! additive, multiplicative, unary, postfix). It fails fast on the first
//! syntax error, carrying the line and column of the offending token; a
//! dangling `else` binds to the nearest enclosing `if`.
//!
//! Every production carries a descent budget (`fuel`) that bounds the
//! recursion depth; the budget granted to a whole parse is far larger
//! than any derivation of the token sequence can need.
use vstd::prelude::*;
use vstd::string::StringSliceAdditionalSpecFns;

use crate::ast::{
    BinaryOperator, BlockV, ExpressionV, FunctionV, LiteralV, ProgramV, StatementV, StructV,
    TypeV, UnaryOperator, VariableV, AST, Block, Expression, Function, Literal, Statement,
    Struct, Type, Variable,
};
use crate::diag::{res_view, CompileError, ErrorView};
use crate::lexer::{dv_seq, lex, spec_lex, Token, TokenKind, TokenKindV, TokenV};

verus! {

broadcast use vstd::std_specs::vec::group_vec_axioms, vstd::seq::group_seq_axioms;

/// The token at `pos`, if any.
pub open spec fn kind_at(toks: Seq<TokenV>, pos: int) -> Option<TokenKindV> {
    if 0 <= pos < toks.len() {
        Some(toks[pos].kind)
    } else {
        None
    }
}

/// The location a diagnostic at `pos` points at: the token there, or the
/// last token when the input ended early.
pub open spec fn spec_err_pos(toks: Seq<TokenV>, pos: int) -> (int, int) {
    if toks.len() == 0 {
        (1, 1)
    } else if 0 <= pos < toks.len() {
        (toks[pos].line, toks[pos].col)
    } else {
        (toks[toks.len() - 1].line, toks[toks.len() - 1].col)
    }
}

/// What a diagnostic calls the token kind it found.
pub open spec fn spec_kind_name(k: TokenKindV) -> Seq<char> {
    match k {
        TokenKindV::KwInt => "'int'"@,
        TokenKindV::KwFloat => "'float'"@,
        TokenKindV::KwDouble => "'double'"@,
        TokenKindV::KwChar => "'char'"@,
        TokenKindV::KwVoid => "'void'"@,
        TokenKindV::KwBool => "'bool'"@,
        TokenKindV::KwIf => "'if'"@,
        TokenKindV::KwElse => "'else'"@,
        TokenKindV::KwWhile => "'while'"@,
        TokenKindV::KwFor => "'for'"@,
        TokenKindV::KwReturn => "'return'"@,
        TokenKindV::KwStruct => "'struct'"@,
        TokenKindV::KwConst => "'const'"@,
        TokenKindV::KwTrue => "'true'"@,
        TokenKindV::KwFalse => "'false'"@,
        TokenKindV::KwNull => "'NULL'"@,
        TokenKindV::LParen => "'('"@,
        TokenKindV::RParen => "')'"@,
        TokenKindV::LBrace => "'{'"@,
        TokenKindV::RBrace => "'}'"@,
        TokenKindV::LBracket => "'['"@,
        TokenKindV::RBracket => "']'"@,
        TokenKindV::Semi => "';'"@,
        TokenKindV::Comma => "','"@,
        TokenKindV::Dot => "'.'"@,
        TokenKindV::Arrow => "'->'"@,
        TokenKindV::Plus => "'+'"@,
        TokenKindV::Minus => "'-'"@,
        TokenKindV::Star => "'*'"@,
        TokenKindV::Slash => "'/'"@,
        TokenKindV::Percent => "'%'"@,
        TokenKindV::Amp => "'&'"@,
        TokenKindV::Pipe => "'|'"@,
        TokenKindV::Caret => "'^'"@,
        TokenKindV::Tilde => "'~'"@,
        TokenKindV::Bang => "'!'"@,
        TokenKindV::Assign => "'='"@,
        TokenKindV::EqEq => "'=='"@,
        TokenKindV::BangEq => "'!='"@,
        TokenKindV::Lt => "'<'"@,
        TokenKindV::Gt => "'>'"@,
        TokenKindV::Le => "'<='"@,
        TokenKindV::Ge => "'>='"@,
        TokenKindV::AmpAmp => "'&&'"@,
        TokenKindV::PipePipe => "'||'"@,
        TokenKindV::Shl => "'<<'"@,
        TokenKindV::Shr => "'>>'"@,
        TokenKindV::PlusPlus => "'++'"@,
        TokenKindV::MinusMinus => "'--'"@,
        TokenKindV::Ident(_) => "identifier"@,
        TokenKindV::IntLit(_) => "integer literal"@,
        TokenKindV::FloatLit(_) => "floating-point literal"@,
        TokenKindV::CharLit(_) => "character literal"@,
        TokenKindV::StrLit(_) => "string literal"@,
    }
}

/// The found half of an expected-versus-found description: the token at
/// the failing position, or the end of the input.
pub open spec fn spec_found_name(toks: Seq<TokenV>, pos: int) -> Seq<char> {
    match kind_at(toks, pos) {
        Some(k) => spec_kind_name(k),
        None => "end of input"@,
    }
}

pub open spec fn syn_err_v(toks: Seq<TokenV>, pos: int, message: Seq<char>) -> ErrorView {
    ErrorView::Syntax {
        message,
        found: spec_found_name(toks, pos),
        line: spec_err_pos(toks, pos).0,
        col: spec_err_pos(toks, pos).1,
    }
}

pub open spec fn is_type_start(k: Option<TokenKindV>) -> bool {
    match k {
        Some(TokenKindV::KwInt) => true,
        Some(TokenKindV::KwFloat) => true,
        Some(TokenKindV::KwDouble) => true,
        Some(TokenKindV::KwChar) => true,
        Some(TokenKindV::KwBool) => true,
        Some(TokenKindV::KwVoid) => true,
        Some(TokenKindV::KwStruct) => true,
        _ => false,
    }
}

/// One operator table per precedence level, loosest first.
pub open spec fn level_op(level: int, k: TokenKindV) -> Option<BinaryOperator> {
    if level == 1 && k is PipePipe {
        Some(BinaryOperator::LogicalOr)
    } else if level == 2 && k is AmpAmp {
        Some(BinaryOperator::LogicalAnd)
    } else if level == 3 && k is Pipe {
        Some(BinaryOperator::BitwiseOr)
    } else if level == 4 && k is Caret {
        Some(BinaryOperator::BitwiseXor)
    } else if level == 5 && k is Amp {
        Some(BinaryOperator::BitwiseAnd)
    } else if level == 6 && k is EqEq {
        Some(BinaryOperator::Equal)
    } else if level == 6 && k is BangEq {
        Some(BinaryOperator::NotEqual)
    } else if level == 7 && k is Lt {
        Some(BinaryOperator::LessThan)
    } else if level == 7 && k is Gt {
        Some(BinaryOperator::GreaterThan)
    } else if level == 7 && k is Le {
        Some(BinaryOperator::LessThanOrEqual)
    } else if level == 7 && k is Ge {
        Some(BinaryOperator::GreaterThanOrEqual)
    } else if level == 8 && k is Shl {
        Some(BinaryOperator::LeftShift)
    } else if level == 8 && k is Shr {
        Some(BinaryOperator::RightShift)
    } else if level == 9 && k is Plus {
        Some(BinaryOperator::Add)
    } else if level == 9 && k is Minus {
        Some(BinaryOperator::Subtract)
    } else if level == 10 && k is Star {
        Some(BinaryOperator::Multiply)
    } else if level == 10 && k is Slash {
        Some(BinaryOperator::Divide)
    } else if level == 10 && k is Percent {
        Some(BinaryOperator::Modulo)
    } else {
        None
    }
}

/// Whether a function of this name was already collected: the data
/// model keys functions by name, so a second definition is refused.
pub open spec fn spec_fn_declared(funcs: Seq<FunctionV>, name: Seq<char>, j: int) -> bool
    decreases funcs.len() - j,
{
    if j < 0 || j >= funcs.len() {
        false
    } else if funcs[j].name == name {
        true
    } else {
        spec_fn_declared(funcs, name, j + 1)
    }
}

/// Whether a struct of this name was already collected.
pub open spec fn spec_struct_declared(structs: Seq<StructV>, name: Seq<char>, j: int) -> bool
    decreases structs.len() - j,
{
    if j < 0 || j >= structs.len() {
        false
    } else if structs[j].name == name {
        true
    } else {
        spec_struct_declared(structs, name, j + 1)
    }
}

/// Whether a parameter of this name was already collected for the
/// function at hand: parameter names must be unique within one list.
pub open spec fn spec_var_declared(vars: Seq<VariableV>, name: Seq<char>, j: int) -> bool
    decreases vars.len() - j,
{
    if j < 0 || j >= vars.len() {
        false
    } else if vars[j].name == name {
        true
    } else {
        spec_var_declared(vars, name, j + 1)
    }
}

pub open spec fn fuel_err(toks: Seq<TokenV>, pos: int) -> ErrorView {
    syn_err_v(toks, pos, "program too deeply nested"@)
}

// ---------------------------------------------------------------------
// Types
// ---------------------------------------------------------------------

pub open spec fn spec_parse_base_type(toks: Seq<TokenV>, pos: int) -> Result<
    (TypeV, int),
    ErrorView,
> {
    match kind_at(toks, pos) {
        Some(TokenKindV::KwInt) => Ok((TypeV::Int, pos + 1)),
        Some(TokenKindV::KwFloat) => Ok((TypeV::Float, pos + 1)),
        Some(TokenKindV::KwDouble) => Ok((TypeV::Double, pos + 1)),
        Some(TokenKindV::KwChar) => Ok((TypeV::Char, pos + 1)),
        Some(TokenKindV::KwBool) => Ok((TypeV::Bool, pos + 1)),
        Some(TokenKindV::KwVoid) => Ok((TypeV::Void, pos + 1)),
        Some(TokenKindV::KwStruct) => match kind_at(toks, pos + 1) {
            Some(TokenKindV::Ident(name)) => Ok((TypeV::Struct(name), pos + 2)),
            _ => Err(syn_err_v(toks, pos + 1, "expected struct name"@)),
        },
        _ => Err(syn_err_v(toks, pos, "expected a type"@)),
    }
}

pub open spec fn spec_type_stars(t: TypeV, toks: Seq<TokenV>, pos: int) -> (TypeV, int)
    decreases toks.len() - pos,
{
    if kind_at(toks, pos) == Some(TokenKindV::Star) {
        spec_type_stars(TypeV::Pointer(Box::new(t)), toks, pos + 1)
    } else {
        (t, pos)
    }
}

pub open spec fn spec_parse_type(toks: Seq<TokenV>, pos: int) -> Result<(TypeV, int), ErrorView> {
    match spec_parse_base_type(toks, pos) {
        Ok((t, p)) => Ok(spec_type_stars(t, toks, p)),
        Err(e) => Err(e),
    }
}

// ---------------------------------------------------------------------
// Expressions
// ---------------------------------------------------------------------

pub open spec fn spec_parse_primary(toks: Seq<TokenV>, pos: int, fuel: int) -> Result<
    (ExpressionV, int),
    ErrorView,
>
    decreases fuel,
{
    if fuel <= 0 {
        Err(fuel_err(toks, pos))
    } else {
        match kind_at(toks, pos) {
            Some(TokenKindV::IntLit(v)) => Ok((ExpressionV::Literal(LiteralV::Int(v)), pos + 1)),
            Some(TokenKindV::FloatLit(s)) => Ok((
                ExpressionV::Literal(LiteralV::Float(s)),
                pos + 1,
            )),
            Some(TokenKindV::CharLit(c)) => Ok((ExpressionV::Literal(LiteralV::Char(c)), pos + 1)),
            Some(TokenKindV::StrLit(s)) => Ok((
                ExpressionV::Literal(LiteralV::String(s)),
                pos + 1,
            )),
            Some(TokenKindV::KwTrue) => Ok((ExpressionV::Literal(LiteralV::Bool(true)), pos + 1)),
            Some(TokenKindV::KwFalse) => Ok((ExpressionV::Literal(LiteralV::Bool(false)), pos + 1)),
            Some(TokenKindV::KwNull) => Ok((ExpressionV::Literal(LiteralV::Null), pos + 1)),
            Some(TokenKindV::Ident(name)) => Ok((ExpressionV::Variable(name), pos + 1)),
            Some(TokenKindV::LParen) => match spec_parse_expression(toks, pos + 1, fuel - 1) {
                Ok((e, p)) => if kind_at(toks, p) == Some(TokenKindV::RParen) {
                    Ok((e, p + 1))
                } else {
                    Err(syn_err_v(toks, p, "expected closing parenthesis"@))
                },
                Err(e) => Err(e),
            },
            _ => Err(syn_err_v(toks, pos, "expected expression"@)),
        }
    }
}

pub open spec fn spec_parse_args(
    toks: Seq<TokenV>,
    pos: int,
    acc: Seq<ExpressionV>,
    fuel: int,
) -> Result<(Seq<ExpressionV>, int), ErrorView>
    decreases fuel,
{
    if fuel <= 0 {
        Err(fuel_err(toks, pos))
    } else if kind_at(toks, pos) == Some(TokenKindV::RParen) {
        Ok((acc, pos + 1))
    } else {
        match spec_parse_expression(toks, pos, fuel - 1) {
            Ok((e, p)) => if kind_at(toks, p) == Some(TokenKindV::Comma) {
                spec_parse_args(toks, p + 1, acc.push(e), fuel - 1)
            } else if kind_at(toks, p) == Some(TokenKindV::RParen) {
                Ok((acc.push(e), p + 1))
            } else {
                Err(syn_err_v(toks, p, "expected comma or closing parenthesis"@))
            },
            Err(e) => Err(e),
        }
    }
}

pub open spec fn spec_parse_postfix_rest(
    toks: Seq<TokenV>,
    e: ExpressionV,
    pos: int,
    fuel: int,
) -> Result<(ExpressionV, int), ErrorView>
    decreases fuel,
{
    if fuel <= 0 {
        Err(fuel_err(toks, pos))
    } else {
        match kind_at(toks, pos) {
            Some(TokenKindV::LParen) => match e {
                ExpressionV::Variable(name) => match spec_parse_args(
                    toks,
                    pos + 1,
                    Seq::empty(),
                    fuel - 1,
                ) {
                    Ok((args, p2)) => spec_parse_postfix_rest(
                        toks,
                        ExpressionV::Call(name, args),
                        p2,
                        fuel - 1,
                    ),
                    Err(e2) => Err(e2),
                },
                _ => Err(syn_err_v(toks, pos, "expected a function name in call"@)),
            },
            Some(TokenKindV::LBracket) => match spec_parse_expression(toks, pos + 1, fuel - 1) {
                Ok((ix, p2)) => if kind_at(toks, p2) == Some(TokenKindV::RBracket) {
                    spec_parse_postfix_rest(
                        toks,
                        ExpressionV::Index(Box::new(e), Box::new(ix)),
                        p2 + 1,
                        fuel - 1,
                    )
                } else {
                    Err(syn_err_v(toks, p2, "expected closing bracket"@))
                },
                Err(e2) => Err(e2),
            },
            Some(TokenKindV::Dot) => match kind_at(toks, pos + 1) {
                Some(TokenKindV::Ident(name)) => spec_parse_postfix_rest(
                    toks,
                    ExpressionV::Member(Box::new(e), name),
                    pos + 2,
                    fuel - 1,
                ),
                _ => Err(syn_err_v(toks, pos + 1, "expected member name"@)),
            },
            Some(TokenKindV::Arrow) => match kind_at(toks, pos + 1) {
                Some(TokenKindV::Ident(name)) => spec_parse_postfix_rest(
                    toks,
                    ExpressionV::Member(Box::new(ExpressionV::Pointer(Box::new(e))), name),
                    pos + 2,
                    fuel - 1,
                ),
                _ => Err(syn_err_v(toks, pos + 1, "expected member name"@)),
            },
            Some(TokenKindV::PlusPlus) => spec_parse_postfix_rest(
                toks,
                ExpressionV::UnaryOp(UnaryOperator::PostIncrement, Box::new(e)),
                pos + 1,
                fuel - 1,
            ),
            Some(TokenKindV::MinusMinus) => spec_parse_postfix_rest(
                toks,
                ExpressionV::UnaryOp(UnaryOperator::PostDecrement, Box::new(e)),
                pos + 1,
                fuel - 1,
            ),
            _ => Ok((e, pos)),
        }
    }
}

pub open spec fn spec_parse_postfix(toks: Seq<TokenV>, pos: int, fuel: int) -> Result<
    (ExpressionV, int),
    ErrorView,
>
    decreases fuel,
{
    if fuel <= 0 {
        Err(fuel_err(toks, pos))
    } else {
        match spec_parse_primary(toks, pos, fuel - 1) {
            Ok((e, p)) => spec_parse_postfix_rest(toks, e, p, fuel - 1),
            Err(e) => Err(e),
        }
    }
}

pub open spec fn spec_parse_unary(toks: Seq<TokenV>, pos: int, fuel: int) -> Result<
    (ExpressionV, int),
    ErrorView,
>
    decreases fuel,
{
    if fuel <= 0 {
        Err(fuel_err(toks, pos))
    } else {
        match kind_at(toks, pos) {
            Some(TokenKindV::Minus) => match spec_parse_unary(toks, pos + 1, fuel - 1) {
                Ok((e, p)) => Ok((ExpressionV::UnaryOp(UnaryOperator::Negate, Box::new(e)), p)),
                Err(e) => Err(e),
            },
            Some(TokenKindV::Bang) => match spec_parse_unary(toks, pos + 1, fuel - 1) {
                Ok((e, p)) => Ok((ExpressionV::UnaryOp(UnaryOperator::LogicalNot, Box::new(e)), p)),
                Err(e) => Err(e),
            },
            Some(TokenKindV::Tilde) => match spec_parse_unary(toks, pos + 1, fuel - 1) {
                Ok((e, p)) => Ok((ExpressionV::UnaryOp(UnaryOperator::BitwiseNot, Box::new(e)), p)),
                Err(e) => Err(e),
            },
            Some(TokenKindV::PlusPlus) => match spec_parse_unary(toks, pos + 1, fuel - 1) {
                Ok((e, p)) => Ok((
                    ExpressionV::UnaryOp(UnaryOperator::PreIncrement, Box::new(e)),
                    p,
                )),
                Err(e) => Err(e),
            },
            Some(TokenKindV::MinusMinus) => match spec_parse_unary(toks, pos + 1, fuel - 1) {
                Ok((e, p)) => Ok((
                    ExpressionV::UnaryOp(UnaryOperator::PreDecrement, Box::new(e)),
                    p,
                )),
                Err(e) => Err(e),
            },
            Some(TokenKindV::Star) => match spec_parse_unary(toks, pos + 1, fuel - 1) {
                Ok((e, p)) => Ok((ExpressionV::Pointer(Box::new(e)), p)),
                Err(e) => Err(e),
            },
            Some(TokenKindV::Amp) => match spec_parse_unary(toks, pos + 1, fuel - 1) {
                Ok((e, p)) => Ok((ExpressionV::Address(Box::new(e)), p)),
                Err(e) => Err(e),
            },
            Some(TokenKindV::LParen) => if is_type_start(kind_at(toks, pos + 1)) {
                match spec_parse_type(toks, pos + 1) {
                    Ok((t, p)) => if kind_at(toks, p) == Some(TokenKindV::RParen) {
                        match spec_parse_unary(toks, p + 1, fuel - 1) {
                            Ok((e, p2)) => Ok((ExpressionV::Cast(Box::new(e), t), p2)),
                            Err(e2) => Err(e2),
                        }
                    } else {
                        Err(syn_err_v(toks, p, "expected closing parenthesis"@))
                    },
                    Err(e) => Err(e),
                }
            } else {
                spec_parse_postfix(toks, pos, fuel - 1)
            },
            _ => spec_parse_postfix(toks, pos, fuel - 1),
        }
    }
}

pub open spec fn spec_parse_bin(toks: Seq<TokenV>, level: int, pos: int, fuel: int) -> Result<
    (ExpressionV, int),
    ErrorView,
>
    decreases fuel,
{
    if fuel <= 0 {
        Err(fuel_err(toks, pos))
    } else if level > 10 || level < 1 {
        spec_parse_unary(toks, pos, fuel - 1)
    } else {
        match spec_parse_bin(toks, level + 1, pos, fuel - 1) {
            Ok((lhs, p)) => spec_parse_bin_rest(toks, level, lhs, p, fuel - 1),
            Err(e) => Err(e),
        }
    }
}

pub open spec fn spec_parse_bin_rest(
    toks: Seq<TokenV>,
    level: int,
    lhs: ExpressionV,
    pos: int,
    fuel: int,
) -> Result<(ExpressionV, int), ErrorView>
    decreases fuel,
{
    if fuel <= 0 {
        Err(fuel_err(toks, pos))
    } else {
        match kind_at(toks, pos) {
            Some(k) => match level_op(level, k) {
                Some(op) => match spec_parse_bin(toks, level + 1, pos + 1, fuel - 1) {
                    Ok((rhs, p2)) => spec_parse_bin_rest(
                        toks,
                        level,
                        ExpressionV::BinaryOp(Box::new(lhs), op, Box::new(rhs)),
                        p2,
                        fuel - 1,
                    ),
                    Err(e) => Err(e),
                },
                None => Ok((lhs, pos)),
            },
            None => Ok((lhs, pos)),
        }
    }
}

pub open spec fn spec_parse_expression(toks: Seq<TokenV>, pos: int, fuel: int) -> Result<
    (ExpressionV, int),
    ErrorView,
>
    decreases fuel,
{
    if fuel <= 0 {
        Err(fuel_err(toks, pos))
    } else {
        spec_parse_bin(toks, 1, pos, fuel - 1)
    }
}

// ---------------------------------------------------------------------
// Statements
// ---------------------------------------------------------------------

/// A single statement used where a block is expected stands for the
/// one-statement block; a braced block stands for itself.
pub open spec fn spec_wrap_block(s: StatementV) -> BlockV {
    match s {
        StatementV::Block(b) => b,
        _ => BlockV { statements: seq![s] },
    }
}

/// The statement allowed in a `for` head after the condition: an
/// assignment or a bare expression, with no trailing semicolon.
pub open spec fn spec_parse_for_post(toks: Seq<TokenV>, pos: int, fuel: int) -> Result<
    (StatementV, int),
    ErrorView,
>
    decreases fuel,
{
    if fuel <= 0 {
        Err(fuel_err(toks, pos))
    } else {
        match spec_parse_expression(toks, pos, fuel - 1) {
            Ok((lhs, p)) => if kind_at(toks, p) == Some(TokenKindV::Assign) {
                match spec_parse_expression(toks, p + 1, fuel - 1) {
                    Ok((rhs, p2)) => Ok((StatementV::Assignment(lhs, rhs), p2)),
                    Err(e) => Err(e),
                }
            } else {
                Ok((StatementV::Expression(lhs), p))
            },
            Err(e) => Err(e),
        }
    }
}

/// A declared array length: a nonnegative literal that fits the machine.
pub open spec fn array_len_ok(v: int) -> bool {
    0 <= v <= 0x7fffffff
}

/// `[n]` after a declared name makes the type an array of fixed length.
pub open spec fn spec_parse_array_suffix(t: TypeV, toks: Seq<TokenV>, pos: int) -> (Result<
    TypeV,
    ErrorView,
>, int) {
    if kind_at(toks, pos) == Some(TokenKindV::LBracket) {
        match kind_at(toks, pos + 1) {
            Some(TokenKindV::IntLit(v)) => if kind_at(toks, pos + 2) == Some(
                TokenKindV::RBracket,
            ) {
                if array_len_ok(v) {
                    (Ok(TypeV::Array(Box::new(t), Some(v))), pos + 3)
                } else {
                    (Err(syn_err_v(toks, pos + 1, "array length too large"@)), pos + 3)
                }
            } else {
                (Err(syn_err_v(toks, pos + 2, "expected closing bracket"@)), pos + 3)
            },
            _ => (Err(syn_err_v(toks, pos + 1, "expected array length"@)), pos + 3),
        }
    } else {
        (Ok(t), pos)
    }
}

/// A local declaration: `[const] type name [n] [= init] ;`.
pub open spec fn spec_parse_declaration(
    toks: Seq<TokenV>,
    is_const: bool,
    tpos: int,
    fuel: int,
) -> Result<(StatementV, int), ErrorView>
    decreases fuel,
{
    if fuel <= 0 {
        Err(fuel_err(toks, tpos))
    } else {
        match spec_parse_type(toks, tpos) {
            Ok((t, p1)) => match kind_at(toks, p1) {
                Some(TokenKindV::Ident(name)) => {
                    let (t2, p2) = spec_parse_array_suffix(t, toks, p1 + 1);
                    match t2 {
                        Ok(t3) => {
                            let v = VariableV { name, var_type: t3, is_const };
                            if kind_at(toks, p2) == Some(TokenKindV::Assign) {
                                match spec_parse_expression(toks, p2 + 1, fuel - 1) {
                                    Ok((init, p3)) => if kind_at(toks, p3) == Some(
                                        TokenKindV::Semi,
                                    ) {
                                        Ok((StatementV::Declaration(v, Some(init)), p3 + 1))
                                    } else {
                                        Err(syn_err_v(toks, p3, "expected semicolon"@))
                                    },
                                    Err(e) => Err(e),
                                }
                            } else if kind_at(toks, p2) == Some(TokenKindV::Semi) {
                                Ok((StatementV::Declaration(v, None), p2 + 1))
                            } else {
                                Err(syn_err_v(toks, p2, "expected semicolon"@))
                            }
                        },
                        Err(e) => Err(e),
                    }
                },
                _ => Err(syn_err_v(toks, p1, "expected variable name"@)),
            },
            Err(e) => Err(e),
        }
    }
}

pub open spec fn spec_parse_statement(toks: Seq<TokenV>, pos: int, fuel: int) -> Result<
    (StatementV, int),
    ErrorView,
>
    decreases fuel,
{
    if fuel <= 0 {
        Err(fuel_err(toks, pos))
    } else {
        match kind_at(toks, pos) {
            Some(TokenKindV::LBrace) => match spec_parse_block(toks, pos, fuel - 1) {
                Ok((b, p)) => Ok((StatementV::Block(b), p)),
                Err(e) => Err(e),
            },
            Some(TokenKindV::KwIf) => if kind_at(toks, pos + 1) == Some(TokenKindV::LParen) {
                match spec_parse_expression(toks, pos + 2, fuel - 1) {
                    Ok((c, p)) => if kind_at(toks, p) == Some(TokenKindV::RParen) {
                        match spec_parse_statement(toks, p + 1, fuel - 1) {
                            Ok((thens, p2)) => if kind_at(toks, p2) == Some(TokenKindV::KwElse) {
                                match spec_parse_statement(toks, p2 + 1, fuel - 1) {
                                    Ok((elses, p3)) => Ok((
                                        StatementV::If(
                                            c,
                                            spec_wrap_block(thens),
                                            Some(spec_wrap_block(elses)),
                                        ),
                                        p3,
                                    )),
                                    Err(e) => Err(e),
                                }
                            } else {
                                Ok((StatementV::If(c, spec_wrap_block(thens), None), p2))
                            },
                            Err(e) => Err(e),
                        }
                    } else {
                        Err(syn_err_v(toks, p, "expected closing parenthesis"@))
                    },
                    Err(e) => Err(e),
                }
            } else {
                Err(syn_err_v(toks, pos + 1, "expected opening parenthesis"@))
            },
            Some(TokenKindV::KwWhile) => if kind_at(toks, pos + 1) == Some(TokenKindV::LParen) {
                match spec_parse_expression(toks, pos + 2, fuel - 1) {
                    Ok((c, p)) => if kind_at(toks, p) == Some(TokenKindV::RParen) {
                        match spec_parse_statement(toks, p + 1, fuel - 1) {
                            Ok((body, p2)) => Ok((StatementV::While(c, spec_wrap_block(body)), p2)),
                            Err(e) => Err(e),
                        }
                    } else {
                        Err(syn_err_v(toks, p, "expected closing parenthesis"@))
                    },
                    Err(e) => Err(e),
                }
            } else {
                Err(syn_err_v(toks, pos + 1, "expected opening parenthesis"@))
            },
            Some(TokenKindV::KwFor) => if kind_at(toks, pos + 1) == Some(TokenKindV::LParen) {
                match spec_parse_statement(toks, pos + 2, fuel - 1) {
                    Ok((init, p)) => match spec_parse_expression(toks, p, fuel - 1) {
                        Ok((cond, p2)) => if kind_at(toks, p2) == Some(TokenKindV::Semi) {
                            match spec_parse_for_post(toks, p2 + 1, fuel - 1) {
                                Ok((post, p3)) => if kind_at(toks, p3) == Some(
                                    TokenKindV::RParen,
                                ) {
                                    match spec_parse_statement(toks, p3 + 1, fuel - 1) {
                                        Ok((body, p4)) => Ok((
                                            StatementV::For(
                                                Box::new(init),
                                                cond,
                                                Box::new(post),
                                                spec_wrap_block(body),
                                            ),
                                            p4,
                                        )),
                                        Err(e) => Err(e),
                                    }
                                } else {
                                    Err(syn_err_v(toks, p3, "expected closing parenthesis"@))
                                },
                                Err(e) => Err(e),
                            }
                        } else {
                            Err(syn_err_v(toks, p2, "expected semicolon"@))
                        },
                        Err(e) => Err(e),
                    },
                    Err(e) => Err(e),
                }
            } else {
                Err(syn_err_v(toks, pos + 1, "expected opening parenthesis"@))
            },
            Some(TokenKindV::KwReturn) => if kind_at(toks, pos + 1) == Some(TokenKindV::Semi) {
                Ok((StatementV::Return(None), pos + 2))
            } else {
                match spec_parse_expression(toks, pos + 1, fuel - 1) {
                    Ok((e, p)) => if kind_at(toks, p) == Some(TokenKindV::Semi) {
                        Ok((StatementV::Return(Some(e)), p + 1))
                    } else {
                        Err(syn_err_v(toks, p, "expected semicolon"@))
                    },
                    Err(e) => Err(e),
                }
            },
            Some(TokenKindV::KwConst) => spec_parse_declaration(toks, true, pos + 1, fuel - 1),
            Some(k) => if is_type_start(Some(k)) {
                spec_parse_declaration(toks, false, pos, fuel - 1)
            } else {
                match spec_parse_expression(toks, pos, fuel - 1) {
                    Ok((lhs, p)) => if kind_at(toks, p) == Some(TokenKindV::Assign) {
                        match spec_parse_expression(toks, p + 1, fuel - 1) {
                            Ok((rhs, p2)) => if kind_at(toks, p2) == Some(TokenKindV::Semi) {
                                Ok((StatementV::Assignment(lhs, rhs), p2 + 1))
                            } else {
                                Err(syn_err_v(toks, p2, "expected semicolon"@))
                            },
                            Err(e) => Err(e),
                        }
                    } else if kind_at(toks, p) == Some(TokenKindV::Semi) {
                        Ok((StatementV::Expression(lhs), p + 1))
                    } else {
                        Err(syn_err_v(toks, p, "expected semicolon"@))
                    },
                    Err(e) => Err(e),
                }
            },
            None => Err(syn_err_v(toks, pos, "expected statement"@)),
        }
    }
}

pub open spec fn spec_parse_stmts(
    toks: Seq<TokenV>,
    pos: int,
    acc: Seq<StatementV>,
    fuel: int,
) -> Result<(BlockV, int), ErrorView>
    decreases fuel,
{
    if fuel <= 0 {
        Err(fuel_err(toks, pos))
    } else if kind_at(toks, pos) == Some(TokenKindV::RBrace) {
        Ok((BlockV { statements: acc }, pos + 1))
    } else if pos >= toks.len() {
        Err(syn_err_v(toks, pos, "expected closing brace"@))
    } else {
        match spec_parse_statement(toks, pos, fuel - 1) {
            Ok((s, p)) => spec_parse_stmts(toks, p, acc.push(s), fuel - 1),
            Err(e) => Err(e),
        }
    }
}

pub open spec fn spec_parse_block(toks: Seq<TokenV>, pos: int, fuel: int) -> Result<
    (BlockV, int),
    ErrorView,
>
    decreases fuel,
{
    if fuel <= 0 {
        Err(fuel_err(toks, pos))
    } else if kind_at(toks, pos) == Some(TokenKindV::LBrace) {
        spec_parse_stmts(toks, pos + 1, Seq::empty(), fuel - 1)
    } else {
        Err(syn_err_v(toks, pos, "expected opening brace"@))
    }
}

// ---------------------------------------------------------------------
// Top level
// ---------------------------------------------------------------------

pub open spec fn spec_parse_fields(
    toks: Seq<TokenV>,
    pos: int,
    acc: Seq<VariableV>,
    fuel: int,
) -> Result<(Seq<VariableV>, int), ErrorView>
    decreases fuel,
{
    if fuel <= 0 {
        Err(fuel_err(toks, pos))
    } else if kind_at(toks, pos) == Some(TokenKindV::RBrace) {
        Ok((acc, pos + 1))
    } else if pos >= toks.len() {
        Err(syn_err_v(toks, pos, "expected closing brace"@))
    } else {
        match spec_parse_type(toks, pos) {
            Ok((t, p1)) => match kind_at(toks, p1) {
                Some(TokenKindV::Ident(name)) => {
                    let (t2, p2) = spec_parse_array_suffix(t, toks, p1 + 1);
                    match t2 {
                        Ok(t3) => if kind_at(toks, p2) == Some(TokenKindV::Semi) {
                            spec_parse_fields(
                                toks,
                                p2 + 1,
                                acc.push(VariableV { name, var_type: t3, is_const: false }),
                                fuel - 1,
                            )
                        } else {
                            Err(syn_err_v(toks, p2, "expected semicolon"@))
                        },
                        Err(e) => Err(e),
                    }
                },
                _ => Err(syn_err_v(toks, p1, "expected field name"@)),
            },
            Err(e) => Err(e),
        }
    }
}

pub open spec fn spec_parse_params(
    toks: Seq<TokenV>,
    pos: int,
    acc: Seq<VariableV>,
    fuel: int,
) -> Result<(Seq<VariableV>, int), ErrorView>
    decreases fuel,
{
    if fuel <= 0 {
        Err(fuel_err(toks, pos))
    } else if kind_at(toks, pos) == Some(TokenKindV::RParen) {
        Ok((acc, pos + 1))
    } else if acc.len() == 0 && kind_at(toks, pos) == Some(TokenKindV::KwVoid) && kind_at(
        toks,
        pos + 1,
    ) == Some(TokenKindV::RParen) {
        Ok((acc, pos + 2))
    } else {
        match spec_parse_type(toks, pos) {
            Ok((t, p1)) => match kind_at(toks, p1) {
                Some(TokenKindV::Ident(name)) => if spec_var_declared(acc, name, 0) {
                    Err(syn_err_v(toks, p1, "duplicate parameter name"@))
                } else {
                    let v = VariableV { name, var_type: t, is_const: false };
                    if kind_at(toks, p1 + 1) == Some(TokenKindV::Comma) {
                        spec_parse_params(toks, p1 + 2, acc.push(v), fuel - 1)
                    } else if kind_at(toks, p1 + 1) == Some(TokenKindV::RParen) {
                        Ok((acc.push(v), p1 + 2))
                    } else {
                        Err(syn_err_v(toks, p1 + 1, "expected comma or closing parenthesis"@))
                    }
                },
                _ => Err(syn_err_v(toks, p1, "expected parameter name"@)),
            },
            Err(e) => Err(e),
        }
    }
}

pub open spec fn spec_parse_items(
    toks: Seq<TokenV>,
    pos: int,
    funcs: Seq<FunctionV>,
    globals: Seq<VariableV>,
    structs: Seq<StructV>,
    fuel: int,
) -> Result<ProgramV, ErrorView>
    decreases fuel,
{
    if fuel <= 0 {
        Err(fuel_err(toks, pos))
    } else if pos >= toks.len() {
        Ok(ProgramV { functions: funcs, global_variables: globals, structs })
    } else if kind_at(toks, pos) == Some(TokenKindV::KwStruct) && kind_at(toks, pos + 2) == Some(
        TokenKindV::LBrace,
    ) {
        match kind_at(toks, pos + 1) {
            Some(TokenKindV::Ident(name)) => if spec_struct_declared(structs, name, 0) {
                Err(syn_err_v(toks, pos + 1, "redefinition of struct"@))
            } else {
                match spec_parse_fields(
                toks,
                pos + 3,
                Seq::empty(),
                fuel - 1,
            ) {
                Ok((fields, p)) => if kind_at(toks, p) == Some(TokenKindV::Semi) {
                    spec_parse_items(
                        toks,
                        p + 1,
                        funcs,
                        globals,
                        structs.push(StructV { name, fields }),
                        fuel - 1,
                    )
                } else {
                    Err(syn_err_v(toks, p, "expected semicolon"@))
                },
                Err(e) => Err(e),
            }
            },
            _ => Err(syn_err_v(toks, pos + 1, "expected struct name"@)),
        }
    } else {
        let (is_const, tpos) = if kind_at(toks, pos) == Some(TokenKindV::KwConst) {
            (true, pos + 1)
        } else {
            (false, pos)
        };
        match spec_parse_type(toks, tpos) {
            Ok((t, p1)) => match kind_at(toks, p1) {
                Some(TokenKindV::Ident(name)) => if kind_at(toks, p1 + 1) == Some(
                    TokenKindV::LParen,
                ) {
                    if spec_fn_declared(funcs, name, 0) {
                        Err(syn_err_v(toks, p1, "redefinition of function"@))
                    } else {
                    match spec_parse_params(toks, p1 + 2, Seq::empty(), fuel - 1) {
                        Ok((params, p2)) => match spec_parse_block(toks, p2, fuel - 1) {
                            Ok((body, p3)) => spec_parse_items(
                                toks,
                                p3,
                                funcs.push(
                                    FunctionV { name, return_type: t, parameters: params, body },
                                ),
                                globals,
                                structs,
                                fuel - 1,
                            ),
                            Err(e) => Err(e),
                        },
                        Err(e) => Err(e),
                    }
                    }
                } else {
                    let (t2, p2) = spec_parse_array_suffix(t, toks, p1 + 1);
                    match t2 {
                        Ok(t3) => if kind_at(toks, p2) == Some(TokenKindV::Semi) {
                            spec_parse_items(
                                toks,
                                p2 + 1,
                                funcs,
                                globals.push(VariableV { name, var_type: t3, is_const }),
                                structs,
                                fuel - 1,
                            )
                        } else if kind_at(toks, p2) == Some(TokenKindV::Assign) {
                            Err(syn_err_v(toks, p2, "global initializers are not supported"@))
                        } else {
                            Err(syn_err_v(toks, p2, "expected semicolon"@))
                        },
                        Err(e) => Err(e),
                    }
                },
                _ => Err(syn_err_v(toks, p1, "expected a name"@)),
            },
            Err(e) => Err(e),
        }
    }
}

/// The descent budget granted to a whole parse: far more than any
/// derivation of the token sequence can need.
pub open spec fn start_fuel(n: int) -> int {
    32 * n + 64
}

/// The grammar applied to a whole token sequence.
pub open spec fn spec_parse_tokens(toks: Seq<TokenV>) -> Result<ProgramV, ErrorView> {
    spec_parse_items(
        toks,
        0,
        Seq::empty(),
        Seq::empty(),
        Seq::empty(),
        start_fuel(toks.len() as int),
    )
}

/// The parser applied to source bytes: lex, then parse. A source beyond
/// the machine's reach is refused up front.
pub open spec fn spec_parse(src: Seq<u8>) -> Result<ProgramV, ErrorView> {
    if src.len() > 0x7fffff {
        Err(ErrorView::Io { message: "source text too large"@ })
    } else {
        match spec_lex(src) {
            Ok(toks) => if toks.len() > 0x7fffff {
                Err(ErrorView::Io { message: "source text too large"@ })
            } else {
                spec_parse_tokens(toks)
            },
            Err(e) => Err(e),
        }
    }
}


// ---------------------------------------------------------------------
// Executable parser, pinned to the specification above.
// ---------------------------------------------------------------------

fn found_name(toks: &Vec<Token>, pos: usize) -> (r: &'static str)
    ensures
        r@ == spec_found_name(dv_seq(toks@), pos as int),
{
    if pos >= toks.len() {
        return "end of input";
    }
    match &toks[pos].kind {
            TokenKind::KwInt => "'int'",
            TokenKind::KwFloat => "'float'",
            TokenKind::KwDouble => "'double'",
            TokenKind::KwChar => "'char'",
            TokenKind::KwVoid => "'void'",
            TokenKind::KwBool => "'bool'",
            TokenKind::KwIf => "'if'",
            TokenKind::KwElse => "'else'",
            TokenKind::KwWhile => "'while'",
            TokenKind::KwFor => "'for'",
            TokenKind::KwReturn => "'return'",
            TokenKind::KwStruct => "'struct'",
            TokenKind::KwConst => "'const'",
            TokenKind::KwTrue => "'true'",
            TokenKind::KwFalse => "'false'",
            TokenKind::KwNull => "'NULL'",
            TokenKind::LParen => "'('",
            TokenKind::RParen => "')'",
            TokenKind::LBrace => "'{'",
            TokenKind::RBrace => "'}'",
            TokenKind::LBracket => "'['",
            TokenKind::RBracket => "']'",
            TokenKind::Semi => "';'",
            TokenKind::Comma => "','",
            TokenKind::Dot => "'.'",
            TokenKind::Arrow => "'->'",
            TokenKind::Plus => "'+'",
            TokenKind::Minus => "'-'",
            TokenKind::Star => "'*'",
            TokenKind::Slash => "'/'",
            TokenKind::Percent => "'%'",
            TokenKind::Amp => "'&'",
            TokenKind::Pipe => "'|'",
            TokenKind::Caret => "'^'",
            TokenKind::Tilde => "'~'",
            TokenKind::Bang => "'!'",
            TokenKind::Assign => "'='",
            TokenKind::EqEq => "'=='",
            TokenKind::BangEq => "'!='",
            TokenKind::Lt => "'<'",
            TokenKind::Gt => "'>'",
            TokenKind::Le => "'<='",
            TokenKind::Ge => "'>='",
            TokenKind::AmpAmp => "'&&'",
            TokenKind::PipePipe => "'||'",
            TokenKind::Shl => "'<<'",
            TokenKind::Shr => "'>>'",
            TokenKind::PlusPlus => "'++'",
            TokenKind::MinusMinus => "'--'",
            TokenKind::Ident(_) => "identifier",
            TokenKind::IntLit(_) => "integer literal",
            TokenKind::FloatLit(_) => "floating-point literal",
            TokenKind::CharLit(_) => "character literal",
            TokenKind::StrLit(_) => "string literal",
    }
}

fn syn_err(toks: &Vec<Token>, pos: usize, message: &'static str) -> (r: CompileError)
    ensures
        r.deep_view() == syn_err_v(dv_seq(toks@), pos as int, message@),
{
    let found = found_name(toks, pos);
    if toks.len() == 0 {
        CompileError::SyntaxError { message, found, line: 1, col: 1 }
    } else if pos < toks.len() {
        CompileError::SyntaxError { message, found, line: toks[pos].line, col: toks[pos].col }
    } else {
        CompileError::SyntaxError {
            message,
            found,
            line: toks[toks.len() - 1].line,
            col: toks[toks.len() - 1].col,
        }
    }
}

fn at_kind_semi(toks: &Vec<Token>, pos: usize) -> (r: bool)
    ensures
        r == (kind_at(dv_seq(toks@), pos as int) == Some(TokenKindV::Semi)),
{
    pos < toks.len() && matches!(&toks[pos].kind, TokenKind::Semi)
}

fn at_kind_comma(toks: &Vec<Token>, pos: usize) -> (r: bool)
    ensures
        r == (kind_at(dv_seq(toks@), pos as int) == Some(TokenKindV::Comma)),
{
    pos < toks.len() && matches!(&toks[pos].kind, TokenKind::Comma)
}

fn at_kind_lparen(toks: &Vec<Token>, pos: usize) -> (r: bool)
    ensures
        r == (kind_at(dv_seq(toks@), pos as int) == Some(TokenKindV::LParen)),
{
    pos < toks.len() && matches!(&toks[pos].kind, TokenKind::LParen)
}

fn at_kind_rparen(toks: &Vec<Token>, pos: usize) -> (r: bool)
    ensures
        r == (kind_at(dv_seq(toks@), pos as int) == Some(TokenKindV::RParen)),
{
    pos < toks.len() && matches!(&toks[pos].kind, TokenKind::RParen)
}

fn at_kind_lbrace(toks: &Vec<Token>, pos: usize) -> (r: bool)
    ensures
        r == (kind_at(dv_seq(toks@), pos as int) == Some(TokenKindV::LBrace)),
{
    pos < toks.len() && matches!(&toks[pos].kind, TokenKind::LBrace)
}

fn at_kind_rbrace(toks: &Vec<Token>, pos: usize) -> (r: bool)
    ensures
        r == (kind_at(dv_seq(toks@), pos as int) == Some(TokenKindV::RBrace)),
{
    pos < toks.len() && matches!(&toks[pos].kind, TokenKind::RBrace)
}

fn at_kind_rbracket(toks: &Vec<Token>, pos: usize) -> (r: bool)
    ensures
        r == (kind_at(dv_seq(toks@), pos as int) == Some(TokenKindV::RBracket)),
{
    pos < toks.len() && matches!(&toks[pos].kind, TokenKind::RBracket)
}

fn at_kind_lbracket(toks: &Vec<Token>, pos: usize) -> (r: bool)
    ensures
        r == (kind_at(dv_seq(toks@), pos as int) == Some(TokenKindV::LBracket)),
{
    pos < toks.len() && matches!(&toks[pos].kind, TokenKind::LBracket)
}

fn at_kind_assign(toks: &Vec<Token>, pos: usize) -> (r: bool)
    ensures
        r == (kind_at(dv_seq(toks@), pos as int) == Some(TokenKindV::Assign)),
{
    pos < toks.len() && matches!(&toks[pos].kind, TokenKind::Assign)
}

fn at_kind_else(toks: &Vec<Token>, pos: usize) -> (r: bool)
    ensures
        r == (kind_at(dv_seq(toks@), pos as int) == Some(TokenKindV::KwElse)),
{
    pos < toks.len() && matches!(&toks[pos].kind, TokenKind::KwElse)
}

fn at_kind_star(toks: &Vec<Token>, pos: usize) -> (r: bool)
    ensures
        r == (kind_at(dv_seq(toks@), pos as int) == Some(TokenKindV::Star)),
{
    pos < toks.len() && matches!(&toks[pos].kind, TokenKind::Star)
}

fn at_kind_void(toks: &Vec<Token>, pos: usize) -> (r: bool)
    ensures
        r == (kind_at(dv_seq(toks@), pos as int) == Some(TokenKindV::KwVoid)),
{
    pos < toks.len() && matches!(&toks[pos].kind, TokenKind::KwVoid)
}

fn at_type_start(toks: &Vec<Token>, pos: usize) -> (r: bool)
    ensures
        r == is_type_start(kind_at(dv_seq(toks@), pos as int)),
{
    pos < toks.len() && matches!(
        &toks[pos].kind,
        TokenKind::KwInt | TokenKind::KwFloat | TokenKind::KwDouble | TokenKind::KwChar
            | TokenKind::KwBool | TokenKind::KwVoid | TokenKind::KwStruct,
    )
}

fn level_op_exec(level: usize, toks: &Vec<Token>, pos: usize) -> (r: Option<BinaryOperator>)
    ensures
        (match kind_at(dv_seq(toks@), pos as int) {
            Some(k) => r == level_op(level as int, k),
            None => r is None,
        }),
{
    if pos >= toks.len() {
        None
    } else {
        match &toks[pos].kind {
            TokenKind::PipePipe => if level == 1 {
                Some(BinaryOperator::LogicalOr)
            } else {
                None
            },
            TokenKind::AmpAmp => if level == 2 {
                Some(BinaryOperator::LogicalAnd)
            } else {
                None
            },
            TokenKind::Pipe => if level == 3 {
                Some(BinaryOperator::BitwiseOr)
            } else {
                None
            },
            TokenKind::Caret => if level == 4 {
                Some(BinaryOperator::BitwiseXor)
            } else {
                None
            },
            TokenKind::Amp => if level == 5 {
                Some(BinaryOperator::BitwiseAnd)
            } else {
                None
            },
            TokenKind::EqEq => if level == 6 {
                Some(BinaryOperator::Equal)
            } else {
                None
            },
            TokenKind::BangEq => if level == 6 {
                Some(BinaryOperator::NotEqual)
            } else {
                None
            },
            TokenKind::Lt => if level == 7 {
                Some(BinaryOperator::LessThan)
            } else {
                None
            },
            TokenKind::Gt => if level == 7 {
                Some(BinaryOperator::GreaterThan)
            } else {
                None
            },
            TokenKind::Le => if level == 7 {
                Some(BinaryOperator::LessThanOrEqual)
            } else {
                None
            },
            TokenKind::Ge => if level == 7 {
                Some(BinaryOperator::GreaterThanOrEqual)
            } else {
                None
            },
            TokenKind::Shl => if level == 8 {
                Some(BinaryOperator::LeftShift)
            } else {
                None
            },
            TokenKind::Shr => if level == 8 {
                Some(BinaryOperator::RightShift)
            } else {
                None
            },
            TokenKind::Plus => if level == 9 {
                Some(BinaryOperator::Add)
            } else {
                None
            },
            TokenKind::Minus => if level == 9 {
                Some(BinaryOperator::Subtract)
            } else {
                None
            },
            TokenKind::Star => if level == 10 {
                Some(BinaryOperator::Multiply)
            } else {
                None
            },
            TokenKind::Slash => if level == 10 {
                Some(BinaryOperator::Divide)
            } else {
                None
            },
            TokenKind::Percent => if level == 10 {
                Some(BinaryOperator::Modulo)
            } else {
                None
            },
            _ => None,
        }
    }
}

fn p_base_type(toks: &Vec<Token>, pos: usize) -> (r: Result<(Type, usize), CompileError>)
    requires
        pos <= toks@.len(),
        toks@.len() <= 0x7fffff,
    ensures
        (match r {
            Ok((t, p)) => spec_parse_base_type(dv_seq(toks@), pos as int) == Ok::<
                (TypeV, int),
                ErrorView,
            >((t.deep_view(), p as int)) && p <= toks@.len(),
            Err(e) => spec_parse_base_type(dv_seq(toks@), pos as int) == Err::<
                (TypeV, int),
                ErrorView,
            >(e.deep_view()),
        }),
{
    if pos >= toks.len() {
        return Err(syn_err(toks, pos, "expected a type"));
    }
    match &toks[pos].kind {
        TokenKind::KwInt => Ok((Type::Int, pos + 1)),
        TokenKind::KwFloat => Ok((Type::Float, pos + 1)),
        TokenKind::KwDouble => Ok((Type::Double, pos + 1)),
        TokenKind::KwChar => Ok((Type::Char, pos + 1)),
        TokenKind::KwBool => Ok((Type::Bool, pos + 1)),
        TokenKind::KwVoid => Ok((Type::Void, pos + 1)),
        TokenKind::KwStruct => {
            if pos + 1 < toks.len() {
                match &toks[pos + 1].kind {
                    TokenKind::Ident(name) => Ok((Type::Struct(name.clone()), pos + 2)),
                    _ => Err(syn_err(toks, pos + 1, "expected struct name")),
                }
            } else {
                Err(syn_err(toks, pos + 1, "expected struct name"))
            }
        },
        _ => Err(syn_err(toks, pos, "expected a type")),
    }
}

fn p_type_stars(t: Type, toks: &Vec<Token>, pos: usize) -> (r: (Type, usize))
    requires
        pos <= toks@.len(),
        toks@.len() <= 0x7fffff,
    ensures
        spec_type_stars(t.deep_view(), dv_seq(toks@), pos as int) == (r.0.deep_view(), r.1 as int),
        r.1 <= toks@.len(),
    decreases toks@.len() - pos,
{
    if at_kind_star(toks, pos) {
        p_type_stars(Type::Pointer(Box::new(t)), toks, pos + 1)
    } else {
        (t, pos)
    }
}

fn p_type(toks: &Vec<Token>, pos: usize) -> (r: Result<(Type, usize), CompileError>)
    requires
        pos <= toks@.len(),
        toks@.len() <= 0x7fffff,
    ensures
        (match r {
            Ok((t, p)) => spec_parse_type(dv_seq(toks@), pos as int) == Ok::<
                (TypeV, int),
                ErrorView,
            >((t.deep_view(), p as int)) && p <= toks@.len(),
            Err(e) => spec_parse_type(dv_seq(toks@), pos as int) == Err::<
                (TypeV, int),
                ErrorView,
            >(e.deep_view()),
        }),
{
    match p_base_type(toks, pos) {
        Ok((t, p)) => {
            let (t2, p2) = p_type_stars(t, toks, p);
            Ok((t2, p2))
        },
        Err(e) => Err(e),
    }
}

fn p_primary(toks: &Vec<Token>, pos: usize, fuel: usize) -> (r: Result<
    (Expression, usize),
    CompileError,
>)
    requires
        pos <= toks@.len(),
        toks@.len() <= 0x7fffff,
    ensures
        (match r {
            Ok((e, p)) => spec_parse_primary(dv_seq(toks@), pos as int, fuel as int) == Ok::<
                (ExpressionV, int),
                ErrorView,
            >((e.deep_view(), p as int)) && p <= toks@.len(),
            Err(er) => spec_parse_primary(dv_seq(toks@), pos as int, fuel as int) == Err::<
                (ExpressionV, int),
                ErrorView,
            >(er.deep_view()),
        }),
    decreases fuel,
{
    if fuel == 0 {
        return Err(syn_err(toks, pos, "program too deeply nested"));
    }
    if pos >= toks.len() {
        return Err(syn_err(toks, pos, "expected expression"));
    }
    match &toks[pos].kind {
        TokenKind::IntLit(v) => Ok((Expression::Literal(Literal::Int(*v)), pos + 1)),
        TokenKind::FloatLit(s) => Ok((Expression::Literal(Literal::Float(s.clone())), pos + 1)),
        TokenKind::CharLit(c) => Ok((Expression::Literal(Literal::Char(*c)), pos + 1)),
        TokenKind::StrLit(s) => Ok((Expression::Literal(Literal::String(s.clone())), pos + 1)),
        TokenKind::KwTrue => Ok((Expression::Literal(Literal::Bool(true)), pos + 1)),
        TokenKind::KwFalse => Ok((Expression::Literal(Literal::Bool(false)), pos + 1)),
        TokenKind::KwNull => Ok((Expression::Literal(Literal::Null), pos + 1)),
        TokenKind::Ident(name) => Ok((Expression::Variable(name.clone()), pos + 1)),
        TokenKind::LParen => match p_expression(toks, pos + 1, fuel - 1) {
            Ok((e, p)) => if at_kind_rparen(toks, p) {
                Ok((e, p + 1))
            } else {
                Err(syn_err(toks, p, "expected closing parenthesis"))
            },
            Err(e) => Err(e),
        },
        _ => Err(syn_err(toks, pos, "expected expression")),
    }
}

fn p_args(toks: &Vec<Token>, pos: usize, acc: Vec<Expression>, fuel: usize) -> (r: Result<
    (Vec<Expression>, usize),
    CompileError,
>)
    requires
        pos <= toks@.len(),
        toks@.len() <= 0x7fffff,
    ensures
        (match r {
            Ok((es, p)) => spec_parse_args(
                dv_seq(toks@),
                pos as int,
                crate::ast::view_exprs(acc@),
                fuel as int,
            ) == Ok::<(Seq<ExpressionV>, int), ErrorView>((crate::ast::view_exprs(es@), p as int))
                && p <= toks@.len(),
            Err(er) => spec_parse_args(
                dv_seq(toks@),
                pos as int,
                crate::ast::view_exprs(acc@),
                fuel as int,
            ) == Err::<(Seq<ExpressionV>, int), ErrorView>(er.deep_view()),
        }),
    decreases fuel,
{
    if fuel == 0 {
        return Err(syn_err(toks, pos, "program too deeply nested"));
    }
    if at_kind_rparen(toks, pos) {
        return Ok((acc, pos + 1));
    }
    match p_expression(toks, pos, fuel - 1) {
        Ok((e, p)) => if at_kind_comma(toks, p) {
            let ghost pre = acc@;
            let mut acc2 = acc;
            acc2.push(e);
            proof {
                crate::ast::lemma_view_exprs_push(pre, acc2@[pre.len() as int]);
            }
            p_args(toks, p + 1, acc2, fuel - 1)
        } else if at_kind_rparen(toks, p) {
            let ghost pre = acc@;
            let mut acc2 = acc;
            acc2.push(e);
            proof {
                crate::ast::lemma_view_exprs_push(pre, acc2@[pre.len() as int]);
            }
            Ok((acc2, p + 1))
        } else {
            Err(syn_err(toks, p, "expected comma or closing parenthesis"))
        },
        Err(e) => Err(e),
    }
}

fn p_postfix_rest(toks: &Vec<Token>, e: Expression, pos: usize, fuel: usize) -> (r: Result<
    (Expression, usize),
    CompileError,
>)
    requires
        pos <= toks@.len(),
        toks@.len() <= 0x7fffff,
    ensures
        (match r {
            Ok((e2, p)) => spec_parse_postfix_rest(
                dv_seq(toks@),
                e.deep_view(),
                pos as int,
                fuel as int,
            ) == Ok::<(ExpressionV, int), ErrorView>((e2.deep_view(), p as int)) && p
                <= toks@.len(),
            Err(er) => spec_parse_postfix_rest(
                dv_seq(toks@),
                e.deep_view(),
                pos as int,
                fuel as int,
            ) == Err::<(ExpressionV, int), ErrorView>(er.deep_view()),
        }),
    decreases fuel,
{
    if fuel == 0 {
        return Err(syn_err(toks, pos, "program too deeply nested"));
    }
    if pos >= toks.len() {
        return Ok((e, pos));
    }
    match &toks[pos].kind {
        TokenKind::LParen => match e {
            Expression::Variable(name) => {
                let empty_args: Vec<Expression> = Vec::new();
                proof {
                    assert(crate::ast::view_exprs(empty_args@) =~= Seq::<ExpressionV>::empty());
                }
                match p_args(toks, pos + 1, empty_args, fuel - 1) {
                    Ok((args, p2)) => p_postfix_rest(
                        toks,
                        Expression::Call(name, args),
                        p2,
                        fuel - 1,
                    ),
                    Err(e2) => Err(e2),
                }
            },
            _ => Err(syn_err(toks, pos, "expected a function name in call")),
        },
        TokenKind::LBracket => match p_expression(toks, pos + 1, fuel - 1) {
            Ok((ix, p2)) => if at_kind_rbracket(toks, p2) {
                p_postfix_rest(
                    toks,
                    Expression::Index(Box::new(e), Box::new(ix)),
                    p2 + 1,
                    fuel - 1,
                )
            } else {
                Err(syn_err(toks, p2, "expected closing bracket"))
            },
            Err(e2) => Err(e2),
        },
        TokenKind::Dot => {
            if pos + 1 < toks.len() {
                match &toks[pos + 1].kind {
                    TokenKind::Ident(name) => p_postfix_rest(
                        toks,
                        Expression::Member(Box::new(e), name.clone()),
                        pos + 2,
                        fuel - 1,
                    ),
                    _ => Err(syn_err(toks, pos + 1, "expected member name")),
                }
            } else {
                Err(syn_err(toks, pos + 1, "expected member name"))
            }
        },
        TokenKind::Arrow => {
            if pos + 1 < toks.len() {
                match &toks[pos + 1].kind {
                    TokenKind::Ident(name) => {
                        let inner = Expression::Pointer(Box::new(e));
                        proof {
                            assert(inner.deep_view() matches ExpressionV::Pointer(_));
                        }
                        p_postfix_rest(
                            toks,
                            Expression::Member(Box::new(inner), name.clone()),
                            pos + 2,
                            fuel - 1,
                        )
                    },
                    _ => Err(syn_err(toks, pos + 1, "expected member name")),
                }
            } else {
                Err(syn_err(toks, pos + 1, "expected member name"))
            }
        },
        TokenKind::PlusPlus => p_postfix_rest(
            toks,
            Expression::UnaryOp(UnaryOperator::PostIncrement, Box::new(e)),
            pos + 1,
            fuel - 1,
        ),
        TokenKind::MinusMinus => p_postfix_rest(
            toks,
            Expression::UnaryOp(UnaryOperator::PostDecrement, Box::new(e)),
            pos + 1,
            fuel - 1,
        ),
        _ => Ok((e, pos)),
    }
}

fn p_postfix(toks: &Vec<Token>, pos: usize, fuel: usize) -> (r: Result<
    (Expression, usize),
    CompileError,
>)
    requires
        pos <= toks@.len(),
        toks@.len() <= 0x7fffff,
    ensures
        (match r {
            Ok((e, p)) => spec_parse_postfix(dv_seq(toks@), pos as int, fuel as int) == Ok::<
                (ExpressionV, int),
                ErrorView,
            >((e.deep_view(), p as int)) && p <= toks@.len(),
            Err(er) => spec_parse_postfix(dv_seq(toks@), pos as int, fuel as int) == Err::<
                (ExpressionV, int),
                ErrorView,
            >(er.deep_view()),
        }),
    decreases fuel,
{
    if fuel == 0 {
        return Err(syn_err(toks, pos, "program too deeply nested"));
    }
    match p_primary(toks, pos, fuel - 1) {
        Ok((e, p)) => p_postfix_rest(toks, e, p, fuel - 1),
        Err(e) => Err(e),
    }
}

fn p_unary(toks: &Vec<Token>, pos: usize, fuel: usize) -> (r: Result<
    (Expression, usize),
    CompileError,
>)
    requires
        pos <= toks@.len(),
        toks@.len() <= 0x7fffff,
    ensures
        (match r {
            Ok((e, p)) => spec_parse_unary(dv_seq(toks@), pos as int, fuel as int) == Ok::<
                (ExpressionV, int),
                ErrorView,
            >((e.deep_view(), p as int)) && p <= toks@.len(),
            Err(er) => spec_parse_unary(dv_seq(toks@), pos as int, fuel as int) == Err::<
                (ExpressionV, int),
                ErrorView,
            >(er.deep_view()),
        }),
    decreases fuel,
{
    if fuel == 0 {
        return Err(syn_err(toks, pos, "program too deeply nested"));
    }
    if pos >= toks.len() {
        return p_postfix(toks, pos, fuel - 1);
    }
    match &toks[pos].kind {
        TokenKind::Minus => match p_unary(toks, pos + 1, fuel - 1) {
            Ok((e, p)) => Ok((Expression::UnaryOp(UnaryOperator::Negate, Box::new(e)), p)),
            Err(e) => Err(e),
        },
        TokenKind::Bang => match p_unary(toks, pos + 1, fuel - 1) {
            Ok((e, p)) => Ok((Expression::UnaryOp(UnaryOperator::LogicalNot, Box::new(e)), p)),
            Err(e) => Err(e),
        },
        TokenKind::Tilde => match p_unary(toks, pos + 1, fuel - 1) {
            Ok((e, p)) => Ok((Expression::UnaryOp(UnaryOperator::BitwiseNot, Box::new(e)), p)),
            Err(e) => Err(e),
        },
        TokenKind::PlusPlus => match p_unary(toks, pos + 1, fuel - 1) {
            Ok((e, p)) => Ok((Expression::UnaryOp(UnaryOperator::PreIncrement, Box::new(e)), p)),
            Err(e) => Err(e),
        },
        TokenKind::MinusMinus => match p_unary(toks, pos + 1, fuel - 1) {
            Ok((e, p)) => Ok((Expression::UnaryOp(UnaryOperator::PreDecrement, Box::new(e)), p)),
            Err(e) => Err(e),
        },
        TokenKind::Star => match p_unary(toks, pos + 1, fuel - 1) {
            Ok((e, p)) => Ok((Expression::Pointer(Box::new(e)), p)),
            Err(e) => Err(e),
        },
        TokenKind::Amp => match p_unary(toks, pos + 1, fuel - 1) {
            Ok((e, p)) => Ok((Expression::Address(Box::new(e)), p)),
            Err(e) => Err(e),
        },
        TokenKind::LParen => if at_type_start(toks, pos + 1) {
            match p_type(toks, pos + 1) {
                Ok((t, p)) => if at_kind_rparen(toks, p) {
                    match p_unary(toks, p + 1, fuel - 1) {
                        Ok((e, p2)) => Ok((Expression::Cast(Box::new(e), t), p2)),
                        Err(e2) => Err(e2),
                    }
                } else {
                    Err(syn_err(toks, p, "expected closing parenthesis"))
                },
                Err(e) => Err(e),
            }
        } else {
            p_postfix(toks, pos, fuel - 1)
        },
        _ => p_postfix(toks, pos, fuel - 1),
    }
}

fn p_bin(toks: &Vec<Token>, level: usize, pos: usize, fuel: usize) -> (r: Result<
    (Expression, usize),
    CompileError,
>)
    requires
        pos <= toks@.len(),
        toks@.len() <= 0x7fffff,
        level <= 11,
    ensures
        (match r {
            Ok((e, p)) => spec_parse_bin(dv_seq(toks@), level as int, pos as int, fuel as int)
                == Ok::<(ExpressionV, int), ErrorView>((e.deep_view(), p as int)) && p
                <= toks@.len(),
            Err(er) => spec_parse_bin(dv_seq(toks@), level as int, pos as int, fuel as int)
                == Err::<(ExpressionV, int), ErrorView>(er.deep_view()),
        }),
    decreases fuel,
{
    if fuel == 0 {
        return Err(syn_err(toks, pos, "program too deeply nested"));
    }
    if level > 10 || level < 1 {
        p_unary(toks, pos, fuel - 1)
    } else {
        match p_bin(toks, level + 1, pos, fuel - 1) {
            Ok((lhs, p)) => p_bin_rest(toks, level, lhs, p, fuel - 1),
            Err(e) => Err(e),
        }
    }
}

fn p_bin_rest(toks: &Vec<Token>, level: usize, lhs: Expression, pos: usize, fuel: usize) -> (r:
    Result<(Expression, usize), CompileError>)
    requires
        pos <= toks@.len(),
        toks@.len() <= 0x7fffff,
        level <= 11,
    ensures
        (match r {
            Ok((e, p)) => spec_parse_bin_rest(
                dv_seq(toks@),
                level as int,
                lhs.deep_view(),
                pos as int,
                fuel as int,
            ) == Ok::<(ExpressionV, int), ErrorView>((e.deep_view(), p as int)) && p
                <= toks@.len(),
            Err(er) => spec_parse_bin_rest(
                dv_seq(toks@),
                level as int,
                lhs.deep_view(),
                pos as int,
                fuel as int,
            ) == Err::<(ExpressionV, int), ErrorView>(er.deep_view()),
        }),
    decreases fuel,
{
    if fuel == 0 {
        return Err(syn_err(toks, pos, "program too deeply nested"));
    }
    if pos >= toks.len() {
        return Ok((lhs, pos));
    }
    match level_op_exec(level, toks, pos) {
        Some(op) => match p_bin(toks, level + 1, pos + 1, fuel - 1) {
            Ok((rhs, p2)) => p_bin_rest(
                toks,
                level,
                Expression::BinaryOp(Box::new(lhs), op, Box::new(rhs)),
                p2,
                fuel - 1,
            ),
            Err(e) => Err(e),
        },
        None => Ok((lhs, pos)),
    }
}

fn p_expression(toks: &Vec<Token>, pos: usize, fuel: usize) -> (r: Result<
    (Expression, usize),
    CompileError,
>)
    requires
        pos <= toks@.len(),
        toks@.len() <= 0x7fffff,
    ensures
        (match r {
            Ok((e, p)) => spec_parse_expression(dv_seq(toks@), pos as int, fuel as int) == Ok::<
                (ExpressionV, int),
                ErrorView,
            >((e.deep_view(), p as int)) && p <= toks@.len(),
            Err(er) => spec_parse_expression(dv_seq(toks@), pos as int, fuel as int) == Err::<
                (ExpressionV, int),
                ErrorView,
            >(er.deep_view()),
        }),
    decreases fuel,
{
    if fuel == 0 {
        return Err(syn_err(toks, pos, "program too deeply nested"));
    }
    p_bin(toks, 1, pos, fuel - 1)
}


fn wrap_block(s: Statement) -> (r: Block)
    ensures
        r.deep_view() == spec_wrap_block(s.deep_view()),
{
    match s {
        Statement::Block(b) => b,
        other => {
            let ghost ov = other.deep_view();
            let mut v: Vec<Statement> = Vec::new();
            proof {
                assert(crate::ast::view_stmts(v@) =~= Seq::<StatementV>::empty());
            }
            v.push(other);
            proof {
                crate::ast::lemma_view_stmts_push(Seq::empty(), v@[0]);
                assert(crate::ast::view_stmts(v@) =~= seq![ov]);
            }
            Block { statements: v }
        },
    }
}

fn p_for_post(toks: &Vec<Token>, pos: usize, fuel: usize) -> (r: Result<
    (Statement, usize),
    CompileError,
>)
    requires
        pos <= toks@.len(),
        toks@.len() <= 0x7fffff,
    ensures
        (match r {
            Ok((s, p)) => spec_parse_for_post(dv_seq(toks@), pos as int, fuel as int) == Ok::<
                (StatementV, int),
                ErrorView,
            >((s.deep_view(), p as int)) && p <= toks@.len(),
            Err(er) => spec_parse_for_post(dv_seq(toks@), pos as int, fuel as int) == Err::<
                (StatementV, int),
                ErrorView,
            >(er.deep_view()),
        }),
    decreases fuel,
{
    if fuel == 0 {
        return Err(syn_err(toks, pos, "program too deeply nested"));
    }
    match p_expression(toks, pos, fuel - 1) {
        Ok((lhs, p)) => if at_kind_assign(toks, p) {
            match p_expression(toks, p + 1, fuel - 1) {
                Ok((rhs, p2)) => Ok((Statement::Assignment(lhs, rhs), p2)),
                Err(e) => Err(e),
            }
        } else {
            Ok((Statement::Expression(lhs), p))
        },
        Err(e) => Err(e),
    }
}

fn p_array_suffix(t: Type, toks: &Vec<Token>, pos: usize) -> (r: (Result<Type, CompileError>, usize))
    requires
        pos <= toks@.len(),
        toks@.len() <= 0x7fffff,
    ensures
        (match (r.0, spec_parse_array_suffix(t.deep_view(), dv_seq(toks@), pos as int).0) {
            (Ok(t2), Ok(tv)) => t2.deep_view() == tv,
            (Err(e), Err(ev)) => e.deep_view() == ev,
            _ => false,
        }),
        r.1 as int == spec_parse_array_suffix(t.deep_view(), dv_seq(toks@), pos as int).1,
        r.1 <= toks@.len() + 3,
{
    if at_kind_lbracket(toks, pos) {
        if pos + 1 < toks.len() {
            match &toks[pos + 1].kind {
                TokenKind::IntLit(v) => {
                    let v = *v;
                    if at_kind_rbracket(toks, pos + 2) {
                        if 0 <= v && v <= 0x7fffffff {
                            (Ok(Type::Array(Box::new(t), Some(v as usize))), pos + 3)
                        } else {
                            (Err(syn_err(toks, pos + 1, "array length too large")), pos + 3)
                        }
                    } else {
                        (Err(syn_err(toks, pos + 2, "expected closing bracket")), pos + 3)
                    }
                },
                _ => (Err(syn_err(toks, pos + 1, "expected array length")), pos + 3),
            }
        } else {
            (Err(syn_err(toks, pos + 1, "expected array length")), pos + 3)
        }
    } else {
        (Ok(t), pos)
    }
}

fn p_declaration(toks: &Vec<Token>, is_const: bool, tpos: usize, fuel: usize) -> (r: Result<
    (Statement, usize),
    CompileError,
>)
    requires
        tpos <= toks@.len(),
        toks@.len() <= 0x7fffff,
    ensures
        (match r {
            Ok((s, p)) => spec_parse_declaration(dv_seq(toks@), is_const, tpos as int, fuel as int)
                == Ok::<(StatementV, int), ErrorView>((s.deep_view(), p as int)) && p
                <= toks@.len(),
            Err(er) => spec_parse_declaration(dv_seq(toks@), is_const, tpos as int, fuel as int)
                == Err::<(StatementV, int), ErrorView>(er.deep_view()),
        }),
    decreases fuel,
{
    if fuel == 0 {
        return Err(syn_err(toks, tpos, "program too deeply nested"));
    }
    match p_type(toks, tpos) {
        Ok((t, p1)) => {
            if p1 >= toks.len() {
                return Err(syn_err(toks, p1, "expected variable name"));
            }
            match &toks[p1].kind {
                TokenKind::Ident(name) => {
                    let name = name.clone();
                    let (t2r, p2) = p_array_suffix(t, toks, p1 + 1);
                    match t2r {
                        Ok(t3) => {
                            let v = Variable { name, var_type: t3, is_const };
                            if at_kind_assign(toks, p2) {
                                match p_expression(toks, if p2 + 1 <= toks.len() { p2 + 1 } else { toks.len() }, fuel - 1) {
                                    Ok((init, p3)) => if at_kind_semi(toks, p3) {
                                        Ok((Statement::Declaration(v, Some(init)), p3 + 1))
                                    } else {
                                        Err(syn_err(toks, p3, "expected semicolon"))
                                    },
                                    Err(e) => Err(e),
                                }
                            } else if at_kind_semi(toks, p2) {
                                Ok((Statement::Declaration(v, None), p2 + 1))
                            } else {
                                Err(syn_err(toks, p2, "expected semicolon"))
                            }
                        },
                        Err(e) => Err(e),
                    }
                },
                _ => Err(syn_err(toks, p1, "expected variable name")),
            }
        },
        Err(e) => Err(e),
    }
}

fn p_statement(toks: &Vec<Token>, pos: usize, fuel: usize) -> (r: Result<
    (Statement, usize),
    CompileError,
>)
    requires
        pos <= toks@.len(),
        toks@.len() <= 0x7fffff,
    ensures
        (match r {
            Ok((s, p)) => spec_parse_statement(dv_seq(toks@), pos as int, fuel as int) == Ok::<
                (StatementV, int),
                ErrorView,
            >((s.deep_view(), p as int)) && p <= toks@.len(),
            Err(er) => spec_parse_statement(dv_seq(toks@), pos as int, fuel as int) == Err::<
                (StatementV, int),
                ErrorView,
            >(er.deep_view()),
        }),
    decreases fuel,
{
    if fuel == 0 {
        return Err(syn_err(toks, pos, "program too deeply nested"));
    }
    if pos >= toks.len() {
        return Err(syn_err(toks, pos, "expected statement"));
    }
    match &toks[pos].kind {
        TokenKind::LBrace => match p_block(toks, pos, fuel - 1) {
            Ok((b, p)) => Ok((Statement::Block(b), p)),
            Err(e) => Err(e),
        },
        TokenKind::KwIf => if at_kind_lparen(toks, pos + 1) {
            match p_expression(toks, pos + 2, fuel - 1) {
                Ok((c, p)) => if at_kind_rparen(toks, p) {
                    match p_statement(toks, p + 1, fuel - 1) {
                        Ok((thens, p2)) => if at_kind_else(toks, p2) {
                            match p_statement(toks, p2 + 1, fuel - 1) {
                                Ok((elses, p3)) => Ok((
                                    Statement::If(c, wrap_block(thens), Some(wrap_block(elses))),
                                    p3,
                                )),
                                Err(e) => Err(e),
                            }
                        } else {
                            Ok((Statement::If(c, wrap_block(thens), None), p2))
                        },
                        Err(e) => Err(e),
                    }
                } else {
                    Err(syn_err(toks, p, "expected closing parenthesis"))
                },
                Err(e) => Err(e),
            }
        } else {
            Err(syn_err(toks, pos + 1, "expected opening parenthesis"))
        },
        TokenKind::KwWhile => if at_kind_lparen(toks, pos + 1) {
            match p_expression(toks, pos + 2, fuel - 1) {
                Ok((c, p)) => if at_kind_rparen(toks, p) {
                    match p_statement(toks, p + 1, fuel - 1) {
                        Ok((body, p2)) => Ok((Statement::While(c, wrap_block(body)), p2)),
                        Err(e) => Err(e),
                    }
                } else {
                    Err(syn_err(toks, p, "expected closing parenthesis"))
                },
                Err(e) => Err(e),
            }
        } else {
            Err(syn_err(toks, pos + 1, "expected opening parenthesis"))
        },
        TokenKind::KwFor => if at_kind_lparen(toks, pos + 1) {
            match p_statement(toks, pos + 2, fuel - 1) {
                Ok((init, p)) => match p_expression(toks, p, fuel - 1) {
                    Ok((cond, p2)) => if at_kind_semi(toks, p2) {
                        match p_for_post(toks, p2 + 1, fuel - 1) {
                            Ok((post, p3)) => if at_kind_rparen(toks, p3) {
                                match p_statement(toks, p3 + 1, fuel - 1) {
                                    Ok((body, p4)) => Ok((
                                        Statement::For(
                                            Box::new(init),
                                            cond,
                                            Box::new(post),
                                            wrap_block(body),
                                        ),
                                        p4,
                                    )),
                                    Err(e) => Err(e),
                                }
                            } else {
                                Err(syn_err(toks, p3, "expected closing parenthesis"))
                            },
                            Err(e) => Err(e),
                        }
                    } else {
                        Err(syn_err(toks, p2, "expected semicolon"))
                    },
                    Err(e) => Err(e),
                },
                Err(e) => Err(e),
            }
        } else {
            Err(syn_err(toks, pos + 1, "expected opening parenthesis"))
        },
        TokenKind::KwReturn => if at_kind_semi(toks, pos + 1) {
            Ok((Statement::Return(None), pos + 2))
        } else {
            match p_expression(toks, pos + 1, fuel - 1) {
                Ok((e, p)) => if at_kind_semi(toks, p) {
                    Ok((Statement::Return(Some(e)), p + 1))
                } else {
                    Err(syn_err(toks, p, "expected semicolon"))
                },
                Err(e) => Err(e),
            }
        },
        TokenKind::KwConst => p_declaration(toks, true, pos + 1, fuel - 1),
        _ => if at_type_start(toks, pos) {
            p_declaration(toks, false, pos, fuel - 1)
        } else {
            match p_expression(toks, pos, fuel - 1) {
                Ok((lhs, p)) => if at_kind_assign(toks, p) {
                    match p_expression(toks, p + 1, fuel - 1) {
                        Ok((rhs, p2)) => if at_kind_semi(toks, p2) {
                            Ok((Statement::Assignment(lhs, rhs), p2 + 1))
                        } else {
                            Err(syn_err(toks, p2, "expected semicolon"))
                        },
                        Err(e) => Err(e),
                    }
                } else if at_kind_semi(toks, p) {
                    Ok((Statement::Expression(lhs), p + 1))
                } else {
                    Err(syn_err(toks, p, "expected semicolon"))
                },
                Err(e) => Err(e),
            }
        },
    }
}

fn p_stmts(toks: &Vec<Token>, pos: usize, acc: Vec<Statement>, fuel: usize) -> (r: Result<
    (Block, usize),
    CompileError,
>)
    requires
        pos <= toks@.len(),
        toks@.len() <= 0x7fffff,
    ensures
        (match r {
            Ok((b, p)) => spec_parse_stmts(
                dv_seq(toks@),
                pos as int,
                crate::ast::view_stmts(acc@),
                fuel as int,
            ) == Ok::<(BlockV, int), ErrorView>((b.deep_view(), p as int)) && p <= toks@.len(),
            Err(er) => spec_parse_stmts(
                dv_seq(toks@),
                pos as int,
                crate::ast::view_stmts(acc@),
                fuel as int,
            ) == Err::<(BlockV, int), ErrorView>(er.deep_view()),
        }),
    decreases fuel,
{
    if fuel == 0 {
        return Err(syn_err(toks, pos, "program too deeply nested"));
    }
    if at_kind_rbrace(toks, pos) {
        return Ok((Block { statements: acc }, pos + 1));
    }
    if pos >= toks.len() {
        return Err(syn_err(toks, pos, "expected closing brace"));
    }
    match p_statement(toks, pos, fuel - 1) {
        Ok((s, p)) => {
            let ghost pre = acc@;
            let mut acc2 = acc;
            acc2.push(s);
            proof {
                crate::ast::lemma_view_stmts_push(pre, acc2@[pre.len() as int]);
            }
            p_stmts(toks, p, acc2, fuel - 1)
        },
        Err(e) => Err(e),
    }
}

fn p_block(toks: &Vec<Token>, pos: usize, fuel: usize) -> (r: Result<(Block, usize), CompileError>)
    requires
        pos <= toks@.len(),
        toks@.len() <= 0x7fffff,
    ensures
        (match r {
            Ok((b, p)) => spec_parse_block(dv_seq(toks@), pos as int, fuel as int) == Ok::<
                (BlockV, int),
                ErrorView,
            >((b.deep_view(), p as int)) && p <= toks@.len(),
            Err(er) => spec_parse_block(dv_seq(toks@), pos as int, fuel as int) == Err::<
                (BlockV, int),
                ErrorView,
            >(er.deep_view()),
        }),
    decreases fuel,
{
    if fuel == 0 {
        return Err(syn_err(toks, pos, "program too deeply nested"));
    }
    if at_kind_lbrace(toks, pos) {
        let empty_stmts: Vec<Statement> = Vec::new();
        proof {
            assert(crate::ast::view_stmts(empty_stmts@) =~= Seq::<StatementV>::empty());
        }
        p_stmts(toks, pos + 1, empty_stmts, fuel - 1)
    } else {
        Err(syn_err(toks, pos, "expected opening brace"))
    }
}

fn p_fields(toks: &Vec<Token>, pos: usize, acc: Vec<Variable>, fuel: usize) -> (r: Result<
    (Vec<Variable>, usize),
    CompileError,
>)
    requires
        pos <= toks@.len(),
        toks@.len() <= 0x7fffff,
    ensures
        (match r {
            Ok((vs, p)) => spec_parse_fields(
                dv_seq(toks@),
                pos as int,
                crate::ast::view_variables(acc@),
                fuel as int,
            ) == Ok::<(Seq<VariableV>, int), ErrorView>((
                crate::ast::view_variables(vs@),
                p as int,
            )) && p <= toks@.len(),
            Err(er) => spec_parse_fields(
                dv_seq(toks@),
                pos as int,
                crate::ast::view_variables(acc@),
                fuel as int,
            ) == Err::<(Seq<VariableV>, int), ErrorView>(er.deep_view()),
        }),
    decreases fuel,
{
    if fuel == 0 {
        return Err(syn_err(toks, pos, "program too deeply nested"));
    }
    if at_kind_rbrace(toks, pos) {
        return Ok((acc, pos + 1));
    }
    if pos >= toks.len() {
        return Err(syn_err(toks, pos, "expected closing brace"));
    }
    match p_type(toks, pos) {
        Ok((t, p1)) => {
            if p1 >= toks.len() {
                return Err(syn_err(toks, p1, "expected field name"));
            }
            match &toks[p1].kind {
                TokenKind::Ident(name) => {
                    let name = name.clone();
                    let (t2r, p2) = p_array_suffix(t, toks, p1 + 1);
                    match t2r {
                        Ok(t3) => if at_kind_semi(toks, p2) {
                            let ghost pre = acc@;
                            let mut acc2 = acc;
                            acc2.push(Variable { name, var_type: t3, is_const: false });
                            proof {
                                crate::ast::lemma_view_variables_push(pre, acc2@[pre.len() as int]);
                            }
                            p_fields(toks, p2 + 1, acc2, fuel - 1)
                        } else {
                            Err(syn_err(toks, p2, "expected semicolon"))
                        },
                        Err(e) => Err(e),
                    }
                },
                _ => Err(syn_err(toks, p1, "expected field name")),
            }
        },
        Err(e) => Err(e),
    }
}

fn fn_declared(funcs: &Vec<Function>, name: &String, j: usize) -> (r: bool)
    requires
        j <= funcs@.len(),
    ensures
        r == spec_fn_declared(crate::ast::view_fn_seq(funcs@), name@, j as int),
    decreases funcs@.len() - j,
{
    if j >= funcs.len() {
        false
    } else if funcs[j].name.eq(name) {
        true
    } else {
        fn_declared(funcs, name, j + 1)
    }
}

fn struct_declared(structs: &Vec<Struct>, name: &String, j: usize) -> (r: bool)
    requires
        j <= structs@.len(),
    ensures
        r == spec_struct_declared(crate::ast::view_struct_seq(structs@), name@, j as int),
    decreases structs@.len() - j,
{
    if j >= structs.len() {
        false
    } else if structs[j].name.eq(name) {
        true
    } else {
        struct_declared(structs, name, j + 1)
    }
}

fn var_declared(vars: &Vec<Variable>, name: &String, j: usize) -> (r: bool)
    requires
        j <= vars@.len(),
    ensures
        r == spec_var_declared(crate::ast::view_variables(vars@), name@, j as int),
    decreases vars@.len() - j,
{
    if j >= vars.len() {
        false
    } else if vars[j].name.eq(name) {
        true
    } else {
        var_declared(vars, name, j + 1)
    }
}

fn p_params(toks: &Vec<Token>, pos: usize, acc: Vec<Variable>, fuel: usize) -> (r: Result<
    (Vec<Variable>, usize),
    CompileError,
>)
    requires
        pos <= toks@.len(),
        toks@.len() <= 0x7fffff,
    ensures
        (match r {
            Ok((vs, p)) => spec_parse_params(
                dv_seq(toks@),
                pos as int,
                crate::ast::view_variables(acc@),
                fuel as int,
            ) == Ok::<(Seq<VariableV>, int), ErrorView>((
                crate::ast::view_variables(vs@),
                p as int,
            )) && p <= toks@.len(),
            Err(er) => spec_parse_params(
                dv_seq(toks@),
                pos as int,
                crate::ast::view_variables(acc@),
                fuel as int,
            ) == Err::<(Seq<VariableV>, int), ErrorView>(er.deep_view()),
        }),
    decreases fuel,
{
    if fuel == 0 {
        return Err(syn_err(toks, pos, "program too deeply nested"));
    }
    if at_kind_rparen(toks, pos) {
        return Ok((acc, pos + 1));
    }
    if acc.len() == 0 && at_kind_void(toks, pos) && at_kind_rparen(toks, pos + 1) {
        return Ok((acc, pos + 2));
    }
    match p_type(toks, pos) {
        Ok((t, p1)) => {
            if p1 >= toks.len() {
                return Err(syn_err(toks, p1, "expected parameter name"));
            }
            match &toks[p1].kind {
                TokenKind::Ident(name) => {
                    if var_declared(&acc, name, 0) {
                        return Err(syn_err(toks, p1, "duplicate parameter name"));
                    }
                    let name = name.clone();
                    let v = Variable { name, var_type: t, is_const: false };
                    if at_kind_comma(toks, p1 + 1) {
                        let ghost pre = acc@;
                        let mut acc2 = acc;
                        acc2.push(v);
                        proof {
                            crate::ast::lemma_view_variables_push(pre, acc2@[pre.len() as int]);
                        }
                        p_params(toks, p1 + 2, acc2, fuel - 1)
                    } else if at_kind_rparen(toks, p1 + 1) {
                        let ghost pre = acc@;
                        let mut acc2 = acc;
                        acc2.push(v);
                        proof {
                            crate::ast::lemma_view_variables_push(pre, acc2@[pre.len() as int]);
                        }
                        Ok((acc2, p1 + 2))
                    } else {
                        Err(syn_err(toks, p1 + 1, "expected comma or closing parenthesis"))
                    }
                },
                _ => Err(syn_err(toks, p1, "expected parameter name")),
            }
        },
        Err(e) => Err(e),
    }
}

fn p_items(
    toks: &Vec<Token>,
    pos: usize,
    funcs: Vec<Function>,
    globals: Vec<Variable>,
    structs: Vec<Struct>,
    fuel: usize,
) -> (r: Result<AST, CompileError>)
    requires
        pos <= toks@.len(),
        toks@.len() <= 0x7fffff,
    ensures
        (match r {
            Ok(ast) => spec_parse_items(
                dv_seq(toks@),
                pos as int,
                crate::ast::view_fn_seq(funcs@),
                crate::ast::view_variables(globals@),
                crate::ast::view_struct_seq(structs@),
                fuel as int,
            ) == Ok::<ProgramV, ErrorView>(ast.deep_view()),
            Err(er) => spec_parse_items(
                dv_seq(toks@),
                pos as int,
                crate::ast::view_fn_seq(funcs@),
                crate::ast::view_variables(globals@),
                crate::ast::view_struct_seq(structs@),
                fuel as int,
            ) == Err::<ProgramV, ErrorView>(er.deep_view()),
        }),
    decreases fuel,
{
    if fuel == 0 {
        return Err(syn_err(toks, pos, "program too deeply nested"));
    }
    if pos >= toks.len() {
        let ast = AST { functions: funcs, global_variables: globals, structs };
        return Ok(ast);
    }
    let is_struct_def = matches!(&toks[pos].kind, TokenKind::KwStruct) && at_kind_lbrace(
        toks,
        pos + 2,
    );
    if is_struct_def {
        let name = if pos + 1 < toks.len() {
            match &toks[pos + 1].kind {
                TokenKind::Ident(nm) => Some(nm.clone()),
                _ => None,
            }
        } else {
            None
        };
        match name {
            Some(name) => {
                if struct_declared(&structs, &name, 0) {
                    return Err(syn_err(toks, pos + 1, "redefinition of struct"));
                }
                let empty_fields: Vec<Variable> = Vec::new();
                proof {
                    assert(crate::ast::view_variables(empty_fields@) =~= Seq::<VariableV>::empty());
                }
                match p_fields(toks, pos + 3, empty_fields, fuel - 1) {
                    Ok((fields, p)) => if at_kind_semi(toks, p) {
                        let ghost pre = structs@;
                        let mut structs2 = structs;
                        structs2.push(Struct { name, fields });
                        proof {
                            crate::ast::lemma_view_struct_seq_push(pre, structs2@[pre.len() as int]);
                        }
                        p_items(toks, p + 1, funcs, globals, structs2, fuel - 1)
                    } else {
                        Err(syn_err(toks, p, "expected semicolon"))
                    },
                    Err(e) => Err(e),
                }
            },
            None => Err(syn_err(toks, pos + 1, "expected struct name")),
        }
    } else {
        let (is_const, tpos) = if matches!(&toks[pos].kind, TokenKind::KwConst) {
            (true, pos + 1)
        } else {
            (false, pos)
        };
        match p_type(toks, tpos) {
            Ok((t, p1)) => {
                if p1 >= toks.len() {
                    return Err(syn_err(toks, p1, "expected a name"));
                }
                match &toks[p1].kind {
                    TokenKind::Ident(name) => {
                        let name = name.clone();
                        if at_kind_lparen(toks, p1 + 1) {
                            if fn_declared(&funcs, &name, 0) {
                                return Err(syn_err(toks, p1, "redefinition of function"));
                            }
                            let empty_params: Vec<Variable> = Vec::new();
                            proof {
                                assert(crate::ast::view_variables(empty_params@) =~= Seq::<
                                    VariableV,
                                >::empty());
                            }
                            match p_params(toks, p1 + 2, empty_params, fuel - 1) {
                                Ok((params, p2)) => match p_block(toks, p2, fuel - 1) {
                                    Ok((body, p3)) => {
                                        let ghost pre = funcs@;
                                        let mut funcs2 = funcs;
                                        funcs2.push(
                                            Function { name, return_type: t, parameters: params, body },
                                        );
                                        proof {
                                            crate::ast::lemma_view_fn_seq_push(
                                                pre,
                                                funcs2@[pre.len() as int],
                                            );
                                        }
                                        p_items(toks, p3, funcs2, globals, structs, fuel - 1)
                                    },
                                    Err(e) => Err(e),
                                },
                                Err(e) => Err(e),
                            }
                        } else {
                            let (t2r, p2) = p_array_suffix(t, toks, p1 + 1);
                            match t2r {
                                Ok(t3) => if at_kind_semi(toks, p2) {
                                    let ghost pre = globals@;
                                    let mut globals2 = globals;
                                    globals2.push(Variable { name, var_type: t3, is_const });
                                    proof {
                                        crate::ast::lemma_view_variables_push(
                                            pre,
                                            globals2@[pre.len() as int],
                                        );
                                    }
                                    p_items(toks, p2 + 1, funcs, globals2, structs, fuel - 1)
                                } else if at_kind_assign(toks, p2) {
                                    Err(syn_err(toks, p2, "global initializers are not supported"))
                                } else {
                                    Err(syn_err(toks, p2, "expected semicolon"))
                                },
                                Err(e) => Err(e),
                            }
                        }
                    },
                    _ => Err(syn_err(toks, p1, "expected a name")),
                }
            },
            Err(e) => Err(e),
        }
    }
}

/// Parses C source text into an abstract syntax tree, or fails with the
/// first lexical or syntax error, located at the offending token.
pub fn parse(source_code: &str) -> (r: Result<AST, CompileError>)
    ensures
        res_view(r) == spec_parse(source_code.spec_bytes()),
{
    let bytes = source_code.as_bytes();
    if bytes.len() > 0x7fffff {
        return Err(CompileError::IOError { message: "source text too large" });
    }
    match lex(bytes) {
        Err(e) => Err(e),
        Ok(toks) => {
            if toks.len() > 0x7fffff {
                return Err(CompileError::IOError { message: "source text too large" });
            }
            let fuel: usize = 32 * toks.len() + 64;
            let empty_funcs: Vec<Function> = Vec::new();
            let empty_globals: Vec<Variable> = Vec::new();
            let empty_structs: Vec<Struct> = Vec::new();
            proof {
                assert(crate::ast::view_fn_seq(empty_funcs@) =~= Seq::<FunctionV>::empty());
                assert(crate::ast::view_variables(empty_globals@) =~= Seq::<VariableV>::empty());
                assert(crate::ast::view_struct_seq(empty_structs@) =~= Seq::<StructV>::empty());
            }
            p_items(&toks, 0, empty_funcs, empty_globals, empty_structs, fuel)
        },
    }
}

} // verus!
