//! The semantic analyzer: resolves every name against nested lexical
//! scopes (global, function, block; inner declarations shadow outer
//! ones), checks types with C-like promotion (Char and Bool widen to
//! Int; a Float/Double mix widens to Double), checks call arity, resolves
//! struct references, and demands a return on every path of a non-void
//! function, except `main`, which gets an implicit `return 0`. It stops
//! at the first hard error.
use vstd::prelude::*;

use crate::ast::{
    view_program, BinaryOperator, BlockV, ExpressionV, FunctionV, LiteralV, ProgramV, StatementV,
    StructV, TypeV, UnaryOperator, VariableV, AST, Block, Expression, Function, Literal,
    Statement, Struct, Type, Variable,
};
use crate::diag::{res_view, CompileError, ErrorView};

verus! {

broadcast use vstd::std_specs::vec::group_vec_axioms, vstd::seq::group_seq_axioms,
    crate::ast::lemma_view_types_len, crate::ast::lemma_view_exprs_len,
    crate::ast::lemma_view_stmts_len;

/// One declared name in one lexical scope.
pub struct Binding {
    pub name: String,
    pub ty: Type,
    pub is_const: bool,
}

pub struct BindingV {
    pub name: Seq<char>,
    pub ty: TypeV,
    pub is_const: bool,
}

impl DeepView for Binding {
    type V = BindingV;

    open spec fn deep_view(&self) -> BindingV {
        BindingV { name: self.name@, ty: self.ty.deep_view(), is_const: self.is_const }
    }
}

pub open spec fn view_bindings(s: Seq<Binding>) -> Seq<BindingV> {
    Seq::new(s.len(), |i: int| s[i].deep_view())
}

pub open spec fn view_scopes(s: Seq<Vec<Binding>>) -> Seq<Seq<BindingV>> {
    Seq::new(s.len(), |i: int| view_bindings(s[i]@))
}

pub proof fn lemma_view_bindings_push(s: Seq<Binding>, x: Binding)
    ensures
        view_bindings(s.push(x)) =~= view_bindings(s).push(x.deep_view()),
{
}

/// A semantic error names the offending symbol where one exists; the
/// tree carries no source locations, so none are reported here.
pub open spec fn sem_err(message: Seq<char>, name: Seq<char>) -> ErrorView {
    ErrorView::Semantic { message, name, line: 0, col: 0 }
}

// ---------------------------------------------------------------------
// Name lookup
// ---------------------------------------------------------------------

/// Finds a name in one scope, innermost declaration first, among the
/// first `j` entries.
pub open spec fn spec_find_binding(scope: Seq<BindingV>, name: Seq<char>, j: int) -> Option<
    BindingV,
>
    decreases j,
{
    if j <= 0 || j > scope.len() {
        None
    } else if scope[j - 1].name == name {
        Some(scope[j - 1])
    } else {
        spec_find_binding(scope, name, j - 1)
    }
}

pub open spec fn spec_lookup_in(scope: Seq<BindingV>, name: Seq<char>) -> Option<BindingV> {
    spec_find_binding(scope, name, scope.len() as int)
}

/// Finds a name across the scope stack, innermost scope first, among the
/// first `k` scopes.
pub open spec fn spec_find_var(scopes: Seq<Seq<BindingV>>, name: Seq<char>, k: int) -> Option<
    BindingV,
>
    decreases k,
{
    if k <= 0 || k > scopes.len() {
        None
    } else {
        match spec_lookup_in(scopes[k - 1], name) {
            Some(b) => Some(b),
            None => spec_find_var(scopes, name, k - 1),
        }
    }
}

pub open spec fn spec_lookup_var(scopes: Seq<Seq<BindingV>>, name: Seq<char>) -> Option<BindingV> {
    spec_find_var(scopes, name, scopes.len() as int)
}

/// Finds a function by name among indices `j .. end`.
pub open spec fn spec_find_fn(funcs: Seq<FunctionV>, name: Seq<char>, j: int, end: int) -> Option<
    FunctionV,
>
    decreases end - j,
{
    if j < 0 || j >= end || j >= funcs.len() {
        None
    } else if funcs[j].name == name {
        Some(funcs[j])
    } else {
        spec_find_fn(funcs, name, j + 1, end)
    }
}

pub open spec fn spec_lookup_fn(funcs: Seq<FunctionV>, name: Seq<char>) -> Option<FunctionV> {
    spec_find_fn(funcs, name, 0, funcs.len() as int)
}

/// Finds a struct by name among indices `j .. end`.
pub open spec fn spec_find_struct(structs: Seq<StructV>, name: Seq<char>, j: int, end: int)
    -> Option<StructV>
    decreases end - j,
{
    if j < 0 || j >= end || j >= structs.len() {
        None
    } else if structs[j].name == name {
        Some(structs[j])
    } else {
        spec_find_struct(structs, name, j + 1, end)
    }
}

pub open spec fn spec_lookup_struct(structs: Seq<StructV>, name: Seq<char>) -> Option<StructV> {
    spec_find_struct(structs, name, 0, structs.len() as int)
}

/// Finds a field or variable by name among indices `j .. end`.
pub open spec fn spec_find_field(fields: Seq<VariableV>, name: Seq<char>, j: int, end: int)
    -> Option<VariableV>
    decreases end - j,
{
    if j < 0 || j >= end || j >= fields.len() {
        None
    } else if fields[j].name == name {
        Some(fields[j])
    } else {
        spec_find_field(fields, name, j + 1, end)
    }
}

pub open spec fn spec_lookup_field(fields: Seq<VariableV>, name: Seq<char>) -> Option<VariableV> {
    spec_find_field(fields, name, 0, fields.len() as int)
}

// ---------------------------------------------------------------------
// Type rules
// ---------------------------------------------------------------------

pub open spec fn is_numeric(t: TypeV) -> bool {
    t is Int || t is Float || t is Double || t is Char || t is Bool
}

pub open spec fn is_integerish(t: TypeV) -> bool {
    t is Int || t is Char || t is Bool
}

/// A value of a pointer-like type: a pointer, or an array, which decays
/// to a pointer to its element in pointer contexts.
pub open spec fn is_pointerish(t: TypeV) -> bool {
    t is Pointer || t is Array
}

pub open spec fn pointee(t: TypeV) -> TypeV {
    match t {
        TypeV::Pointer(p) => *p,
        TypeV::Array(p, _) => *p,
        _ => TypeV::Void,
    }
}

/// A scalar can steer control flow and take part in logical operators.
pub open spec fn is_scalar(t: TypeV) -> bool {
    is_numeric(t) || is_pointerish(t)
}

/// The common type of a binary arithmetic operation: a Float/Double mix
/// widens to Double; Char and Bool widen to Int.
pub open spec fn promote(t1: TypeV, t2: TypeV) -> TypeV {
    if t1 is Double || t2 is Double {
        TypeV::Double
    } else if t1 is Float || t2 is Float {
        TypeV::Float
    } else {
        TypeV::Int
    }
}

/// Whether a value of type `src` may be assigned (or passed, or
/// returned) where `dst` is expected.
pub open spec fn assignable(dst: TypeV, src: TypeV) -> bool {
    if is_numeric(dst) && is_numeric(src) {
        true
    } else if dst is Pointer && src is Pointer {
        pointee(dst) == pointee(src) || pointee(dst) is Void || pointee(src) is Void
    } else if dst is Pointer && src is Array {
        pointee(dst) == pointee(src) || pointee(dst) is Void
    } else {
        dst == src
    }
}

pub open spec fn is_comparison(op: BinaryOperator) -> bool {
    op is Equal || op is NotEqual || op is LessThan || op is GreaterThan || op is LessThanOrEqual
        || op is GreaterThanOrEqual
}

pub open spec fn is_arith(op: BinaryOperator) -> bool {
    op is Add || op is Subtract || op is Multiply || op is Divide || op is Modulo
}

pub open spec fn is_bitwise(op: BinaryOperator) -> bool {
    op is BitwiseAnd || op is BitwiseOr || op is BitwiseXor || op is LeftShift || op is RightShift
}

pub open spec fn is_logical(op: BinaryOperator) -> bool {
    op is LogicalAnd || op is LogicalOr
}

/// The type of a binary operation, or `None` where the operand types do
/// not fit the operator. Pointer arithmetic is addition or subtraction
/// of an integer and a pointer or array; mixing pointers and integers
/// anywhere else is rejected.
pub open spec fn binop_type(op: BinaryOperator, t1: TypeV, t2: TypeV) -> Option<TypeV> {
    if is_arith(op) {
        if is_numeric(t1) && is_numeric(t2) {
            if op is Modulo {
                if is_integerish(t1) && is_integerish(t2) {
                    Some(TypeV::Int)
                } else {
                    None
                }
            } else {
                Some(promote(t1, t2))
            }
        } else if (op is Add || op is Subtract) && is_pointerish(t1) && is_integerish(t2) {
            Some(TypeV::Pointer(Box::new(pointee(t1))))
        } else if op is Add && is_integerish(t1) && is_pointerish(t2) {
            Some(TypeV::Pointer(Box::new(pointee(t2))))
        } else if op is Subtract && is_pointerish(t1) && is_pointerish(t2) && pointee(t1)
            == pointee(t2) {
            Some(TypeV::Int)
        } else {
            None
        }
    } else if is_comparison(op) {
        if is_numeric(t1) && is_numeric(t2) {
            Some(TypeV::Int)
        } else if is_pointerish(t1) && is_pointerish(t2) {
            Some(TypeV::Int)
        } else {
            None
        }
    } else if is_logical(op) {
        if is_scalar(t1) && is_scalar(t2) {
            Some(TypeV::Int)
        } else {
            None
        }
    } else if is_bitwise(op) {
        if is_integerish(t1) && is_integerish(t2) {
            Some(TypeV::Int)
        } else {
            None
        }
    } else {
        None
    }
}

pub open spec fn literal_type(l: LiteralV) -> TypeV {
    match l {
        LiteralV::Int(_) => TypeV::Int,
        LiteralV::Float(_) => TypeV::Double,
        LiteralV::Char(_) => TypeV::Char,
        LiteralV::String(_) => TypeV::Pointer(Box::new(TypeV::Char)),
        LiteralV::Bool(_) => TypeV::Bool,
        LiteralV::Null => TypeV::Pointer(Box::new(TypeV::Void)),
    }
}

/// An expression a value can be stored into.
pub open spec fn is_lvalue(e: ExpressionV) -> bool {
    e is Variable || e is Index || e is Member || e is Pointer
}

/// Whether a type is fully resolved against the program's structs: every
/// struct reference in it names a defined struct.
pub open spec fn spec_type_resolved(structs: Seq<StructV>, t: TypeV) -> bool
    decreases t,
{
    match t {
        TypeV::Struct(name) => spec_lookup_struct(structs, name) is Some,
        TypeV::Pointer(p) => spec_type_resolved(structs, *p),
        TypeV::Array(p, _) => spec_type_resolved(structs, *p),
        TypeV::Function(_, _) => false,
        _ => true,
    }
}


// ---------------------------------------------------------------------
// Expression checking
// ---------------------------------------------------------------------

/// The type of an expression in the given scopes, or the first semantic
/// error in it.
pub open spec fn spec_check_expr(
    prog: ProgramV,
    scopes: Seq<Seq<BindingV>>,
    e: ExpressionV,
) -> Result<TypeV, ErrorView>
    decreases e, 0int,
{
    match e {
        ExpressionV::Literal(l) => Ok(literal_type(l)),
        ExpressionV::Variable(name) => match spec_lookup_var(scopes, name) {
            Some(b) => Ok(b.ty),
            None => Err(sem_err("undeclared identifier"@, name)),
        },
        ExpressionV::BinaryOp(a, op, b) => match spec_check_expr(prog, scopes, *a) {
            Ok(t1) => match spec_check_expr(prog, scopes, *b) {
                Ok(t2) => match binop_type(op, t1, t2) {
                    Some(t) => Ok(t),
                    None => Err(sem_err("operand types do not fit the operator"@, Seq::empty())),
                },
                Err(er) => Err(er),
            },
            Err(er) => Err(er),
        },
        ExpressionV::UnaryOp(op, a) => match spec_check_expr(prog, scopes, *a) {
            Ok(t) => match op {
                UnaryOperator::Negate => if is_numeric(t) {
                    Ok(promote(t, TypeV::Int))
                } else {
                    Err(sem_err("negation needs a numeric operand"@, Seq::empty()))
                },
                UnaryOperator::LogicalNot => if is_scalar(t) {
                    Ok(TypeV::Int)
                } else {
                    Err(sem_err("logical not needs a scalar operand"@, Seq::empty()))
                },
                UnaryOperator::BitwiseNot => if is_integerish(t) {
                    Ok(TypeV::Int)
                } else {
                    Err(sem_err("bitwise not needs an integer operand"@, Seq::empty()))
                },
                _ => if is_lvalue(*a) && (is_integerish(t) || t is Pointer) {
                    Ok(t)
                } else {
                    Err(
                        sem_err(
                            "increment or decrement needs an integer or pointer place"@,
                            Seq::empty(),
                        ),
                    )
                },
            },
            Err(er) => Err(er),
        },
        ExpressionV::Call(name, args) => if name == "printf"@ {
            if args.len() == 0 {
                Err(sem_err("printf needs a format argument"@, name))
            } else {
                match spec_check_args_any(prog, scopes, args, 0) {
                    Ok(_) => Ok(TypeV::Int),
                    Err(er) => Err(er),
                }
            }
        } else {
            match spec_lookup_fn(prog.functions, name) {
                Some(f) => if f.parameters.len() != args.len() {
                    Err(sem_err("wrong number of arguments"@, name))
                } else {
                    match spec_check_args(prog, scopes, args, f.parameters, 0) {
                        Ok(_) => Ok(f.return_type),
                        Err(er) => Err(er),
                    }
                },
                None => Err(sem_err("call to undeclared function"@, name)),
            }
        },
        ExpressionV::Cast(a, t) => match spec_check_expr(prog, scopes, *a) {
            Ok(_) => if spec_type_resolved(prog.structs, t) {
                Ok(t)
            } else {
                Err(sem_err("cast to unresolved type"@, Seq::empty()))
            },
            Err(er) => Err(er),
        },
        ExpressionV::Index(a, i) => match spec_check_expr(prog, scopes, *a) {
            Ok(t1) => match spec_check_expr(prog, scopes, *i) {
                Ok(t2) => if is_pointerish(t1) && is_integerish(t2) {
                    Ok(pointee(t1))
                } else {
                    Err(sem_err("indexing needs a pointer and an integer"@, Seq::empty()))
                },
                Err(er) => Err(er),
            },
            Err(er) => Err(er),
        },
        ExpressionV::Member(a, name) => match spec_check_expr(prog, scopes, *a) {
            Ok(t) => match t {
                TypeV::Struct(sname) => match spec_lookup_struct(prog.structs, sname) {
                    Some(st) => match spec_lookup_field(st.fields, name) {
                        Some(f) => Ok(f.var_type),
                        None => Err(sem_err("no such field"@, name)),
                    },
                    None => Err(sem_err("unresolved struct"@, sname)),
                },
                _ => Err(sem_err("member access needs a struct value"@, name)),
            },
            Err(er) => Err(er),
        },
        ExpressionV::Pointer(a) => match spec_check_expr(prog, scopes, *a) {
            Ok(t) => if is_pointerish(t) {
                Ok(pointee(t))
            } else {
                Err(sem_err("dereference needs a pointer"@, Seq::empty()))
            },
            Err(er) => Err(er),
        },
        ExpressionV::Address(a) => match spec_check_expr(prog, scopes, *a) {
            Ok(t) => if is_lvalue(*a) {
                Ok(TypeV::Pointer(Box::new(t)))
            } else {
                Err(sem_err("address of a value that has no place"@, Seq::empty()))
            },
            Err(er) => Err(er),
        },
    }
}

/// Checks call arguments against declared parameter types.
pub open spec fn spec_check_args(
    prog: ProgramV,
    scopes: Seq<Seq<BindingV>>,
    args: Seq<ExpressionV>,
    params: Seq<VariableV>,
    i: int,
) -> Result<(), ErrorView>
    decreases args, args.len() - i,
{
    if i < 0 || i >= args.len() || args.len() != params.len() {
        Ok(())
    } else {
        match spec_check_expr(prog, scopes, args[i]) {
            Ok(t) => if assignable(params[i].var_type, t) {
                spec_check_args(prog, scopes, args, params, i + 1)
            } else {
                Err(sem_err("argument type does not fit the parameter"@, params[i].name))
            },
            Err(er) => Err(er),
        }
    }
}

/// Checks the arguments of a recognized variadic library call, where any
/// well-typed argument is accepted.
pub open spec fn spec_check_args_any(
    prog: ProgramV,
    scopes: Seq<Seq<BindingV>>,
    args: Seq<ExpressionV>,
    i: int,
) -> Result<(), ErrorView>
    decreases args, args.len() - i,
{
    if i < 0 || i >= args.len() {
        Ok(())
    } else {
        match spec_check_expr(prog, scopes, args[i]) {
            Ok(_) => spec_check_args_any(prog, scopes, args, i + 1),
            Err(er) => Err(er),
        }
    }
}



// ---------------------------------------------------------------------
// Statement and program checking
// ---------------------------------------------------------------------

/// Checks one statement; a declaration extends the innermost scope, and
/// every other statement leaves the scopes as they were.
pub open spec fn spec_check_stmt(
    prog: ProgramV,
    scopes: Seq<Seq<BindingV>>,
    ret: TypeV,
    s: StatementV,
) -> Result<Seq<Seq<BindingV>>, ErrorView>
    decreases s, 0int,
{
    match s {
        StatementV::Declaration(v, init) => if scopes.len() == 0 {
            Err(sem_err("declaration outside any scope"@, v.name))
        } else if !spec_type_resolved(prog.structs, v.var_type) {
            Err(sem_err("unresolved type in declaration"@, v.name))
        } else if spec_lookup_in(scopes.last(), v.name) is Some {
            Err(sem_err("redeclaration in the same scope"@, v.name))
        } else {
            let entry = BindingV { name: v.name, ty: v.var_type, is_const: v.is_const };
            match init {
                Some(e) => match spec_check_expr(prog, scopes, e) {
                    Ok(t) => if assignable(v.var_type, t) {
                        Ok(scopes.drop_last().push(scopes.last().push(entry)))
                    } else {
                        Err(sem_err("initializer type does not fit"@, v.name))
                    },
                    Err(er) => Err(er),
                },
                None => Ok(scopes.drop_last().push(scopes.last().push(entry))),
            }
        },
        StatementV::Assignment(lhs, rhs) => match spec_check_expr(prog, scopes, lhs) {
            Ok(t1) => if !is_lvalue(lhs) {
                Err(sem_err("assignment needs a place to store into"@, Seq::empty()))
            } else {
                let const_violation = match lhs {
                    ExpressionV::Variable(name) => match spec_lookup_var(scopes, name) {
                        Some(b) => b.is_const,
                        None => false,
                    },
                    _ => false,
                };
                if const_violation {
                    Err(sem_err("assignment to a constant"@, Seq::empty()))
                } else {
                    match spec_check_expr(prog, scopes, rhs) {
                        Ok(t2) => if assignable(t1, t2) {
                            Ok(scopes)
                        } else {
                            Err(sem_err("assigned type does not fit"@, Seq::empty()))
                        },
                        Err(er) => Err(er),
                    }
                }
            },
            Err(er) => Err(er),
        },
        StatementV::If(c, t, e) => match spec_check_expr(prog, scopes, c) {
            Ok(tc) => if !is_scalar(tc) {
                Err(sem_err("condition must be scalar"@, Seq::empty()))
            } else {
                match spec_check_block(prog, scopes, ret, t) {
                    Ok(_) => match e {
                        Some(eb) => match spec_check_block(prog, scopes, ret, eb) {
                            Ok(_) => Ok(scopes),
                            Err(er) => Err(er),
                        },
                        None => Ok(scopes),
                    },
                    Err(er) => Err(er),
                }
            },
            Err(er) => Err(er),
        },
        StatementV::While(c, b) => match spec_check_expr(prog, scopes, c) {
            Ok(tc) => if !is_scalar(tc) {
                Err(sem_err("condition must be scalar"@, Seq::empty()))
            } else {
                match spec_check_block(prog, scopes, ret, b) {
                    Ok(_) => Ok(scopes),
                    Err(er) => Err(er),
                }
            },
            Err(er) => Err(er),
        },
        StatementV::For(init, c, post, b) => {
            let inner = scopes.push(Seq::empty());
            match spec_check_stmt(prog, inner, ret, *init) {
                Ok(inner2) => match spec_check_expr(prog, inner2, c) {
                    Ok(tc) => if !is_scalar(tc) {
                        Err(sem_err("condition must be scalar"@, Seq::empty()))
                    } else {
                        match spec_check_stmt(prog, inner2, ret, *post) {
                            Ok(_) => match spec_check_block(prog, inner2, ret, b) {
                                Ok(_) => Ok(scopes),
                                Err(er) => Err(er),
                            },
                            Err(er) => Err(er),
                        }
                    },
                    Err(er) => Err(er),
                },
                Err(er) => Err(er),
            }
        },
        StatementV::Return(oe) => match oe {
            Some(e) => match spec_check_expr(prog, scopes, e) {
                Ok(t) => if assignable(ret, t) {
                    Ok(scopes)
                } else {
                    Err(sem_err("returned type does not fit"@, Seq::empty()))
                },
                Err(er) => Err(er),
            },
            None => if ret is Void {
                Ok(scopes)
            } else {
                Err(sem_err("missing return value"@, Seq::empty()))
            },
        },
        StatementV::Expression(e) => match spec_check_expr(prog, scopes, e) {
            Ok(_) => Ok(scopes),
            Err(er) => Err(er),
        },
        StatementV::Block(b) => match spec_check_block(prog, scopes, ret, b) {
            Ok(_) => Ok(scopes),
            Err(er) => Err(er),
        },
    }
}

/// Checks a block in a fresh innermost scope, popped on exit.
pub open spec fn spec_check_block(
    prog: ProgramV,
    scopes: Seq<Seq<BindingV>>,
    ret: TypeV,
    b: BlockV,
) -> Result<(), ErrorView>
    decreases b, 0int,
{
    spec_check_stmts(prog, scopes.push(Seq::empty()), ret, b.statements, 0)
}

pub open spec fn spec_check_stmts(
    prog: ProgramV,
    scopes: Seq<Seq<BindingV>>,
    ret: TypeV,
    stmts: Seq<StatementV>,
    i: int,
) -> Result<(), ErrorView>
    decreases stmts, stmts.len() - i,
{
    if i < 0 || i >= stmts.len() {
        Ok(())
    } else {
        match spec_check_stmt(prog, scopes, ret, stmts[i]) {
            Ok(sc2) => spec_check_stmts(prog, sc2, ret, stmts, i + 1),
            Err(er) => Err(er),
        }
    }
}

/// Whether every control-flow path through the statement reaches a
/// `return`.
pub open spec fn stmt_returns(s: StatementV) -> bool
    decreases s, 0int,
{
    match s {
        StatementV::Return(_) => true,
        StatementV::If(_, t, e) => match e {
            Some(eb) => block_returns(t) && block_returns(eb),
            None => false,
        },
        StatementV::Block(b) => block_returns(b),
        _ => false,
    }
}

pub open spec fn block_returns(b: BlockV) -> bool
    decreases b, 0int,
{
    stmts_return(b.statements, 0)
}

pub open spec fn stmts_return(stmts: Seq<StatementV>, i: int) -> bool
    decreases stmts, stmts.len() - i,
{
    if i < 0 || i >= stmts.len() {
        false
    } else {
        stmt_returns(stmts[i]) || stmts_return(stmts, i + 1)
    }
}

/// The scope of a declared variable list (globals, or parameters).
pub open spec fn vars_scope(vars: Seq<VariableV>) -> Seq<BindingV> {
    Seq::new(vars.len(), |i: int| BindingV {
        name: vars[i].name,
        ty: vars[i].var_type,
        is_const: vars[i].is_const,
    })
}

/// Checks the struct table: each struct's name is new, its field names
/// are unique, and its field types resolve against the structs defined
/// before it (so struct sizes are well-founded).
pub open spec fn spec_check_structs(structs: Seq<StructV>, i: int) -> Result<(), ErrorView>
    decreases structs.len() - i,
{
    if i < 0 || i >= structs.len() {
        Ok(())
    } else {
        let st = structs[i];
        if spec_find_struct(structs, st.name, 0, i) is Some {
            Err(sem_err("redefinition of struct"@, st.name))
        } else {
            match spec_check_fields(structs.take(i), st.fields, 0) {
                Ok(_) => spec_check_structs(structs, i + 1),
                Err(er) => Err(er),
            }
        }
    }
}

pub open spec fn spec_check_fields(
    earlier: Seq<StructV>,
    fields: Seq<VariableV>,
    j: int,
) -> Result<(), ErrorView>
    decreases fields.len() - j,
{
    if j < 0 || j >= fields.len() {
        Ok(())
    } else if spec_find_field(fields, fields[j].name, 0, j) is Some {
        Err(sem_err("duplicate field name"@, fields[j].name))
    } else if !spec_type_resolved(earlier, fields[j].var_type) {
        Err(sem_err("unresolved field type"@, fields[j].name))
    } else {
        spec_check_fields(earlier, fields, j + 1)
    }
}

pub open spec fn spec_check_globals(prog: ProgramV, i: int) -> Result<(), ErrorView>
    decreases prog.global_variables.len() - i,
{
    if i < 0 || i >= prog.global_variables.len() {
        Ok(())
    } else {
        let g = prog.global_variables[i];
        if spec_find_field(prog.global_variables, g.name, 0, i) is Some {
            Err(sem_err("redeclaration of global"@, g.name))
        } else if !spec_type_resolved(prog.structs, g.var_type) {
            Err(sem_err("unresolved type in declaration"@, g.name))
        } else {
            spec_check_globals(prog, i + 1)
        }
    }
}

pub open spec fn spec_check_params(prog: ProgramV, params: Seq<VariableV>, j: int) -> Result<
    (),
    ErrorView,
>
    decreases params.len() - j,
{
    if j < 0 || j >= params.len() {
        Ok(())
    } else if spec_find_field(params, params[j].name, 0, j) is Some {
        Err(sem_err("duplicate parameter name"@, params[j].name))
    } else if !spec_type_resolved(prog.structs, params[j].var_type) {
        Err(sem_err("unresolved parameter type"@, params[j].name))
    } else {
        spec_check_params(prog, params, j + 1)
    }
}

pub open spec fn spec_check_funcs(prog: ProgramV, i: int) -> Result<(), ErrorView>
    decreases prog.functions.len() - i,
{
    if i < 0 || i >= prog.functions.len() {
        Ok(())
    } else {
        let f = prog.functions[i];
        if spec_find_fn(prog.functions, f.name, 0, i) is Some {
            Err(sem_err("redefinition of function"@, f.name))
        } else if !spec_type_resolved(prog.structs, f.return_type) {
            Err(sem_err("unresolved return type"@, f.name))
        } else {
            match spec_check_params(prog, f.parameters, 0) {
                Ok(_) => {
                    let scopes = seq![vars_scope(prog.global_variables), vars_scope(f.parameters)];
                    match spec_check_block(prog, scopes, f.return_type, f.body) {
                        Ok(_) => if f.return_type is Void || f.name == "main"@ || block_returns(
                            f.body,
                        ) {
                            spec_check_funcs(prog, i + 1)
                        } else {
                            Err(sem_err("not every path returns a value"@, f.name))
                        },
                        Err(er) => Err(er),
                    }
                },
                Err(er) => Err(er),
            }
        }
    }
}

/// The whole analysis: struct table, globals, then every function.
pub open spec fn spec_analyze(prog: ProgramV) -> Result<(), ErrorView> {
    match spec_check_structs(prog.structs, 0) {
        Ok(_) => match spec_check_globals(prog, 0) {
            Ok(_) => spec_check_funcs(prog, 0),
            Err(er) => Err(er),
        },
        Err(er) => Err(er),
    }
}


// ---------------------------------------------------------------------
// Executable analyzer, pinned to the specification above.
// ---------------------------------------------------------------------

pub proof fn lemma_view_scopes_push(s: Seq<Vec<Binding>>, x: Vec<Binding>)
    ensures
        view_scopes(s.push(x)) =~= view_scopes(s).push(view_bindings(x@)),
{
}

fn sem_err_exec(message: &'static str, name: String) -> (r: CompileError)
    ensures
        r.deep_view() == sem_err(message@, name@),
{
    CompileError::SemanticError { message, name, line: 0, col: 0 }
}

/// A structural copy of a type, used where a scope entry's type is
/// reported to a caller.
pub fn clone_type(t: &Type) -> (r: Type)
    ensures
        r.deep_view() == t.deep_view(),
    decreases t, 0nat,
{
    match t {
        Type::Void => Type::Void,
        Type::Int => Type::Int,
        Type::Float => Type::Float,
        Type::Double => Type::Double,
        Type::Char => Type::Char,
        Type::Bool => Type::Bool,
        Type::Pointer(p) => Type::Pointer(Box::new(clone_type(p))),
        Type::Array(p, n) => Type::Array(
            Box::new(clone_type(p)),
            match n {
                Some(k) => Some(*k),
                None => None,
            },
        ),
        Type::Struct(name) => Type::Struct(name.clone()),
        Type::Function(ret, params) => {
            let ps = clone_types(params, params.len());
            proof {
                assert(params@.take(params@.len() as int) =~= params@);
            }
            Type::Function(Box::new(clone_type(ret)), ps)
        },
    }
}

/// A structural copy of the first `n` types of a list.
fn clone_types(params: &Vec<Type>, n: usize) -> (r: Vec<Type>)
    requires
        n <= params@.len(),
    ensures
        crate::ast::view_types(r@) == crate::ast::view_types(params@.take(n as int)),
    decreases params@, n,
{
    if n == 0 {
        let r: Vec<Type> = Vec::new();
        proof {
            assert(crate::ast::view_types(r@) =~= Seq::<TypeV>::empty());
            assert(crate::ast::view_types(params@.take(0)) =~= Seq::<TypeV>::empty());
        }
        r
    } else {
        let mut r = clone_types(params, n - 1);
        let ghost pre = r@;
        r.push(clone_type(&params[n - 1]));
        proof {
            crate::ast::lemma_view_types_push(pre, r@[pre.len() as int]);
            assert(params@.take(n as int).drop_last() =~= params@.take(n as int - 1));
            assert(params@.take(n as int).last() == params@[n as int - 1]);
        }
        r
    }
}

fn find_binding(scope: &Vec<Binding>, name: &String, j: usize) -> (r: Option<(Type, bool)>)
    requires
        j <= scope@.len(),
    ensures
        (match r {
            Some((t, c)) => spec_find_binding(view_bindings(scope@), name@, j as int) matches Some(
                b,
            ) && b.ty == t.deep_view() && b.is_const == c,
            None => spec_find_binding(view_bindings(scope@), name@, j as int) is None,
        }),
    decreases j,
{
    if j == 0 {
        None
    } else if scope[j - 1].name.eq(name) {
        Some((clone_type(&scope[j - 1].ty), scope[j - 1].is_const))
    } else {
        find_binding(scope, name, j - 1)
    }
}

fn find_var(scopes: &Vec<Vec<Binding>>, name: &String, k: usize) -> (r: Option<(Type, bool)>)
    requires
        k <= scopes@.len(),
    ensures
        (match r {
            Some((t, c)) => spec_find_var(view_scopes(scopes@), name@, k as int) matches Some(b)
                && b.ty == t.deep_view() && b.is_const == c,
            None => spec_find_var(view_scopes(scopes@), name@, k as int) is None,
        }),
    decreases k,
{
    if k == 0 {
        None
    } else {
        match find_binding(&scopes[k - 1], name, scopes[k - 1].len()) {
            Some(tc) => Some(tc),
            None => find_var(scopes, name, k - 1),
        }
    }
}

fn lookup_var_exec(scopes: &Vec<Vec<Binding>>, name: &String) -> (r: Option<(Type, bool)>)
    ensures
        (match r {
            Some((t, c)) => spec_lookup_var(view_scopes(scopes@), name@) matches Some(b) && b.ty
                == t.deep_view() && b.is_const == c,
            None => spec_lookup_var(view_scopes(scopes@), name@) is None,
        }),
{
    find_var(scopes, name, scopes.len())
}

fn find_fn(funcs: &Vec<Function>, name: &String, j: usize, end: usize) -> (r: Option<usize>)
    requires
        end <= funcs@.len(),
    ensures
        (match r {
            Some(k) => j <= k < end && spec_find_fn(
                crate::ast::view_fn_seq(funcs@),
                name@,
                j as int,
                end as int,
            ) == Some(crate::ast::view_function(funcs@[k as int])),
            None => spec_find_fn(crate::ast::view_fn_seq(funcs@), name@, j as int, end as int)
                is None,
        }),
    decreases end - j,
{
    if j >= end {
        None
    } else if funcs[j].name.eq(name) {
        Some(j)
    } else {
        find_fn(funcs, name, j + 1, end)
    }
}

fn find_struct(structs: &Vec<Struct>, name: &String, j: usize, end: usize) -> (r: Option<usize>)
    requires
        end <= structs@.len(),
    ensures
        (match r {
            Some(k) => j <= k < end && spec_find_struct(
                crate::ast::view_struct_seq(structs@),
                name@,
                j as int,
                end as int,
            ) == Some(crate::ast::view_struct(structs@[k as int])),
            None => spec_find_struct(
                crate::ast::view_struct_seq(structs@),
                name@,
                j as int,
                end as int,
            ) is None,
        }),
    decreases end - j,
{
    if j >= end {
        None
    } else if structs[j].name.eq(name) {
        Some(j)
    } else {
        find_struct(structs, name, j + 1, end)
    }
}

fn find_field(fields: &Vec<Variable>, name: &String, j: usize, end: usize) -> (r: Option<usize>)
    requires
        end <= fields@.len(),
    ensures
        (match r {
            Some(k) => j <= k < end && spec_find_field(
                crate::ast::view_variables(fields@),
                name@,
                j as int,
                end as int,
            ) == Some(crate::ast::view_variable(fields@[k as int])),
            None => spec_find_field(
                crate::ast::view_variables(fields@),
                name@,
                j as int,
                end as int,
            ) is None,
        }),
    decreases end - j,
{
    if j >= end {
        None
    } else if fields[j].name.eq(name) {
        Some(j)
    } else {
        find_field(fields, name, j + 1, end)
    }
}

fn type_resolved(structs: &Vec<Struct>, t: &Type) -> (r: bool)
    ensures
        r == spec_type_resolved(crate::ast::view_struct_seq(structs@), t.deep_view()),
    decreases t,
{
    match t {
        Type::Struct(name) => find_struct(structs, name, 0, structs.len()).is_some(),
        Type::Pointer(p) => type_resolved(structs, p),
        Type::Array(p, _) => type_resolved(structs, p),
        Type::Function(_, _) => false,
        _ => true,
    }
}

fn is_numeric_exec(t: &Type) -> (r: bool)
    ensures
        r == is_numeric(t.deep_view()),
{
    matches!(t, Type::Int | Type::Float | Type::Double | Type::Char | Type::Bool)
}

fn is_integerish_exec(t: &Type) -> (r: bool)
    ensures
        r == is_integerish(t.deep_view()),
{
    matches!(t, Type::Int | Type::Char | Type::Bool)
}

fn is_pointerish_exec(t: &Type) -> (r: bool)
    ensures
        r == is_pointerish(t.deep_view()),
{
    matches!(t, Type::Pointer(_) | Type::Array(_, _))
}

fn is_scalar_exec(t: &Type) -> (r: bool)
    ensures
        r == is_scalar(t.deep_view()),
{
    is_numeric_exec(t) || is_pointerish_exec(t)
}

fn pointee_exec(t: &Type) -> (r: Type)
    ensures
        r.deep_view() == pointee(t.deep_view()),
{
    match t {
        Type::Pointer(p) => clone_type(p),
        Type::Array(p, _) => clone_type(p),
        _ => Type::Void,
    }
}

fn promote_exec(t1: &Type, t2: &Type) -> (r: Type)
    ensures
        r.deep_view() == promote(t1.deep_view(), t2.deep_view()),
{
    if matches!(t1, Type::Double) || matches!(t2, Type::Double) {
        Type::Double
    } else if matches!(t1, Type::Float) || matches!(t2, Type::Float) {
        Type::Float
    } else {
        Type::Int
    }
}

fn types_equal(t1: &Type, t2: &Type) -> (r: bool)
    ensures
        r == (t1.deep_view() == t2.deep_view()),
    decreases t1, 0nat,
{
    match (t1, t2) {
        (Type::Void, Type::Void) => true,
        (Type::Int, Type::Int) => true,
        (Type::Float, Type::Float) => true,
        (Type::Double, Type::Double) => true,
        (Type::Char, Type::Char) => true,
        (Type::Bool, Type::Bool) => true,
        (Type::Pointer(a), Type::Pointer(b)) => types_equal(a, b),
        (Type::Array(a, n1), Type::Array(b, n2)) => {
            let nk = match (n1, n2) {
                (Some(x), Some(y)) => *x == *y,
                (None, None) => true,
                _ => false,
            };
            nk && types_equal(a, b)
        },
        (Type::Struct(a), Type::Struct(b)) => a.eq(b),
        (Type::Function(r1, p1), Type::Function(r2, p2)) => {
            if p1.len() != p2.len() {
                proof {
                    assert(crate::ast::view_types(p1@).len() == p1@.len()) by {
                        crate::ast::lemma_view_types_len(p1@);
                    }
                    assert(crate::ast::view_types(p2@).len() == p2@.len()) by {
                        crate::ast::lemma_view_types_len(p2@);
                    }
                }
                false
            } else {
                let heads = types_equal(r1, r2);
                let tails = types_equal_list(p1, p2, p1.len());
                proof {
                    assert(p1@.take(p1@.len() as int) =~= p1@);
                    assert(p2@.take(p2@.len() as int) =~= p2@);
                }
                heads && tails
            }
        },
        _ => {
            proof {
                assert(t1.deep_view() != t2.deep_view());
            }
            false
        },
    }
}

/// Whether the first `n` types of two equally long lists are equal.
fn types_equal_list(p1: &Vec<Type>, p2: &Vec<Type>, n: usize) -> (r: bool)
    requires
        n <= p1@.len(),
        n <= p2@.len(),
    ensures
        r == (crate::ast::view_types(p1@.take(n as int)) == crate::ast::view_types(
            p2@.take(n as int),
        )),
    decreases p1@, n,
{
    if n == 0 {
        proof {
            assert(crate::ast::view_types(p1@.take(0)) =~= Seq::<TypeV>::empty());
            assert(crate::ast::view_types(p2@.take(0)) =~= Seq::<TypeV>::empty());
        }
        true
    } else {
        let heads = types_equal_list(p1, p2, n - 1);
        let lasts = types_equal(&p1[n - 1], &p2[n - 1]);
        proof {
            let s1 = p1@.take(n as int);
            let s2 = p2@.take(n as int);
            assert(s1.drop_last() =~= p1@.take(n as int - 1));
            assert(s2.drop_last() =~= p2@.take(n as int - 1));
            assert(s1.last() == p1@[n as int - 1]);
            assert(s2.last() == p2@[n as int - 1]);
            assert(crate::ast::view_types(s1) == crate::ast::view_types(s1.drop_last()).push(
                crate::ast::view_type(s1.last()),
            ));
            assert(crate::ast::view_types(s2) == crate::ast::view_types(s2.drop_last()).push(
                crate::ast::view_type(s2.last()),
            ));
            if crate::ast::view_types(s1) == crate::ast::view_types(s2) {
                assert(crate::ast::view_types(s1.drop_last()).push(
                    crate::ast::view_type(s1.last()),
                ).drop_last() =~= crate::ast::view_types(s1.drop_last()));
                assert(crate::ast::view_types(s2.drop_last()).push(
                    crate::ast::view_type(s2.last()),
                ).drop_last() =~= crate::ast::view_types(s2.drop_last()));
                assert(crate::ast::view_types(s1.drop_last()) == crate::ast::view_types(
                    s2.drop_last(),
                ));
                assert(crate::ast::view_types(s1).last() == crate::ast::view_type(s1.last()));
                assert(crate::ast::view_types(s2).last() == crate::ast::view_type(s2.last()));
                assert(crate::ast::view_type(s1.last()) == crate::ast::view_type(s2.last()));
            }
        }
        heads && lasts
    }
}

fn assignable_exec(dst: &Type, src: &Type) -> (r: bool)
    ensures
        r == assignable(dst.deep_view(), src.deep_view()),
{
    if is_numeric_exec(dst) && is_numeric_exec(src) {
        true
    } else if matches!(dst, Type::Pointer(_)) && matches!(src, Type::Pointer(_)) {
        let pd = pointee_exec(dst);
        let ps = pointee_exec(src);
        types_equal(&pd, &ps) || matches!(pd, Type::Void) || matches!(ps, Type::Void)
    } else if matches!(dst, Type::Pointer(_)) && matches!(src, Type::Array(_, _)) {
        let pd = pointee_exec(dst);
        let ps = pointee_exec(src);
        types_equal(&pd, &ps) || matches!(pd, Type::Void)
    } else {
        types_equal(dst, src)
    }
}

fn binop_type_exec(op: &BinaryOperator, t1: &Type, t2: &Type) -> (r: Option<Type>)
    ensures
        (match r {
            Some(t) => binop_type(*op, t1.deep_view(), t2.deep_view()) == Some(t.deep_view()),
            None => binop_type(*op, t1.deep_view(), t2.deep_view()) is None,
        }),
{
    let arith = matches!(
        op,
        BinaryOperator::Add | BinaryOperator::Subtract | BinaryOperator::Multiply
            | BinaryOperator::Divide | BinaryOperator::Modulo,
    );
    let comparison = matches!(
        op,
        BinaryOperator::Equal | BinaryOperator::NotEqual | BinaryOperator::LessThan
            | BinaryOperator::GreaterThan | BinaryOperator::LessThanOrEqual
            | BinaryOperator::GreaterThanOrEqual,
    );
    let logical = matches!(op, BinaryOperator::LogicalAnd | BinaryOperator::LogicalOr);
    let bitwise = matches!(
        op,
        BinaryOperator::BitwiseAnd | BinaryOperator::BitwiseOr | BinaryOperator::BitwiseXor
            | BinaryOperator::LeftShift | BinaryOperator::RightShift,
    );
    if arith {
        if is_numeric_exec(t1) && is_numeric_exec(t2) {
            if matches!(op, BinaryOperator::Modulo) {
                if is_integerish_exec(t1) && is_integerish_exec(t2) {
                    Some(Type::Int)
                } else {
                    None
                }
            } else {
                Some(promote_exec(t1, t2))
            }
        } else if matches!(op, BinaryOperator::Add | BinaryOperator::Subtract)
            && is_pointerish_exec(t1) && is_integerish_exec(t2) {
            Some(Type::Pointer(Box::new(pointee_exec(t1))))
        } else if matches!(op, BinaryOperator::Add) && is_integerish_exec(t1)
            && is_pointerish_exec(t2) {
            Some(Type::Pointer(Box::new(pointee_exec(t2))))
        } else if matches!(op, BinaryOperator::Subtract) && is_pointerish_exec(t1)
            && is_pointerish_exec(t2) && ({
            let p1 = pointee_exec(t1);
            let p2 = pointee_exec(t2);
            types_equal(&p1, &p2)
        }) {
            Some(Type::Int)
        } else {
            None
        }
    } else if comparison {
        if is_numeric_exec(t1) && is_numeric_exec(t2) {
            Some(Type::Int)
        } else if is_pointerish_exec(t1) && is_pointerish_exec(t2) {
            Some(Type::Int)
        } else {
            None
        }
    } else if logical {
        if is_scalar_exec(t1) && is_scalar_exec(t2) {
            Some(Type::Int)
        } else {
            None
        }
    } else if bitwise {
        if is_integerish_exec(t1) && is_integerish_exec(t2) {
            Some(Type::Int)
        } else {
            None
        }
    } else {
        None
    }
}

fn literal_type_exec(l: &Literal) -> (r: Type)
    ensures
        r.deep_view() == literal_type(l.deep_view()),
{
    proof {
        assert(crate::ast::view_type(Type::Char) == TypeV::Char);
        assert(crate::ast::view_type(Type::Void) == TypeV::Void);
    }
    match l {
        Literal::Int(_) => Type::Int,
        Literal::Float(_) => Type::Double,
        Literal::Char(_) => Type::Char,
        Literal::String(_) => Type::Pointer(Box::new(Type::Char)),
        Literal::Bool(_) => Type::Bool,
        Literal::Null => Type::Pointer(Box::new(Type::Void)),
    }
}

fn is_lvalue_exec(e: &Expression) -> (r: bool)
    ensures
        r == is_lvalue(e.deep_view()),
{
    matches!(
        e,
        Expression::Variable(_) | Expression::Index(_, _) | Expression::Member(_, _)
            | Expression::Pointer(_),
    )
}

/// The type of an expression, or the first semantic error in it.
pub fn check_expr(prog: &AST, scopes: &Vec<Vec<Binding>>, e: &Expression) -> (r: Result<
    Type,
    CompileError,
>)
    ensures
        (match r {
            Ok(t) => spec_check_expr(prog.deep_view(), view_scopes(scopes@), e.deep_view())
                == Ok::<TypeV, ErrorView>(t.deep_view()),
            Err(er) => spec_check_expr(prog.deep_view(), view_scopes(scopes@), e.deep_view())
                == Err::<TypeV, ErrorView>(er.deep_view()),
        }),
    decreases e, 0nat,
{
    match e {
        Expression::Literal(l) => Ok(literal_type_exec(l)),
        Expression::Variable(name) => match lookup_var_exec(scopes, name) {
            Some((t, _)) => Ok(t),
            None => Err(sem_err_exec("undeclared identifier", name.clone())),
        },
        Expression::BinaryOp(a, op, b) => match check_expr(prog, scopes, a) {
            Ok(t1) => match check_expr(prog, scopes, b) {
                Ok(t2) => match binop_type_exec(op, &t1, &t2) {
                    Some(t) => Ok(t),
                    None => Err(
                        sem_err_exec("operand types do not fit the operator", String::new()),
                    ),
                },
                Err(er) => Err(er),
            },
            Err(er) => Err(er),
        },
        Expression::UnaryOp(op, a) => match check_expr(prog, scopes, a) {
            Ok(t) => match op {
                UnaryOperator::Negate => if is_numeric_exec(&t) {
                    Ok(promote_exec(&t, &Type::Int))
                } else {
                    Err(sem_err_exec("negation needs a numeric operand", String::new()))
                },
                UnaryOperator::LogicalNot => if is_scalar_exec(&t) {
                    Ok(Type::Int)
                } else {
                    Err(sem_err_exec("logical not needs a scalar operand", String::new()))
                },
                UnaryOperator::BitwiseNot => if is_integerish_exec(&t) {
                    Ok(Type::Int)
                } else {
                    Err(sem_err_exec("bitwise not needs an integer operand", String::new()))
                },
                _ => if is_lvalue_exec(a) && (is_integerish_exec(&t) || matches!(
                    &t,
                    Type::Pointer(_),
                )) {
                    Ok(t)
                } else {
                    Err(
                        sem_err_exec(
                            "increment or decrement needs an integer or pointer place",
                            String::new(),
                        ),
                    )
                },
            },
            Err(er) => Err(er),
        },
        Expression::Call(name, args) => {
            proof {
                crate::ast::lemma_view_exprs_len(args@);
            }
            if crate::lexer::string_eq_lit(name, "printf") {
            if args.len() == 0 {
                Err(sem_err_exec("printf needs a format argument", name.clone()))
            } else {
                match check_args_any(prog, scopes, args, 0) {
                    Ok(_) => Ok(Type::Int),
                    Err(er) => Err(er),
                }
            }
        } else {
            match find_fn(&prog.functions, name, 0, prog.functions.len()) {
                Some(k) => if prog.functions[k].parameters.len() != args.len() {
                    Err(sem_err_exec("wrong number of arguments", name.clone()))
                } else {
                    match check_args(prog, scopes, args, k, 0) {
                        Ok(_) => Ok(clone_type(&prog.functions[k].return_type)),
                        Err(er) => Err(er),
                    }
                },
                None => Err(sem_err_exec("call to undeclared function", name.clone())),
            }
        }
        },
        Expression::Cast(a, t) => match check_expr(prog, scopes, a) {
            Ok(_) => if type_resolved(&prog.structs, t) {
                Ok(clone_type(t))
            } else {
                Err(sem_err_exec("cast to unresolved type", String::new()))
            },
            Err(er) => Err(er),
        },
        Expression::Index(a, i) => match check_expr(prog, scopes, a) {
            Ok(t1) => match check_expr(prog, scopes, i) {
                Ok(t2) => if is_pointerish_exec(&t1) && is_integerish_exec(&t2) {
                    Ok(pointee_exec(&t1))
                } else {
                    Err(sem_err_exec("indexing needs a pointer and an integer", String::new()))
                },
                Err(er) => Err(er),
            },
            Err(er) => Err(er),
        },
        Expression::Member(a, name) => match check_expr(prog, scopes, a) {
            Ok(t) => match &t {
                Type::Struct(sname) => match find_struct(&prog.structs, sname, 0, prog.structs.len()) {
                    Some(k) => match find_field(
                        &prog.structs[k].fields,
                        name,
                        0,
                        prog.structs[k].fields.len(),
                    ) {
                        Some(fk) => Ok(clone_type(&prog.structs[k].fields[fk].var_type)),
                        None => Err(sem_err_exec("no such field", name.clone())),
                    },
                    None => Err(sem_err_exec("unresolved struct", sname.clone())),
                },
                _ => Err(sem_err_exec("member access needs a struct value", name.clone())),
            },
            Err(er) => Err(er),
        },
        Expression::Pointer(a) => match check_expr(prog, scopes, a) {
            Ok(t) => if is_pointerish_exec(&t) {
                Ok(pointee_exec(&t))
            } else {
                Err(sem_err_exec("dereference needs a pointer", String::new()))
            },
            Err(er) => Err(er),
        },
        Expression::Address(a) => match check_expr(prog, scopes, a) {
            Ok(t) => if is_lvalue_exec(a) {
                Ok(Type::Pointer(Box::new(t)))
            } else {
                Err(sem_err_exec("address of a value that has no place", String::new()))
            },
            Err(er) => Err(er),
        },
    }
}

fn check_args(
    prog: &AST,
    scopes: &Vec<Vec<Binding>>,
    args: &Vec<Expression>,
    fidx: usize,
    i: usize,
) -> (r: Result<(), CompileError>)
    requires
        fidx < prog.functions@.len(),
        args@.len() == prog.functions@[fidx as int].parameters@.len(),
    ensures
        (match r {
            Ok(_) => spec_check_args(
                prog.deep_view(),
                view_scopes(scopes@),
                crate::ast::view_exprs(args@),
                crate::ast::view_variables(prog.functions@[fidx as int].parameters@),
                i as int,
            ) is Ok,
            Err(er) => spec_check_args(
                prog.deep_view(),
                view_scopes(scopes@),
                crate::ast::view_exprs(args@),
                crate::ast::view_variables(prog.functions@[fidx as int].parameters@),
                i as int,
            ) == Err::<(), ErrorView>(er.deep_view()),
        }),
    decreases args@, args@.len() - i,
{
    proof {
        crate::ast::lemma_view_exprs_len(args@);
        if i < args@.len() {
            crate::ast::lemma_view_exprs_index(args@, i as int);
        }
    }
    if i >= args.len() {
        Ok(())
    } else {
        match check_expr(prog, scopes, &args[i]) {
            Ok(t) => if assignable_exec(&prog.functions[fidx].parameters[i].var_type, &t) {
                check_args(prog, scopes, args, fidx, i + 1)
            } else {
                Err(
                    sem_err_exec(
                        "argument type does not fit the parameter",
                        prog.functions[fidx].parameters[i].name.clone(),
                    ),
                )
            },
            Err(er) => Err(er),
        }
    }
}

fn check_args_any(prog: &AST, scopes: &Vec<Vec<Binding>>, args: &Vec<Expression>, i: usize) -> (r:
    Result<(), CompileError>)
    ensures
        (match r {
            Ok(_) => spec_check_args_any(
                prog.deep_view(),
                view_scopes(scopes@),
                crate::ast::view_exprs(args@),
                i as int,
            ) is Ok,
            Err(er) => spec_check_args_any(
                prog.deep_view(),
                view_scopes(scopes@),
                crate::ast::view_exprs(args@),
                i as int,
            ) == Err::<(), ErrorView>(er.deep_view()),
        }),
    decreases args@, args@.len() - i,
{
    proof {
        crate::ast::lemma_view_exprs_len(args@);
        if i < args@.len() {
            crate::ast::lemma_view_exprs_index(args@, i as int);
        }
    }
    if i >= args.len() {
        Ok(())
    } else {
        match check_expr(prog, scopes, &args[i]) {
            Ok(_) => check_args_any(prog, scopes, args, i + 1),
            Err(er) => Err(er),
        }
    }
}


/// Checks one statement; a declaration extends the innermost scope.
#[verifier::rlimit(100)]
pub fn check_stmt(prog: &AST, scopes: Vec<Vec<Binding>>, ret: &Type, s: &Statement) -> (r: Result<
    Vec<Vec<Binding>>,
    CompileError,
>)
    ensures
        (match r {
            Ok(sc) => spec_check_stmt(
                prog.deep_view(),
                view_scopes(scopes@),
                ret.deep_view(),
                s.deep_view(),
            ) == Ok::<Seq<Seq<BindingV>>, ErrorView>(view_scopes(sc@)),
            Err(er) => spec_check_stmt(
                prog.deep_view(),
                view_scopes(scopes@),
                ret.deep_view(),
                s.deep_view(),
            ) == Err::<Seq<Seq<BindingV>>, ErrorView>(er.deep_view()),
        }),
    decreases s, 0nat,
{
    match s {
        Statement::Declaration(v, init) => {
            if scopes.len() == 0 {
                return Err(sem_err_exec("declaration outside any scope", v.name.clone()));
            }
            if !type_resolved(&prog.structs, &v.var_type) {
                return Err(sem_err_exec("unresolved type in declaration", v.name.clone()));
            }
            let last_idx = scopes.len() - 1;
            if find_binding(&scopes[last_idx], &v.name, scopes[last_idx].len()).is_some() {
                return Err(sem_err_exec("redeclaration in the same scope", v.name.clone()));
            }
            let entry = Binding {
                name: v.name.clone(),
                ty: clone_type(&v.var_type),
                is_const: v.is_const,
            };
            let ok_init = match init {
                Some(e) => match check_expr(prog, &scopes, e) {
                    Ok(t) => if assignable_exec(&v.var_type, &t) {
                        None
                    } else {
                        Some(sem_err_exec("initializer type does not fit", v.name.clone()))
                    },
                    Err(er) => Some(er),
                },
                None => None,
            };
            match ok_init {
                Some(er) => Err(er),
                None => {
                    let ghost pre = scopes@;
                    let mut scopes2 = scopes;
                    let mut last = scopes2.pop().unwrap();
                    let ghost lastpre = last@;
                    last.push(entry);
                    proof {
                        lemma_view_bindings_push(lastpre, last@[lastpre.len() as int]);
                    }
                    scopes2.push(last);
                    proof {
                        lemma_view_scopes_push(pre.drop_last(), scopes2@[pre.len() as int - 1]);
                        assert(view_scopes(pre.drop_last()) =~= view_scopes(pre).drop_last());
                        assert(view_bindings(lastpre) =~= view_scopes(pre).last());
                        assert(view_scopes(scopes2@) =~= view_scopes(pre).drop_last().push(
                            view_scopes(pre).last().push(
                                BindingV {
                                    name: v.name@,
                                    ty: v.var_type.deep_view(),
                                    is_const: v.is_const,
                                },
                            ),
                        ));
                    }
                    Ok(scopes2)
                },
            }
        },
        Statement::Assignment(lhs, rhs) => match check_expr(prog, &scopes, lhs) {
            Ok(t1) => if !is_lvalue_exec(lhs) {
                Err(sem_err_exec("assignment needs a place to store into", String::new()))
            } else {
                let const_violation = match lhs {
                    Expression::Variable(name) => match lookup_var_exec(&scopes, name) {
                        Some((_, c)) => c,
                        None => false,
                    },
                    _ => false,
                };
                if const_violation {
                    Err(sem_err_exec("assignment to a constant", String::new()))
                } else {
                    match check_expr(prog, &scopes, rhs) {
                        Ok(t2) => if assignable_exec(&t1, &t2) {
                            Ok(scopes)
                        } else {
                            Err(sem_err_exec("assigned type does not fit", String::new()))
                        },
                        Err(er) => Err(er),
                    }
                }
            },
            Err(er) => Err(er),
        },
        Statement::If(c, t, e) => match check_expr(prog, &scopes, c) {
            Ok(tc) => if !is_scalar_exec(&tc) {
                Err(sem_err_exec("condition must be scalar", String::new()))
            } else {
                match check_block(prog, &scopes, ret, t) {
                    Ok(_) => match e {
                        Some(eb) => match check_block(prog, &scopes, ret, eb) {
                            Ok(_) => Ok(scopes),
                            Err(er) => Err(er),
                        },
                        None => Ok(scopes),
                    },
                    Err(er) => Err(er),
                }
            },
            Err(er) => Err(er),
        },
        Statement::While(c, b) => match check_expr(prog, &scopes, c) {
            Ok(tc) => if !is_scalar_exec(&tc) {
                Err(sem_err_exec("condition must be scalar", String::new()))
            } else {
                match check_block(prog, &scopes, ret, b) {
                    Ok(_) => Ok(scopes),
                    Err(er) => Err(er),
                }
            },
            Err(er) => Err(er),
        },
        Statement::For(init, c, post, b) => {
            let mut inner = clone_scopes(&scopes);
            let ghost pre2 = inner@;
            inner.push(Vec::new());
            proof {
                lemma_view_scopes_push(pre2, inner@[pre2.len() as int]);
                assert(view_bindings(Seq::<Binding>::empty()) =~= Seq::<BindingV>::empty());
                assert(view_scopes(inner@) =~= view_scopes(scopes@).push(Seq::empty()));
            }
            match check_stmt(prog, inner, ret, init) {
                Ok(inner2) => match check_expr(prog, &inner2, c) {
                    Ok(tc) => if !is_scalar_exec(&tc) {
                        Err(sem_err_exec("condition must be scalar", String::new()))
                    } else {
                        match check_stmt(prog, clone_scopes(&inner2), ret, post) {
                            Ok(_) => match check_block(prog, &inner2, ret, b) {
                                Ok(_) => Ok(scopes),
                                Err(er) => Err(er),
                            },
                            Err(er) => Err(er),
                        }
                    },
                    Err(er) => Err(er),
                },
                Err(er) => Err(er),
            }
        },
        Statement::Return(oe) => match oe {
            Some(e) => match check_expr(prog, &scopes, e) {
                Ok(t) => if assignable_exec(ret, &t) {
                    Ok(scopes)
                } else {
                    Err(sem_err_exec("returned type does not fit", String::new()))
                },
                Err(er) => Err(er),
            },
            None => if matches!(ret, Type::Void) {
                Ok(scopes)
            } else {
                Err(sem_err_exec("missing return value", String::new()))
            },
        },
        Statement::Expression(e) => match check_expr(prog, &scopes, e) {
            Ok(_) => Ok(scopes),
            Err(er) => Err(er),
        },
        Statement::Block(b) => match check_block(prog, &scopes, ret, b) {
            Ok(_) => Ok(scopes),
            Err(er) => Err(er),
        },
    }
}

/// Checks a block in a fresh innermost scope, dropped on exit.
pub fn check_block(prog: &AST, scopes: &Vec<Vec<Binding>>, ret: &Type, b: &Block) -> (r: Result<
    (),
    CompileError,
>)
    ensures
        (match r {
            Ok(_) => spec_check_block(
                prog.deep_view(),
                view_scopes(scopes@),
                ret.deep_view(),
                b.deep_view(),
            ) is Ok,
            Err(er) => spec_check_block(
                prog.deep_view(),
                view_scopes(scopes@),
                ret.deep_view(),
                b.deep_view(),
            ) == Err::<(), ErrorView>(er.deep_view()),
        }),
    decreases b, 0nat,
{
    let mut inner = clone_scopes(scopes);
    let ghost pre2 = inner@;
    inner.push(Vec::new());
    proof {
        lemma_view_scopes_push(pre2, inner@[pre2.len() as int]);
        assert(view_bindings(Seq::<Binding>::empty()) =~= Seq::<BindingV>::empty());
        assert(view_scopes(inner@) =~= view_scopes(scopes@).push(Seq::empty()));
    }
    match check_stmts(prog, inner, ret, &b.statements, 0) {
        Ok(_) => Ok(()),
        Err(er) => Err(er),
    }
}

/// A structural copy of the scope stack.
fn clone_scopes(scopes: &Vec<Vec<Binding>>) -> (r: Vec<Vec<Binding>>)
    ensures
        view_scopes(r@) == view_scopes(scopes@),
{
    let mut inner: Vec<Vec<Binding>> = Vec::new();
    let mut j: usize = 0;
    while j < scopes.len()
        invariant
            0 <= j <= scopes@.len(),
            inner@.len() == j,
            forall|k: int| 0 <= k < j ==> view_bindings(#[trigger] inner@[k]@) == view_bindings(
                scopes@[k]@,
            ),
        decreases scopes@.len() - j,
    {
        inner.push(clone_scope(&scopes[j]));
        j = j + 1;
    }
    proof {
        assert(view_scopes(inner@) =~= view_scopes(scopes@));
    }
    inner
}

/// A structural copy of one scope.
fn clone_scope(scope: &Vec<Binding>) -> (r: Vec<Binding>)
    ensures
        view_bindings(r@) == view_bindings(scope@),
{
    let mut r: Vec<Binding> = Vec::new();
    let mut j: usize = 0;
    while j < scope.len()
        invariant
            0 <= j <= scope@.len(),
            r@.len() == j,
            forall|k: int| 0 <= k < j ==> #[trigger] r@[k].deep_view() == scope@[k].deep_view(),
        decreases scope@.len() - j,
    {
        r.push(
            Binding {
                name: scope[j].name.clone(),
                ty: clone_type(&scope[j].ty),
                is_const: scope[j].is_const,
            },
        );
        j = j + 1;
    }
    proof {
        assert(view_bindings(r@) =~= view_bindings(scope@));
    }
    r
}

fn check_stmts(
    prog: &AST,
    scopes: Vec<Vec<Binding>>,
    ret: &Type,
    stmts: &Vec<Statement>,
    i: usize,
) -> (r: Result<(), CompileError>)
    ensures
        (match r {
            Ok(_) => spec_check_stmts(
                prog.deep_view(),
                view_scopes(scopes@),
                ret.deep_view(),
                crate::ast::view_stmts(stmts@),
                i as int,
            ) is Ok,
            Err(er) => spec_check_stmts(
                prog.deep_view(),
                view_scopes(scopes@),
                ret.deep_view(),
                crate::ast::view_stmts(stmts@),
                i as int,
            ) == Err::<(), ErrorView>(er.deep_view()),
        }),
    decreases stmts@, stmts@.len() - i,
{
    proof {
        crate::ast::lemma_view_stmts_len(stmts@);
        if i < stmts@.len() {
            crate::ast::lemma_view_stmts_index(stmts@, i as int);
        }
    }
    if i >= stmts.len() {
        Ok(())
    } else {
        match check_stmt(prog, scopes, ret, &stmts[i]) {
            Ok(sc2) => check_stmts(prog, sc2, ret, stmts, i + 1),
            Err(er) => Err(er),
        }
    }
}


fn stmt_returns_exec(s: &Statement) -> (r: bool)
    ensures
        r == stmt_returns(s.deep_view()),
    decreases s, 0nat,
{
    match s {
        Statement::Return(_) => true,
        Statement::If(_, t, e) => match e {
            Some(eb) => block_returns_exec(t) && block_returns_exec(eb),
            None => false,
        },
        Statement::Block(b) => block_returns_exec(b),
        _ => false,
    }
}

fn block_returns_exec(b: &Block) -> (r: bool)
    ensures
        r == block_returns(b.deep_view()),
    decreases b, 0nat,
{
    stmts_return_exec(&b.statements, 0)
}

fn stmts_return_exec(stmts: &Vec<Statement>, i: usize) -> (r: bool)
    ensures
        r == stmts_return(crate::ast::view_stmts(stmts@), i as int),
    decreases stmts@, stmts@.len() - i,
{
    proof {
        crate::ast::lemma_view_stmts_len(stmts@);
        if i < stmts@.len() {
            crate::ast::lemma_view_stmts_index(stmts@, i as int);
        }
    }
    if i >= stmts.len() {
        false
    } else {
        stmt_returns_exec(&stmts[i]) || stmts_return_exec(stmts, i + 1)
    }
}

fn check_structs_exec(prog: &AST, i: usize) -> (r: Result<(), CompileError>)
    requires
        i <= prog.structs@.len(),
    ensures
        (match r {
            Ok(_) => spec_check_structs(crate::ast::view_struct_seq(prog.structs@), i as int)
                is Ok,
            Err(er) => spec_check_structs(crate::ast::view_struct_seq(prog.structs@), i as int)
                == Err::<(), ErrorView>(er.deep_view()),
        }),
    decreases prog.structs@.len() - i,
{
    if i >= prog.structs.len() {
        Ok(())
    } else {
        let st = &prog.structs[i];
        if find_struct(&prog.structs, &st.name, 0, i).is_some() {
            Err(sem_err_exec("redefinition of struct", st.name.clone()))
        } else {
            match check_fields_exec(prog, i, 0) {
                Ok(_) => check_structs_exec(prog, i + 1),
                Err(er) => Err(er),
            }
        }
    }
}

fn check_fields_exec(prog: &AST, sidx: usize, j: usize) -> (r: Result<(), CompileError>)
    requires
        sidx < prog.structs@.len(),
        j <= prog.structs@[sidx as int].fields@.len(),
    ensures
        (match r {
            Ok(_) => spec_check_fields(
                crate::ast::view_struct_seq(prog.structs@).take(sidx as int),
                crate::ast::view_variables(prog.structs@[sidx as int].fields@),
                j as int,
            ) is Ok,
            Err(er) => spec_check_fields(
                crate::ast::view_struct_seq(prog.structs@).take(sidx as int),
                crate::ast::view_variables(prog.structs@[sidx as int].fields@),
                j as int,
            ) == Err::<(), ErrorView>(er.deep_view()),
        }),
    decreases prog.structs@[sidx as int].fields@.len() - j,
{
    let fields = &prog.structs[sidx].fields;
    if j >= fields.len() {
        Ok(())
    } else if find_field(fields, &fields[j].name, 0, j).is_some() {
        Err(sem_err_exec("duplicate field name", fields[j].name.clone()))
    } else if !type_resolved_upto(prog, sidx, &fields[j].var_type) {
        Err(sem_err_exec("unresolved field type", fields[j].name.clone()))
    } else {
        check_fields_exec(prog, sidx, j + 1)
    }
}

/// Whether a type resolves against only the structs defined before
/// index `end`.
fn type_resolved_upto(prog: &AST, end: usize, t: &Type) -> (r: bool)
    requires
        end <= prog.structs@.len(),
    ensures
        r == spec_type_resolved(
            crate::ast::view_struct_seq(prog.structs@).take(end as int),
            t.deep_view(),
        ),
    decreases t,
{
    proof {
        assert(crate::ast::view_struct_seq(prog.structs@).take(end as int)
            =~= crate::ast::view_struct_seq(prog.structs@.take(end as int)));
    }
    match t {
        Type::Struct(name) => {
            let found = find_struct(&prog.structs, name, 0, end);
            proof {
                lemma_find_struct_take(prog.structs@, name@, 0, end as int);
            }
            found.is_some()
        },
        Type::Pointer(p) => type_resolved_upto(prog, end, p),
        Type::Array(p, _) => type_resolved_upto(prog, end, p),
        Type::Function(_, _) => false,
        _ => true,
    }
}

/// Searching a prefix of the struct table equals searching the whole
/// table with a bounded end.
proof fn lemma_find_struct_take(structs: Seq<Struct>, name: Seq<char>, j: int, end: int)
    requires
        0 <= j,
        0 <= end <= structs.len(),
    ensures
        spec_find_struct(crate::ast::view_struct_seq(structs), name, j, end)
            == spec_find_struct(
            crate::ast::view_struct_seq(structs).take(end),
            name,
            j,
            crate::ast::view_struct_seq(structs).take(end).len() as int,
        ),
    decreases end - j,
{
    assert(crate::ast::view_struct_seq(structs).take(end).len() == end);
    if j < end {
        assert(crate::ast::view_struct_seq(structs).take(end)[j]
            == crate::ast::view_struct_seq(structs)[j]);
        lemma_find_struct_take(structs, name, j + 1, end);
    }
}

fn check_globals_exec(prog: &AST, i: usize) -> (r: Result<(), CompileError>)
    requires
        i <= prog.global_variables@.len(),
    ensures
        (match r {
            Ok(_) => spec_check_globals(prog.deep_view(), i as int) is Ok,
            Err(er) => spec_check_globals(prog.deep_view(), i as int) == Err::<(), ErrorView>(
                er.deep_view(),
            ),
        }),
    decreases prog.global_variables@.len() - i,
{
    if i >= prog.global_variables.len() {
        Ok(())
    } else {
        let g = &prog.global_variables[i];
        if find_field(&prog.global_variables, &g.name, 0, i).is_some() {
            Err(sem_err_exec("redeclaration of global", g.name.clone()))
        } else if !type_resolved(&prog.structs, &g.var_type) {
            Err(sem_err_exec("unresolved type in declaration", g.name.clone()))
        } else {
            check_globals_exec(prog, i + 1)
        }
    }
}

fn check_params_exec(prog: &AST, fidx: usize, j: usize) -> (r: Result<(), CompileError>)
    requires
        fidx < prog.functions@.len(),
        j <= prog.functions@[fidx as int].parameters@.len(),
    ensures
        (match r {
            Ok(_) => spec_check_params(
                prog.deep_view(),
                crate::ast::view_variables(prog.functions@[fidx as int].parameters@),
                j as int,
            ) is Ok,
            Err(er) => spec_check_params(
                prog.deep_view(),
                crate::ast::view_variables(prog.functions@[fidx as int].parameters@),
                j as int,
            ) == Err::<(), ErrorView>(er.deep_view()),
        }),
    decreases prog.functions@[fidx as int].parameters@.len() - j,
{
    let params = &prog.functions[fidx].parameters;
    if j >= params.len() {
        Ok(())
    } else if find_field(params, &params[j].name, 0, j).is_some() {
        Err(sem_err_exec("duplicate parameter name", params[j].name.clone()))
    } else if !type_resolved(&prog.structs, &params[j].var_type) {
        Err(sem_err_exec("unresolved parameter type", params[j].name.clone()))
    } else {
        check_params_exec(prog, fidx, j + 1)
    }
}

/// The scope a declared variable list opens: one binding per variable.
fn vars_scope_exec(vars: &Vec<Variable>) -> (r: Vec<Binding>)
    ensures
        view_bindings(r@) == vars_scope(crate::ast::view_variables(vars@)),
{
    let mut r: Vec<Binding> = Vec::new();
    let mut j: usize = 0;
    while j < vars.len()
        invariant
            0 <= j <= vars@.len(),
            r@.len() == j,
            forall|k: int| 0 <= k < j ==> #[trigger] r@[k].deep_view() == (BindingV {
                name: vars@[k].name@,
                ty: vars@[k].var_type.deep_view(),
                is_const: vars@[k].is_const,
            }),
        decreases vars@.len() - j,
    {
        r.push(
            Binding {
                name: vars[j].name.clone(),
                ty: clone_type(&vars[j].var_type),
                is_const: vars[j].is_const,
            },
        );
        j = j + 1;
    }
    proof {
        assert(view_bindings(r@) =~= vars_scope(crate::ast::view_variables(vars@)));
    }
    r
}

fn check_funcs_exec(prog: &AST, i: usize) -> (r: Result<(), CompileError>)
    requires
        i <= prog.functions@.len(),
    ensures
        (match r {
            Ok(_) => spec_check_funcs(prog.deep_view(), i as int) is Ok,
            Err(er) => spec_check_funcs(prog.deep_view(), i as int) == Err::<(), ErrorView>(
                er.deep_view(),
            ),
        }),
    decreases prog.functions@.len() - i,
{
    if i >= prog.functions.len() {
        Ok(())
    } else {
        let f = &prog.functions[i];
        if find_fn(&prog.functions, &f.name, 0, i).is_some() {
            Err(sem_err_exec("redefinition of function", f.name.clone()))
        } else if !type_resolved(&prog.structs, &f.return_type) {
            Err(sem_err_exec("unresolved return type", f.name.clone()))
        } else {
            match check_params_exec(prog, i, 0) {
                Ok(_) => {
                    let mut scopes: Vec<Vec<Binding>> = Vec::new();
                    scopes.push(vars_scope_exec(&prog.global_variables));
                    scopes.push(vars_scope_exec(&f.parameters));
                    proof {
                        assert(view_scopes(scopes@) =~= seq![
                            vars_scope(crate::ast::view_variables(prog.global_variables@)),
                            vars_scope(crate::ast::view_variables(f.parameters@)),
                        ]);
                    }
                    match check_block(prog, &scopes, &f.return_type, &f.body) {
                        Ok(_) => if matches!(&f.return_type, Type::Void) || crate::lexer::string_eq_lit(
                            &f.name,
                            "main",
                        ) || block_returns_exec(&f.body) {
                            check_funcs_exec(prog, i + 1)
                        } else {
                            Err(sem_err_exec("not every path returns a value", f.name.clone()))
                        },
                        Err(er) => Err(er),
                    }
                },
                Err(er) => Err(er),
            }
        }
    }
}

/// Resolves and checks a whole program: the struct table, the globals,
/// then every function against nested scopes, C-like promotion and the
/// return-path rule. Succeeds exactly when the model analysis does.
pub fn analyze(prog: &AST) -> (r: Result<(), CompileError>)
    ensures
        res_view(r) == spec_analyze(prog.deep_view()),
{
    match check_structs_exec(prog, 0) {
        Ok(_) => match check_globals_exec(prog, 0) {
            Ok(_) => match check_funcs_exec(prog, 0) {
                Ok(_) => {
                    proof {
                        let res = spec_check_funcs(prog.deep_view(), 0);
                        match res {
                            Ok(u) => {
                                assert(res == Ok::<(), ErrorView>(()));
                            },
                            Err(_) => {},
                        }
                    }
                    Ok(())
                },
                Err(er) => Err(er),
            },
            Err(er) => Err(er),
        },
        Err(er) => Err(er),
    }
}

} // verus!
