//! The IR code generator: lowers a checked tree to a flat intermediate
//! form of plain instructions, so that a target emitter only translates
//! instructions one for one and decides nothing itself.
//!
//! One IR function is emitted per source function. String literals
//! become distinct read-only globals, each under a fresh id; a function
//! falling off its end returns zero. The instruction set today covers
//! the printing programs the back end can build — `printf` of string
//! literals, integer literals and parameters, and literal returns;
//! lowering the remaining rules (control-flow blocks with explicit
//! branches, short-circuit evaluation, member access at the offsets the
//! layout rules give) extends `Inst`. A construct outside the set is
//! refused with a `CodegenError` before anything is emitted.
use vstd::prelude::*;

use crate::ast::{
    ExpressionV, Function, FunctionV, LiteralV, ProgramV, StatementV, VariableV, AST, Expression,
    Literal, Statement, Variable,
};
use crate::diag::{CompileError, ErrorView};
use crate::lexer::{dv_seq, lemma_dv_push};

verus! {

broadcast use vstd::std_specs::vec::group_vec_axioms, vstd::seq::group_seq_axioms,
    crate::ast::lemma_view_exprs_len, crate::ast::lemma_view_stmts_len;

/// One operand of an intermediate instruction: a string global by id, an
/// integer constant, or the function's parameter by position.
#[derive(Debug)]
pub enum Arg {
    Str { id: usize },
    Int(i64),
    Param(usize),
}

/// One instruction of the intermediate form: plain values only.
#[derive(Debug)]
pub enum Inst {
    /// Distinct read-only string data, defined before its first use.
    StrGlobal { id: usize, text: String },
    /// A call of the recognized variadic library function.
    CallPrintf { args: Vec<Arg> },
    /// Return with the given status.
    Ret { value: i64 },
}

#[derive(Debug)]
pub struct IrFunction {
    pub name: String,
    pub n_params: usize,
    pub body: Vec<Inst>,
}

pub enum ArgV {
    Str { id: int },
    Int(int),
    Param(int),
}

pub enum InstV {
    StrGlobal { id: int, text: Seq<char> },
    CallPrintf { args: Seq<ArgV> },
    Ret { value: int },
}

pub struct IrFunctionV {
    pub name: Seq<char>,
    pub n_params: int,
    pub body: Seq<InstV>,
}

impl DeepView for Arg {
    type V = ArgV;

    open spec fn deep_view(&self) -> ArgV {
        match self {
            Arg::Str { id } => ArgV::Str { id: *id as int },
            Arg::Int(v) => ArgV::Int(*v as int),
            Arg::Param(i) => ArgV::Param(*i as int),
        }
    }
}

impl DeepView for Inst {
    type V = InstV;

    open spec fn deep_view(&self) -> InstV {
        match self {
            Inst::StrGlobal { id, text } => InstV::StrGlobal { id: *id as int, text: text@ },
            Inst::CallPrintf { args } => InstV::CallPrintf { args: dv_seq(args@) },
            Inst::Ret { value } => InstV::Ret { value: *value as int },
        }
    }
}

impl DeepView for IrFunction {
    type V = IrFunctionV;

    open spec fn deep_view(&self) -> IrFunctionV {
        IrFunctionV {
            name: self.name@,
            n_params: self.n_params as int,
            body: dv_seq(self.body@),
        }
    }
}

pub open spec fn cg_err(message: Seq<char>) -> ErrorView {
    ErrorView::Codegen { message }
}

/// The most string globals one lowering hands out: ids stay machine
/// representable.
pub open spec fn max_string_ids() -> int {
    0x7fffffff
}

/// The position of the named parameter, if any.
pub open spec fn spec_param_index(params: Seq<VariableV>, name: Seq<char>, j: int) -> Option<int>
    decreases params.len() - j,
{
    if j < 0 || j >= params.len() {
        None
    } else if params[j].name == name {
        Some(j)
    } else {
        spec_param_index(params, name, j + 1)
    }
}

/// Lowers one `printf` argument: a string literal becomes a fresh global
/// and is passed by id; an integer literal is passed directly; a name
/// must be one of the function's parameters. The result is the operand,
/// the data instructions to emit first, and the next fresh id.
pub open spec fn spec_lower_arg(params: Seq<VariableV>, e: ExpressionV, sid: int) -> Result<
    (ArgV, Seq<InstV>, int),
    ErrorView,
> {
    match e {
        ExpressionV::Literal(l) => match l {
            LiteralV::String(text) => if sid >= max_string_ids() {
                Err(cg_err("too many string literals"@))
            } else {
                Ok((
                    ArgV::Str { id: sid },
                    seq![InstV::StrGlobal { id: sid, text }],
                    sid + 1,
                ))
            },
            LiteralV::Int(v) => Ok((ArgV::Int(v), Seq::empty(), sid)),
            _ => Err(cg_err("printf argument form is not lowered yet"@)),
        },
        ExpressionV::Variable(name) => match spec_param_index(params, name, 0) {
            Some(ix) => Ok((ArgV::Param(ix), Seq::empty(), sid)),
            _ => Err(cg_err("printf argument names no parameter"@)),
        },
        _ => Err(cg_err("printf argument form is not lowered yet"@)),
    }
}

pub open spec fn spec_lower_args(
    params: Seq<VariableV>,
    args: Seq<ExpressionV>,
    k: int,
    sid: int,
    acc_args: Seq<ArgV>,
    acc_insts: Seq<InstV>,
) -> Result<(Seq<ArgV>, Seq<InstV>, int), ErrorView>
    decreases args.len() - k,
{
    if k < 0 || k >= args.len() {
        Ok((acc_args, acc_insts, sid))
    } else {
        match spec_lower_arg(params, args[k], sid) {
            Ok((a, pre, sid2)) => spec_lower_args(
                params,
                args,
                k + 1,
                sid2,
                acc_args.push(a),
                acc_insts + pre,
            ),
            Err(e) => Err(e),
        }
    }
}

/// Lowers the statements of one function body, in order, threading the
/// fresh-id counter. A statement outside the lowered set is refused.
pub open spec fn spec_lower_stmts(
    params: Seq<VariableV>,
    stmts: Seq<StatementV>,
    j: int,
    sid: int,
    acc: Seq<InstV>,
) -> Result<(Seq<InstV>, int), ErrorView>
    decreases stmts.len() - j,
{
    if j < 0 || j >= stmts.len() {
        Ok((acc, sid))
    } else {
        match stmts[j] {
            StatementV::Expression(e) => match e {
                ExpressionV::Call(name, args) => if name == "printf"@ {
                    match spec_lower_args(params, args, 0, sid, Seq::empty(), Seq::empty()) {
                        Ok((aseq, pre, sid2)) => spec_lower_stmts(
                            params,
                            stmts,
                            j + 1,
                            sid2,
                            acc + pre + seq![InstV::CallPrintf { args: aseq }],
                        ),
                        Err(e2) => Err(e2),
                    }
                } else {
                    Err(cg_err("call form is not lowered yet"@))
                },
                _ => Err(cg_err("statement form is not lowered yet"@)),
            },
            StatementV::Return(oe) => match oe {
                Some(e) => match e {
                    ExpressionV::Literal(l) => match l {
                        LiteralV::Int(v) => spec_lower_stmts(
                            params,
                            stmts,
                            j + 1,
                            sid,
                            acc.push(InstV::Ret { value: v }),
                        ),
                        _ => Err(cg_err("return value form is not lowered yet"@)),
                    },
                    _ => Err(cg_err("return value form is not lowered yet"@)),
                },
                None => spec_lower_stmts(params, stmts, j + 1, sid, acc.push(InstV::Ret { value: 0 })),
            },
            _ => Err(cg_err("statement form is not lowered yet"@)),
        }
    }
}

/// A body whose last instruction is no return falls off its end: it gets
/// an implicit `return 0`.
pub open spec fn spec_seal_body(insts: Seq<InstV>) -> Seq<InstV> {
    if insts.len() == 0 || !(insts.last() is Ret) {
        insts.push(InstV::Ret { value: 0 })
    } else {
        insts
    }
}

pub open spec fn spec_lower_fn(f: FunctionV, sid: int) -> Result<(IrFunctionV, int), ErrorView> {
    match spec_lower_stmts(f.parameters, f.body.statements, 0, sid, Seq::empty()) {
        Ok((insts, sid2)) => Ok((
            IrFunctionV {
                name: f.name,
                n_params: f.parameters.len() as int,
                body: spec_seal_body(insts),
            },
            sid2,
        )),
        Err(e) => Err(e),
    }
}

pub open spec fn spec_lower_funcs(
    funcs: Seq<FunctionV>,
    i: int,
    sid: int,
    acc: Seq<IrFunctionV>,
) -> Result<Seq<IrFunctionV>, ErrorView>
    decreases funcs.len() - i,
{
    if i < 0 || i >= funcs.len() {
        Ok(acc)
    } else {
        match spec_lower_fn(funcs[i], sid) {
            Ok((irf, sid2)) => spec_lower_funcs(funcs, i + 1, sid2, acc.push(irf)),
            Err(e) => Err(e),
        }
    }
}

/// The whole lowering: one IR function per source function, string ids
/// fresh across the module.
pub open spec fn spec_lower(prog: ProgramV) -> Result<Seq<IrFunctionV>, ErrorView> {
    spec_lower_funcs(prog.functions, 0, 0, Seq::empty())
}

// ---------------------------------------------------------------------
// Executable lowering, pinned to the specification above.
// ---------------------------------------------------------------------

proof fn lemma_dv_concat<T: DeepView>(a: Seq<T>, b: Seq<T>)
    ensures
        dv_seq(a + b) =~= dv_seq(a) + dv_seq(b),
{
}

fn cg_err_exec(message: &'static str) -> (r: CompileError)
    ensures
        r.deep_view() == cg_err(message@),
{
    CompileError::CodegenError { message }
}

fn param_index(params: &Vec<Variable>, name: &String, j: usize) -> (r: Option<usize>)
    requires
        j <= params@.len(),
    ensures
        (match r {
            Some(ix) => spec_param_index(crate::ast::view_variables(params@), name@, j as int)
                == Some(ix as int),
            None => spec_param_index(crate::ast::view_variables(params@), name@, j as int)
                is None,
        }),
    decreases params@.len() - j,
{
    if j >= params.len() {
        None
    } else if params[j].name.eq(name) {
        Some(j)
    } else {
        param_index(params, name, j + 1)
    }
}

fn lower_arg(params: &Vec<Variable>, e: &Expression, sid: usize) -> (r: Result<
    (Arg, Vec<Inst>, usize),
    CompileError,
>)
    ensures
        (match r {
            Ok((a, pre, sid2)) => spec_lower_arg(
                crate::ast::view_variables(params@),
                e.deep_view(),
                sid as int,
            ) == Ok::<(ArgV, Seq<InstV>, int), ErrorView>((
                a.deep_view(),
                dv_seq(pre@),
                sid2 as int,
            )),
            Err(er) => spec_lower_arg(
                crate::ast::view_variables(params@),
                e.deep_view(),
                sid as int,
            ) == Err::<(ArgV, Seq<InstV>, int), ErrorView>(er.deep_view()),
        }),
{
    match e {
        Expression::Literal(l) => match l {
            Literal::String(text) => {
                if sid >= 0x7fffffff {
                    return Err(cg_err_exec("too many string literals"));
                }
                let mut pre: Vec<Inst> = Vec::new();
                let g = Inst::StrGlobal { id: sid, text: text.clone() };
                let ghost pre0 = pre@;
                pre.push(g);
                proof {
                    lemma_dv_push(pre0, pre@[0]);
                    assert(dv_seq(pre@) =~= seq![
                        InstV::StrGlobal { id: sid as int, text: text@ },
                    ]);
                }
                Ok((Arg::Str { id: sid }, pre, sid + 1))
            },
            Literal::Int(v) => {
                let pre: Vec<Inst> = Vec::new();
                proof {
                    assert(dv_seq(pre@) =~= Seq::<InstV>::empty());
                }
                Ok((Arg::Int(*v), pre, sid))
            },
            _ => Err(cg_err_exec("printf argument form is not lowered yet")),
        },
        Expression::Variable(name) => match param_index(params, name, 0) {
            Some(ix) => {
                let pre: Vec<Inst> = Vec::new();
                proof {
                    assert(dv_seq(pre@) =~= Seq::<InstV>::empty());
                }
                Ok((Arg::Param(ix), pre, sid))
            },
            None => Err(cg_err_exec("printf argument names no parameter")),
        },
        _ => Err(cg_err_exec("printf argument form is not lowered yet")),
    }
}

fn lower_args(
    params: &Vec<Variable>,
    args: &Vec<Expression>,
    k: usize,
    sid: usize,
    acc_args: Vec<Arg>,
    acc_insts: Vec<Inst>,
) -> (r: Result<(Vec<Arg>, Vec<Inst>, usize), CompileError>)
    requires
        k <= args@.len(),
    ensures
        (match r {
            Ok((aseq, pre, sid2)) => spec_lower_args(
                crate::ast::view_variables(params@),
                crate::ast::view_exprs(args@),
                k as int,
                sid as int,
                dv_seq(acc_args@),
                dv_seq(acc_insts@),
            ) == Ok::<(Seq<ArgV>, Seq<InstV>, int), ErrorView>((
                dv_seq(aseq@),
                dv_seq(pre@),
                sid2 as int,
            )),
            Err(er) => spec_lower_args(
                crate::ast::view_variables(params@),
                crate::ast::view_exprs(args@),
                k as int,
                sid as int,
                dv_seq(acc_args@),
                dv_seq(acc_insts@),
            ) == Err::<(Seq<ArgV>, Seq<InstV>, int), ErrorView>(er.deep_view()),
        }),
    decreases args@.len() - k,
{
    proof {
        if k < args@.len() {
            crate::ast::lemma_view_exprs_index(args@, k as int);
        }
    }
    if k >= args.len() {
        Ok((acc_args, acc_insts, sid))
    } else {
        match lower_arg(params, &args[k], sid) {
            Ok((a, mut pre, sid2)) => {
                let ghost aa0 = acc_args@;
                let ghost ai0 = acc_insts@;
                let ghost pre0 = pre@;
                let mut acc_args2 = acc_args;
                acc_args2.push(a);
                let mut acc_insts2 = acc_insts;
                acc_insts2.append(&mut pre);
                proof {
                    lemma_dv_push(aa0, acc_args2@[aa0.len() as int]);
                    lemma_dv_concat(ai0, pre0);
                }
                lower_args(params, args, k + 1, sid2, acc_args2, acc_insts2)
            },
            Err(e) => Err(e),
        }
    }
}

fn lower_stmts(
    params: &Vec<Variable>,
    stmts: &Vec<Statement>,
    j: usize,
    sid: usize,
    acc: Vec<Inst>,
) -> (r: Result<(Vec<Inst>, usize), CompileError>)
    requires
        j <= stmts@.len(),
    ensures
        (match r {
            Ok((insts, sid2)) => spec_lower_stmts(
                crate::ast::view_variables(params@),
                crate::ast::view_stmts(stmts@),
                j as int,
                sid as int,
                dv_seq(acc@),
            ) == Ok::<(Seq<InstV>, int), ErrorView>((dv_seq(insts@), sid2 as int)),
            Err(er) => spec_lower_stmts(
                crate::ast::view_variables(params@),
                crate::ast::view_stmts(stmts@),
                j as int,
                sid as int,
                dv_seq(acc@),
            ) == Err::<(Seq<InstV>, int), ErrorView>(er.deep_view()),
        }),
    decreases stmts@.len() - j,
{
    proof {
        if j < stmts@.len() {
            crate::ast::lemma_view_stmts_index(stmts@, j as int);
        }
    }
    if j >= stmts.len() {
        Ok((acc, sid))
    } else {
        match &stmts[j] {
            Statement::Expression(e) => match e {
                Expression::Call(name, args) => if crate::lexer::string_eq_lit(name, "printf") {
                    let empty_args: Vec<Arg> = Vec::new();
                    let empty_insts: Vec<Inst> = Vec::new();
                    proof {
                        assert(dv_seq(empty_args@) =~= Seq::<ArgV>::empty());
                        assert(dv_seq(empty_insts@) =~= Seq::<InstV>::empty());
                    }
                    match lower_args(params, args, 0, sid, empty_args, empty_insts) {
                        Ok((aseq, mut pre, sid2)) => {
                            let ghost acc0 = acc@;
                            let ghost pre0 = pre@;
                            let mut acc2 = acc;
                            acc2.append(&mut pre);
                            let call = Inst::CallPrintf { args: aseq };
                            let ghost acc1 = acc2@;
                            acc2.push(call);
                            proof {
                                lemma_dv_concat(acc0, pre0);
                                lemma_dv_push(acc1, acc2@[acc1.len() as int]);
                                assert(dv_seq(acc2@) =~= dv_seq(acc0) + dv_seq(pre0) + seq![
                                    InstV::CallPrintf { args: dv_seq(aseq@) },
                                ]);
                            }
                            lower_stmts(params, stmts, j + 1, sid2, acc2)
                        },
                        Err(e2) => Err(e2),
                    }
                } else {
                    Err(cg_err_exec("call form is not lowered yet"))
                },
                _ => Err(cg_err_exec("statement form is not lowered yet")),
            },
            Statement::Return(oe) => match oe {
                Some(e) => match e {
                    Expression::Literal(l) => match l {
                        Literal::Int(v) => {
                            let ghost acc0 = acc@;
                            let mut acc2 = acc;
                            acc2.push(Inst::Ret { value: *v });
                            proof {
                                lemma_dv_push(acc0, acc2@[acc0.len() as int]);
                            }
                            lower_stmts(params, stmts, j + 1, sid, acc2)
                        },
                        _ => Err(cg_err_exec("return value form is not lowered yet")),
                    },
                    _ => Err(cg_err_exec("return value form is not lowered yet")),
                },
                None => {
                    let ghost acc0 = acc@;
                    let mut acc2 = acc;
                    acc2.push(Inst::Ret { value: 0 });
                    proof {
                        lemma_dv_push(acc0, acc2@[acc0.len() as int]);
                    }
                    lower_stmts(params, stmts, j + 1, sid, acc2)
                },
            },
            _ => Err(cg_err_exec("statement form is not lowered yet")),
        }
    }
}

fn lower_fn(f: &Function, sid: usize) -> (r: Result<(IrFunction, usize), CompileError>)
    ensures
        (match r {
            Ok((irf, sid2)) => spec_lower_fn(crate::ast::view_function(*f), sid as int) == Ok::<
                (IrFunctionV, int),
                ErrorView,
            >((irf.deep_view(), sid2 as int)),
            Err(er) => spec_lower_fn(crate::ast::view_function(*f), sid as int) == Err::<
                (IrFunctionV, int),
                ErrorView,
            >(er.deep_view()),
        }),
{
    let empty_insts: Vec<Inst> = Vec::new();
    proof {
        assert(dv_seq(empty_insts@) =~= Seq::<InstV>::empty());
    }
    match lower_stmts(&f.parameters, &f.body.statements, 0, sid, empty_insts) {
        Ok((insts, sid2)) => {
            let needs_ret = insts.len() == 0 || !matches!(&insts[insts.len() - 1], Inst::Ret { .. });
            let mut body = insts;
            if needs_ret {
                let ghost b0 = body@;
                body.push(Inst::Ret { value: 0 });
                proof {
                    lemma_dv_push(b0, body@[b0.len() as int]);
                }
            }
            let irf = IrFunction { name: f.name.clone(), n_params: f.parameters.len(), body };
            Ok((irf, sid2))
        },
        Err(e) => Err(e),
    }
}

/// Lowers a whole checked program to the intermediate form: one IR
/// function per source function, string globals distinct across the
/// module, an implicit `return 0` where a body falls off its end, and a
/// `CodegenError` for any construct the instruction set does not cover
/// yet.
pub fn lower(prog: &AST) -> (r: Result<Vec<IrFunction>, CompileError>)
    ensures
        (match r {
            Ok(irfs) => spec_lower(prog.deep_view()) == Ok::<Seq<IrFunctionV>, ErrorView>(
                dv_seq(irfs@),
            ),
            Err(er) => spec_lower(prog.deep_view()) == Err::<Seq<IrFunctionV>, ErrorView>(
                er.deep_view(),
            ),
        }),
{
    let empty_funcs: Vec<IrFunction> = Vec::new();
    proof {
        assert(dv_seq(empty_funcs@) =~= Seq::<IrFunctionV>::empty());
    }
    lower_funcs(prog, 0, 0, empty_funcs)
}

fn lower_funcs(prog: &AST, i: usize, sid: usize, acc: Vec<IrFunction>) -> (r: Result<
    Vec<IrFunction>,
    CompileError,
>)
    requires
        i <= prog.functions@.len(),
    ensures
        (match r {
            Ok(irfs) => spec_lower_funcs(
                crate::ast::view_fn_seq(prog.functions@),
                i as int,
                sid as int,
                dv_seq(acc@),
            ) == Ok::<Seq<IrFunctionV>, ErrorView>(dv_seq(irfs@)),
            Err(er) => spec_lower_funcs(
                crate::ast::view_fn_seq(prog.functions@),
                i as int,
                sid as int,
                dv_seq(acc@),
            ) == Err::<Seq<IrFunctionV>, ErrorView>(er.deep_view()),
        }),
    decreases prog.functions@.len() - i,
{
    if i >= prog.functions.len() {
        Ok(acc)
    } else {
        match lower_fn(&prog.functions[i], sid) {
            Ok((irf, sid2)) => {
                let ghost acc0 = acc@;
                let mut acc2 = acc;
                acc2.push(irf);
                proof {
                    lemma_dv_push(acc0, acc2@[acc0.len() as int]);
                }
                lower_funcs(prog, i + 1, sid2, acc2)
            },
            Err(e) => Err(e),
        }
    }
}

} // verus!
