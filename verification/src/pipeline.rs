//! The compilation pipeline: lex, parse and check a single translation
//! unit, strictly in that order, aborting at the first failure with that
//! stage's error and no partial result. The checked tree is what the
//! target emitter consumes; emission, linking and process launch are the
//! caller's work around this core.
use vstd::prelude::*;
use vstd::string::StringSliceAdditionalSpecFns;

use crate::ast::{ProgramV, AST};
use crate::diag::{res_view, CompileError, ErrorView};
use crate::parser::{parse, spec_parse};
use crate::sema::{analyze, sem_err, spec_analyze, spec_check_expr, spec_lookup_var, BindingV};
use crate::utils::{is_c_file_name, spec_is_c_file};

verus! {

/// The front half of the pipeline: the checked program of a source text,
/// or the first error any stage finds.
pub open spec fn spec_compile(src: Seq<u8>) -> Result<ProgramV, ErrorView> {
    match spec_parse(src) {
        Ok(p) => match spec_analyze(p) {
            Ok(_) => Ok(p),
            Err(e) => Err(e),
        },
        Err(e) => Err(e),
    }
}

/// Compiles C source text into a checked tree: lexing, parsing and
/// semantic analysis in order, failing fast with the first error. No
/// result is handed out unless every check passed.
pub fn compile(source_code: &str) -> (r: Result<AST, CompileError>)
    ensures
        res_view(r) == spec_compile(source_code.spec_bytes()),
{
    match parse(source_code) {
        Ok(p) => match analyze(&p) {
            Ok(_) => Ok(p),
            Err(e) => Err(e),
        },
        Err(e) => Err(e),
    }
}

/// What `compile_and_run` promises: a file without the `.c` suffix is
/// refused before any stage runs; otherwise the pipeline's result.
pub open spec fn spec_compile_checked(file_name: Seq<char>, src: Seq<u8>) -> Result<
    ProgramV,
    ErrorView,
> {
    if !spec_is_c_file(file_name) {
        Err(ErrorView::Io { message: "not a C source file"@ })
    } else {
        spec_compile(src)
    }
}

/// The compile half of compile-and-run: refuses a file whose name does
/// not end in `.c`, then compiles the source. The caller emits the
/// executable from the checked tree, launches it, and judges its exit
/// status with `runtime::exit_status_outcome`.
pub fn compile_and_run(file_name: &str, source_code: &str) -> (r: Result<AST, CompileError>)
    ensures
        res_view(r) == spec_compile_checked(file_name@, source_code.spec_bytes()),
{
    if !is_c_file_name(file_name) {
        return Err(CompileError::IOError { message: "not a C source file" });
    }
    compile(source_code)
}

/// Compiling one source twice gives one result: the pipeline is a
/// function of the source text alone, so two compiles of equal sources
/// produce programs with identical observable behavior.
pub proof fn lemma_compile_deterministic(a: Seq<u8>, b: Seq<u8>)
    requires
        a == b,
    ensures
        spec_compile(a) == spec_compile(b),
{
}

/// A source the parser refuses produces no program at all: the pipeline
/// reports exactly the parser's error, whose location is the offending
/// token's line and column.
pub proof fn lemma_parse_error_propagates(src: Seq<u8>)
    ensures
        spec_parse(src) matches Err(e) ==> spec_compile(src) == Err::<ProgramV, ErrorView>(e),
{
}

/// A reference to an identifier declared in no reachable scope is
/// reported as a semantic error naming exactly that identifier.
pub proof fn lemma_undeclared_identifier_named(
    prog: ProgramV,
    scopes: Seq<Seq<BindingV>>,
    name: Seq<char>,
)
    requires
        spec_lookup_var(scopes, name) is None,
    ensures
        spec_check_expr(prog, scopes, crate::ast::ExpressionV::Variable(name)) == Err::<
            crate::ast::TypeV,
            ErrorView,
        >(sem_err("undeclared identifier"@, name)),
{
}

} // verus!
