//! The error taxonomy of the pipeline: each stage fails with exactly one
//! error kind of its own, carrying a source location where one is known.
use vstd::prelude::*;

verus! {

/// One error kind per pipeline stage. A stage never recovers from the
/// failure of an earlier stage: the first error aborts the pipeline.
#[derive(Debug)]
pub enum CompileError {
    /// The source file could not be read.
    IOError { message: &'static str },
    /// An unrecognized character or an unterminated literal.
    LexError { message: &'static str, line: usize, col: usize },
    /// The token stream does not follow the grammar: `message` names
    /// what was expected, `found` what stood there.
    SyntaxError { message: &'static str, found: &'static str, line: usize, col: usize },
    /// A name fails to resolve or types do not fit; `name` is the
    /// offending symbol where one exists.
    SemanticError { message: &'static str, name: String, line: usize, col: usize },
    /// An internal invariant of the lowering was violated; never
    /// user-fixable.
    CodegenError { message: &'static str },
    /// The host target could not be initialized.
    EmissionError { message: &'static str },
    /// Linking the object file failed.
    LinkError { message: &'static str },
    /// The compiled program itself exited with a nonzero status.
    RuntimeFailure { exit_code: i32 },
}

/// The mathematical model of a `CompileError`.
pub enum ErrorView {
    Io { message: Seq<char> },
    Lex { message: Seq<char>, line: int, col: int },
    Syntax { message: Seq<char>, found: Seq<char>, line: int, col: int },
    Semantic { message: Seq<char>, name: Seq<char>, line: int, col: int },
    Codegen { message: Seq<char> },
    Emission { message: Seq<char> },
    Link { message: Seq<char> },
    Runtime { exit_code: int },
}

impl DeepView for CompileError {
    type V = ErrorView;

    open spec fn deep_view(&self) -> ErrorView {
        match self {
            CompileError::IOError { message } => ErrorView::Io { message: message@ },
            CompileError::LexError { message, line, col } => ErrorView::Lex {
                message: message@,
                line: *line as int,
                col: *col as int,
            },
            CompileError::SyntaxError { message, found, line, col } => ErrorView::Syntax {
                message: message@,
                found: found@,
                line: *line as int,
                col: *col as int,
            },
            CompileError::SemanticError { message, name, line, col } => ErrorView::Semantic {
                message: message@,
                name: name@,
                line: *line as int,
                col: *col as int,
            },
            CompileError::CodegenError { message } => ErrorView::Codegen { message: message@ },
            CompileError::EmissionError { message } => ErrorView::Emission { message: message@ },
            CompileError::LinkError { message } => ErrorView::Link { message: message@ },
            CompileError::RuntimeFailure { exit_code } => ErrorView::Runtime {
                exit_code: *exit_code as int,
            },
        }
    }
}

impl View for CompileError {
    type V = ErrorView;

    open spec fn view(&self) -> ErrorView {
        self.deep_view()
    }
}

/// The model of a `Result` whose sides both have models.
pub open spec fn res_view<T: DeepView, E: DeepView>(r: Result<T, E>) -> Result<T::V, E::V> {
    match r {
        Ok(v) => Ok(v.deep_view()),
        Err(e) => Err(e.deep_view()),
    }
}

} // verus!
