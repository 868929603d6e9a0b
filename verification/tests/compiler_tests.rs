use tlstuc::ast::{Expression, Literal, Statement, Type};
use tlstuc::diag::CompileError;
use tlstuc::parser::parse;
use tlstuc::pipeline::{compile, compile_and_run};

const HELLO: &str = "#include <stdio.h>\n\nint main() {\n    printf(\"Hello, World!\\n\");\n    return 0;\n}\n";

#[test]
fn parse_hello_world_shape() {
    let ast = parse(HELLO).expect("hello world must parse");
    assert_eq!(ast.functions.len(), 1);
    assert_eq!(ast.functions[0].name, "main");
    assert!(matches!(ast.functions[0].return_type, Type::Int));
    assert_eq!(ast.functions[0].parameters.len(), 0);
    let body = &ast.functions[0].body.statements;
    assert_eq!(body.len(), 2);
    match &body[0] {
        Statement::Expression(Expression::Call(name, args)) => {
            assert_eq!(name, "printf");
            assert_eq!(args.len(), 1);
            match &args[0] {
                Expression::Literal(Literal::String(s)) => {
                    assert_eq!(s, "Hello, World!\n");
                }
                _ => panic!("expected a string literal"),
            }
        }
        _ => panic!("expected a printf call first"),
    }
    match &body[1] {
        Statement::Return(Some(Expression::Literal(Literal::Int(v)))) => assert_eq!(*v, 0),
        _ => panic!("expected return 0"),
    }
}

#[test]
fn compile_hello_world_passes_all_checks() {
    let ast = compile(HELLO).expect("hello world must compile");
    assert_eq!(ast.functions[0].name, "main");
}

#[test]
fn compile_args_program() {
    let src = "#include <stdio.h>\n\nint main(int argc, char **argv) {\n    printf(\"Number of arguments: %d\\n\", argc);\n    return 0;\n}\n";
    let ast = compile(src).expect("argument counting program must compile");
    assert_eq!(ast.functions[0].parameters.len(), 2);
    assert_eq!(ast.functions[0].parameters[0].name, "argc");
    assert_eq!(ast.functions[0].parameters[1].name, "argv");
}

#[test]
fn missing_closing_brace_is_a_syntax_error_at_the_last_line() {
    let src = "int main() {\n    printf(\"x\");\n";
    match compile(src) {
        Err(CompileError::SyntaxError { line, .. }) => assert_eq!(line, 2),
        other => panic!("expected a syntax error, got ok={}", other.is_ok()),
    }
}

#[test]
fn syntax_error_points_at_the_offending_token_line() {
    let src = "int main() {\n    int x = ;\n    return 0;\n}\n";
    match compile(src) {
        Err(CompileError::SyntaxError { line, .. }) => assert_eq!(line, 2),
        other => panic!("expected a syntax error, got ok={}", other.is_ok()),
    }
}

#[test]
fn undeclared_identifier_is_named() {
    let src = "int main() {\n    x = 1;\n    return 0;\n}\n";
    match compile(src) {
        Err(CompileError::SemanticError { name, .. }) => assert_eq!(name, "x"),
        other => panic!("expected a semantic error, got ok={}", other.is_ok()),
    }
}

#[test]
fn undeclared_function_is_named() {
    let src = "int main() {\n    return g();\n}\n";
    match compile(src) {
        Err(CompileError::SemanticError { name, .. }) => assert_eq!(name, "g"),
        other => panic!("expected a semantic error, got ok={}", other.is_ok()),
    }
}

#[test]
fn wrong_arity_is_reported() {
    let src = "int f(int a) {\n    return a;\n}\nint main() {\n    return f(1, 2);\n}\n";
    match compile(src) {
        Err(CompileError::SemanticError { message, name, .. }) => {
            assert_eq!(message, "wrong number of arguments");
            assert_eq!(name, "f");
        }
        other => panic!("expected a semantic error, got ok={}", other.is_ok()),
    }
}

#[test]
fn redeclaration_in_same_scope_is_rejected() {
    let src = "int main() {\n    int a;\n    int a;\n    return 0;\n}\n";
    match compile(src) {
        Err(CompileError::SemanticError { message, name, .. }) => {
            assert_eq!(message, "redeclaration in the same scope");
            assert_eq!(name, "a");
        }
        other => panic!("expected a semantic error, got ok={}", other.is_ok()),
    }
}

#[test]
fn shadowing_in_inner_scope_is_allowed() {
    let src = "int main() {\n    int a;\n    a = 1;\n    {\n        int a;\n        a = 2;\n    }\n    return a;\n}\n";
    assert!(compile(src).is_ok());
}

#[test]
fn assignment_to_const_is_rejected() {
    let src = "int main() {\n    const int c = 1;\n    c = 2;\n    return 0;\n}\n";
    match compile(src) {
        Err(CompileError::SemanticError { message, .. }) => {
            assert_eq!(message, "assignment to a constant");
        }
        other => panic!("expected a semantic error, got ok={}", other.is_ok()),
    }
}

#[test]
fn missing_return_path_is_rejected_except_for_main() {
    let bad = "int f(void) {\n    int a;\n    a = 1;\n}\nint main() {\n    return 0;\n}\n";
    match compile(bad) {
        Err(CompileError::SemanticError { message, name, .. }) => {
            assert_eq!(message, "not every path returns a value");
            assert_eq!(name, "f");
        }
        other => panic!("expected a semantic error, got ok={}", other.is_ok()),
    }
    let main_ok = "int main() {\n    int a;\n    a = 1;\n}\n";
    assert!(compile(main_ok).is_ok());
}

#[test]
fn control_flow_and_operators_compile() {
    let src = "int main() {\n    int s;\n    s = 0;\n    for (int i = 0; i < 10; i = i + 1) {\n        s = s + i;\n    }\n    while (s > 5) {\n        s = s - 1;\n    }\n    if (s == 5 && s != 0) {\n        return s % 3;\n    } else {\n        return (s << 1) | 1;\n    }\n}\n";
    assert!(compile(src).is_ok());
}

#[test]
fn struct_with_two_int_fields_checks() {
    let src = "struct point {\n    int x;\n    int y;\n};\nint main() {\n    struct point p;\n    p.x = 1;\n    p.y = 2;\n    return p.x + p.y;\n}\n";
    let ast = compile(src).expect("struct program must compile");
    assert_eq!(ast.structs.len(), 1);
    assert_eq!(ast.structs[0].name, "point");
    assert_eq!(ast.structs[0].fields.len(), 2);
    assert_eq!(ast.structs[0].fields[0].name, "x");
    assert_eq!(ast.structs[0].fields[1].name, "y");
}

#[test]
fn unresolved_struct_reference_is_rejected() {
    let src = "int main() {\n    struct missing m;\n    return 0;\n}\n";
    match compile(src) {
        Err(CompileError::SemanticError { message, .. }) => {
            assert_eq!(message, "unresolved type in declaration");
        }
        other => panic!("expected a semantic error, got ok={}", other.is_ok()),
    }
}

#[test]
fn unrecognized_character_is_a_lex_error() {
    let src = "int main() { @ }";
    match compile(src) {
        Err(CompileError::LexError { message, line, col }) => {
            assert_eq!(message, "unrecognized character");
            assert_eq!(line, 1);
            assert_eq!(col, 14);
        }
        other => panic!("expected a lex error, got ok={}", other.is_ok()),
    }
}

#[test]
fn unterminated_string_is_a_lex_error() {
    let src = "int main() {\n    printf(\"abc;\n    return 0;\n}\n";
    match compile(src) {
        Err(CompileError::LexError { message, line, .. }) => {
            assert_eq!(message, "unterminated string literal");
            assert_eq!(line, 2);
        }
        other => panic!("expected a lex error, got ok={}", other.is_ok()),
    }
}

#[test]
fn oversized_integer_literal_is_a_lex_error() {
    let src = "int main() {\n    return 99999999999999999999;\n}\n";
    match compile(src) {
        Err(CompileError::LexError { message, line, .. }) => {
            assert_eq!(message, "integer literal too large");
            assert_eq!(line, 2);
        }
        other => panic!("expected a lex error, got ok={}", other.is_ok()),
    }
}

#[test]
fn comments_and_preprocessor_lines_are_skipped() {
    let src = "// leading comment\n#include <stdio.h>\n/* block\n   comment */\nint main() {\n    return 0; // trailing\n}\n";
    assert!(compile(src).is_ok());
}

#[test]
fn compiling_twice_gives_the_same_result() {
    let a = compile(HELLO).expect("first compile");
    let b = compile(HELLO).expect("second compile");
    assert_eq!(a.functions.len(), b.functions.len());
    assert_eq!(a.functions[0].name, b.functions[0].name);
    assert_eq!(a.functions[0].body.statements.len(), b.functions[0].body.statements.len());
    let bad = "int main() {\n";
    let e1 = compile(bad).unwrap_err();
    let e2 = compile(bad).unwrap_err();
    match (e1, e2) {
        (
            CompileError::SyntaxError { line: l1, col: c1, .. },
            CompileError::SyntaxError { line: l2, col: c2, .. },
        ) => {
            assert_eq!(l1, l2);
            assert_eq!(c1, c2);
        }
        _ => panic!("expected matching syntax errors"),
    }
}

#[test]
fn compile_and_run_refuses_non_c_files() {
    match compile_and_run("hello.txt", HELLO) {
        Err(CompileError::IOError { message }) => assert_eq!(message, "not a C source file"),
        other => panic!("expected refusal, got ok={}", other.is_ok()),
    }
    assert!(compile_and_run("hello.c", HELLO).is_ok());
}

#[test]
fn pointer_and_cast_expressions_check() {
    let src = "int main(int argc, char **argv) {\n    char *first;\n    first = argv[0];\n    char c;\n    c = *first;\n    int n;\n    n = (int) c;\n    return n - n;\n}\n";
    assert!(compile(src).is_ok());
}

#[test]
fn pointer_integer_mixing_is_rejected() {
    let src = "int main(int argc, char **argv) {\n    int n;\n    n = argc * argv;\n    return 0;\n}\n";
    match compile(src) {
        Err(CompileError::SemanticError { message, .. }) => {
            assert_eq!(message, "operand types do not fit the operator");
        }
        other => panic!("expected a semantic error, got ok={}", other.is_ok()),
    }
}

#[test]
fn duplicate_function_names_are_rejected_at_parse_time() {
    let src = "int f() {\n    return 1;\n}\nint f() {\n    return 2;\n}\n";
    match parse(src) {
        Err(CompileError::SyntaxError { message, line, .. }) => {
            assert_eq!(message, "redefinition of function");
            assert_eq!(line, 4);
        }
        other => panic!("expected a syntax error, got ok={}", other.is_ok()),
    }
}

#[test]
fn duplicate_struct_names_are_rejected_at_parse_time() {
    let src = "struct s {\n    int a;\n};\nstruct s {\n    int b;\n};\nint main() {\n    return 0;\n}\n";
    match parse(src) {
        Err(CompileError::SyntaxError { message, line, .. }) => {
            assert_eq!(message, "redefinition of struct");
            assert_eq!(line, 4);
        }
        other => panic!("expected a syntax error, got ok={}", other.is_ok()),
    }
}

#[test]
fn duplicate_parameter_names_are_rejected_at_parse_time() {
    let src = "int f(int a, int a) {\n    return a;\n}\n";
    match parse(src) {
        Err(CompileError::SyntaxError { message, line, .. }) => {
            assert_eq!(message, "duplicate parameter name");
            assert_eq!(line, 1);
        }
        other => panic!("expected a syntax error, got ok={}", other.is_ok()),
    }
}

#[test]
fn syntax_errors_describe_expected_and_found() {
    let src = "int main() {\n    int x = ;\n    return 0;\n}\n";
    match compile(src) {
        Err(CompileError::SyntaxError { message, found, .. }) => {
            assert_eq!(message, "expected expression");
            assert_eq!(found, "';'");
        }
        other => panic!("expected a syntax error, got ok={}", other.is_ok()),
    }
    let truncated = "int main() {\n    printf(\"x\");\n";
    match compile(truncated) {
        Err(CompileError::SyntaxError { found, .. }) => assert_eq!(found, "end of input"),
        other => panic!("expected a syntax error, got ok={}", other.is_ok()),
    }
}
