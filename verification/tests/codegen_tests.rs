use tlstuc::codegen::{lower, Arg, Inst};
use tlstuc::diag::CompileError;
use tlstuc::pipeline::compile;

#[test]
fn hello_world_lowers_to_print_and_return() {
    let src = "int main() {\n    printf(\"Hello, World!\\n\");\n    return 0;\n}\n";
    let ast = compile(src).expect("must compile");
    let ir = lower(&ast).expect("must lower");
    assert_eq!(ir.len(), 1);
    assert_eq!(ir[0].name, "main");
    assert_eq!(ir[0].n_params, 0);
    assert_eq!(ir[0].body.len(), 3);
    match &ir[0].body[0] {
        Inst::StrGlobal { id, text } => {
            assert_eq!(*id, 0);
            assert_eq!(text, "Hello, World!\n");
        }
        _ => panic!("expected the string data first"),
    }
    match &ir[0].body[1] {
        Inst::CallPrintf { args } => {
            assert_eq!(args.len(), 1);
            assert!(matches!(args[0], Arg::Str { id: 0 }));
        }
        _ => panic!("expected the printf call second"),
    }
    assert!(matches!(ir[0].body[2], Inst::Ret { value: 0 }));
}

#[test]
fn argc_program_lowers_the_parameter_operand() {
    let src = "int main(int argc, char **argv) {\n    printf(\"Number of arguments: %d\\n\", argc);\n    return 0;\n}\n";
    let ast = compile(src).expect("must compile");
    let ir = lower(&ast).expect("must lower");
    assert_eq!(ir[0].n_params, 2);
    match &ir[0].body[1] {
        Inst::CallPrintf { args } => {
            assert_eq!(args.len(), 2);
            assert!(matches!(args[0], Arg::Str { id: 0 }));
            assert!(matches!(args[1], Arg::Param(0)));
        }
        _ => panic!("expected the printf call second"),
    }
}

#[test]
fn string_globals_are_distinct_across_the_module() {
    let src = "int helper() {\n    printf(\"one\\n\");\n    return 0;\n}\nint main() {\n    printf(\"two\\n\");\n    return 0;\n}\n";
    let ast = compile(src).expect("must compile");
    let ir = lower(&ast).expect("must lower");
    assert_eq!(ir.len(), 2);
    match (&ir[0].body[0], &ir[1].body[0]) {
        (Inst::StrGlobal { id: a, .. }, Inst::StrGlobal { id: b, .. }) => assert_ne!(a, b),
        _ => panic!("expected one string global per function"),
    }
}

#[test]
fn a_body_falling_off_its_end_returns_zero() {
    let src = "int main() {\n    printf(\"x\\n\");\n}\n";
    let ast = compile(src).expect("must compile");
    let ir = lower(&ast).expect("must lower");
    assert!(matches!(ir[0].body[ir[0].body.len() - 1], Inst::Ret { value: 0 }));
}

#[test]
fn constructs_outside_the_instruction_set_are_refused() {
    let src = "int main() {\n    int s;\n    s = 0;\n    while (s < 3) {\n        s = s + 1;\n    }\n    return s;\n}\n";
    let ast = compile(src).expect("the front end accepts the whole language");
    match lower(&ast) {
        Err(CompileError::CodegenError { message }) => {
            assert_eq!(message, "statement form is not lowered yet");
        }
        other => panic!("expected a lowering refusal, got ok={}", other.is_ok()),
    }
}
