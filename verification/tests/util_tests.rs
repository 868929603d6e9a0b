use tlstuc::config::{Config, OptimizationLevel};
use tlstuc::diag::CompileError;
use tlstuc::runtime::{cleanup, exit_status_outcome, init, stdlib};
use tlstuc::utils::{executable_output_path, format_error, is_c_file_name, usize_to_string};

#[test]
fn format_error_without_location() {
    assert_eq!(format_error("bad input", None, None, None), "error: bad input");
}

#[test]
fn format_error_with_file_only() {
    assert_eq!(
        format_error("bad input", Some("a.c"), None, None),
        "error: bad input in a.c"
    );
}

#[test]
fn format_error_with_line_only() {
    assert_eq!(
        format_error("bad input", Some("a.c"), Some(3), None),
        "error: bad input in a.c (line 3)"
    );
}

#[test]
fn format_error_with_line_and_column() {
    assert_eq!(
        format_error("bad input", Some("a.c"), Some(3), Some(7)),
        "error: bad input in a.c (3:7)"
    );
}

#[test]
fn format_error_reduces_a_path_to_its_file_name() {
    assert_eq!(
        format_error("bad input", Some("dir/sub/x.c"), Some(3), Some(7)),
        "error: bad input in x.c (3:7)"
    );
    assert_eq!(
        format_error("bad input", Some("dir/"), None, None),
        "error: bad input in <unknown>"
    );
    assert_eq!(
        format_error("bad input", Some(""), None, None),
        "error: bad input in <unknown>"
    );
}

#[test]
fn hidden_directory_names_are_recognized() {
    assert!(tlstuc::utils::is_hidden_dir_name(".git"));
    assert!(!tlstuc::utils::is_hidden_dir_name("src"));
    assert!(!tlstuc::utils::is_hidden_dir_name(""));
}

#[test]
fn decimal_rendering() {
    assert_eq!(usize_to_string(0), "0");
    assert_eq!(usize_to_string(7), "7");
    assert_eq!(usize_to_string(1234), "1234");
    assert_eq!(usize_to_string(1000), "1000");
}

#[test]
fn executable_path_strips_the_c_suffix() {
    assert_eq!(executable_output_path("hello.c"), "hello");
    assert_eq!(executable_output_path("dir.stuff.c"), "dir.stuff");
    assert_eq!(executable_output_path("hello.txt"), "hello.txt");
    assert!(is_c_file_name("x.c"));
    assert!(!is_c_file_name("c"));
}

#[test]
fn exit_status_judgement() {
    assert!(exit_status_outcome(0).is_ok());
    match exit_status_outcome(3) {
        Err(CompileError::RuntimeFailure { exit_code }) => assert_eq!(exit_code, 3),
        _ => panic!("a nonzero exit is the program's own failure"),
    }
}

#[test]
fn runtime_hooks_succeed() {
    assert!(init().is_ok());
    assert!(cleanup().is_ok());
    assert!(stdlib::init().is_ok());
}

#[test]
fn default_configuration() {
    let c = Config::default();
    assert_eq!(c.name, "tlstuc_project");
    assert_eq!(c.version, "0.1.0");
    assert!(c.author.is_none());
    assert!(matches!(c.compiler_options.optimization_level, OptimizationLevel::Default));
    assert!(!c.compiler_options.warnings_as_errors);
    assert!(c.compiler_options.include_paths.is_empty());
    assert!(c.compiler_options.libraries.is_empty());
}
