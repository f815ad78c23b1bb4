use rust_repl::classify::{
    classify, extract_version, interpret_compiler_output, CompileOutcome, LineClass,
};

#[test]
fn blank_lines_are_empty() {
    assert_eq!(classify(""), LineClass::Empty);
    assert_eq!(classify("   \t  "), LineClass::Empty);
}

#[test]
fn exit_keyword_is_recognised_trimmed() {
    assert_eq!(classify("exit"), LineClass::Exit);
    assert_eq!(classify("  exit  "), LineClass::Exit);
}

#[test]
fn missing_terminator_is_a_syntax_error() {
    assert_eq!(classify("let x = 5"), LineClass::MissingTerminator);
    assert_eq!(classify("println!(\"hi\")"), LineClass::MissingTerminator);
}

#[test]
fn std_import_is_classified_with_path() {
    assert_eq!(
        classify("use std::io;"),
        LineClass::StdImport { path: "std::io".to_string() }
    );
}

#[test]
fn external_import_is_classified_with_path() {
    assert_eq!(
        classify("use rand;"),
        LineClass::ExternalImport { path: "rand".to_string() }
    );
}

#[test]
fn import_without_path_is_malformed() {
    assert_eq!(classify("use;"), LineClass::MalformedImport);
    assert_eq!(classify("use ;"), LineClass::MalformedImport);
    assert_eq!(classify("useless;"), LineClass::MalformedImport);
}

#[test]
fn const_and_static_declarations_are_disallowed() {
    assert_eq!(classify("const MAX: i32 = 10;"), LineClass::DisallowedDecl);
    assert_eq!(classify("static S: u8 = 0;"), LineClass::DisallowedDecl);
}

#[test]
fn const_without_terminator_is_still_rejected() {
    assert_eq!(classify("const MAX: i32 = 10"), LineClass::MissingTerminator);
}

#[test]
fn let_statement_is_a_binding() {
    assert_eq!(
        classify("let x = 5;"),
        LineClass::Binding { text: "let x = 5;".to_string() }
    );
}

#[test]
fn other_statements_are_generic_commands() {
    assert_eq!(
        classify("println!(\"{}\", x);"),
        LineClass::Command { text: "println!(\"{}\", x);".to_string() }
    );
}

#[test]
fn version_with_three_groups_is_extracted_whole() {
    assert_eq!(extract_version("0.8.5"), Some("0.8.5".to_string()));
}

#[test]
fn version_without_digits_is_rejected() {
    assert_eq!(extract_version("abc"), None);
    assert_eq!(extract_version(""), None);
}

#[test]
fn version_is_found_inside_surrounding_text() {
    assert_eq!(extract_version("  1.2  "), Some("1.2".to_string()));
    assert_eq!(extract_version("version 1 please"), Some("1".to_string()));
}

#[test]
fn version_token_stops_after_three_groups() {
    assert_eq!(extract_version("1.2.3.4"), Some("1.2.3".to_string()));
}

#[test]
fn empty_diagnostics_mean_success() {
    assert_eq!(interpret_compiler_output(""), CompileOutcome::Success);
}

#[test]
fn leading_warning_marker_means_warning() {
    assert_eq!(
        interpret_compiler_output("warning: unused variable: `x`"),
        CompileOutcome::Warning { suppressed: false }
    );
}

#[test]
fn warning_suppressed_only_with_both_unused_kinds() {
    assert_eq!(
        interpret_compiler_output(
            "warning: unused import: `std::io`\nwarning: unused variable: `x`"
        ),
        CompileOutcome::Warning { suppressed: true }
    );
    assert_eq!(
        interpret_compiler_output("warning: unused import: `std::io`"),
        CompileOutcome::Warning { suppressed: false }
    );
}

#[test]
fn other_diagnostics_mean_error() {
    assert_eq!(
        interpret_compiler_output("error[E0425]: cannot find value `x`"),
        CompileOutcome::Error
    );
}
