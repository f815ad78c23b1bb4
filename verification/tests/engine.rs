use rust_repl::engine::{CompileDecision, LineAction, RejectReason, SessionEngine};
use rust_repl::image::RustProject;

#[test]
fn fast_track_binding_commits_without_compile() {
    let mut e = SessionEngine::new();
    assert_eq!(e.submit_line("let x = 5;"), LineAction::Committed);
    assert_eq!(e.committed_image().generate_rust(), "fn main() {\nlet x = 5;\n}\n");
}

#[test]
fn end_to_end_commit_cycle() {
    let mut e = SessionEngine::new();
    assert_eq!(e.submit_line("let x = 5;"), LineAction::Committed);
    assert_eq!(e.submit_line("println!(\"{}\", x);"), LineAction::NeedCompile);
    assert_eq!(
        e.render_working(),
        "fn main() {\nlet x = 5;\nprintln!(\"{}\", x);\n}\n"
    );
    assert_eq!(e.apply_compile_result(""), CompileDecision::Run);
    e.apply_run_result(true);
    assert_eq!(
        e.committed_image().generate_rust(),
        e.working_image().generate_rust()
    );
    assert_eq!(e.committed_image().commands().len(), 2);
}

#[test]
fn std_import_gets_sentinel_version_without_prompt() {
    let mut e = SessionEngine::new();
    assert_eq!(e.submit_line("use std::io;"), LineAction::NeedCompile);
    let imports = e.working_image().imports().clone();
    assert_eq!(imports, vec![("std::io".to_string(), "default".to_string())]);
}

#[test]
fn external_import_awaits_version_then_records_it() {
    let mut e = SessionEngine::new();
    assert_eq!(
        e.submit_line("use rand;"),
        LineAction::AwaitVersion { path: "rand".to_string() }
    );
    assert_eq!(e.working_image().imports().len(), 0);
    assert!(e.submit_version("rand", "0.8.5"));
    let imports = e.working_image().imports().clone();
    assert_eq!(imports, vec![("rand".to_string(), "0.8.5".to_string())]);
}

#[test]
fn external_import_with_bad_version_is_fully_rejected() {
    let mut e = SessionEngine::new();
    assert_eq!(
        e.submit_line("use rand;"),
        LineAction::AwaitVersion { path: "rand".to_string() }
    );
    assert!(!e.submit_version("rand", "abc"));
    assert_eq!(e.working_image().imports().len(), 0);
    assert_eq!(
        e.working_image().generate_rust(),
        e.committed_image().generate_rust()
    );
}

#[test]
fn missing_terminator_leaves_working_unchanged() {
    let mut e = SessionEngine::new();
    assert_eq!(e.submit_line("let x = 5;"), LineAction::Committed);
    let before = e.working_image().generate_rust();
    assert_eq!(
        e.submit_line("println!(\"hi\")"),
        LineAction::Rejected { reason: RejectReason::MissingTerminator }
    );
    assert_eq!(e.working_image().generate_rust(), before);
    assert_eq!(e.committed_image().generate_rust(), before);
}

#[test]
fn disallowed_declarations_change_nothing() {
    let mut e = SessionEngine::new();
    assert_eq!(
        e.submit_line("const MAX: i32 = 10;"),
        LineAction::Rejected { reason: RejectReason::DisallowedDecl }
    );
    assert_eq!(
        e.submit_line("static S: u8 = 0;"),
        LineAction::Rejected { reason: RejectReason::DisallowedDecl }
    );
    assert_eq!(e.working_image().commands().len(), 0);
    assert_eq!(e.committed_image().commands().len(), 0);
}

#[test]
fn compile_error_rolls_back_to_committed() {
    let mut e = SessionEngine::new();
    assert_eq!(e.submit_line("let x = 5;"), LineAction::Committed);
    assert_eq!(e.submit_line("foo();"), LineAction::NeedCompile);
    assert_eq!(e.working_image().commands().len(), 2);
    assert_eq!(
        e.apply_compile_result("error[E0425]: cannot find function `foo`"),
        CompileDecision::RolledBack
    );
    assert_eq!(e.working_image().commands().len(), 1);
    assert_eq!(
        e.working_image().generate_rust(),
        e.committed_image().generate_rust()
    );
}

#[test]
fn warning_commits_and_asks_to_print() {
    let mut e = SessionEngine::new();
    assert_eq!(e.submit_line("let y = 7;"), LineAction::Committed);
    assert_eq!(e.submit_line("bar();"), LineAction::NeedCompile);
    assert_eq!(
        e.apply_compile_result("warning: unused variable: `y`"),
        CompileDecision::Committed { print_warning: true }
    );
    assert_eq!(e.committed_image().commands().len(), 2);
}

#[test]
fn warning_with_both_unused_kinds_is_suppressed() {
    let mut e = SessionEngine::new();
    assert_eq!(e.submit_line("baz();"), LineAction::NeedCompile);
    assert_eq!(
        e.apply_compile_result(
            "warning: unused import: `std::io`\nwarning: unused variable: `y`"
        ),
        CompileDecision::Committed { print_warning: false }
    );
    assert_eq!(e.committed_image().commands().len(), 1);
}

#[test]
fn run_failure_neither_commits_nor_rolls_back() {
    let mut e = SessionEngine::new();
    assert_eq!(e.submit_line("let x = 5;"), LineAction::Committed);
    assert_eq!(e.submit_line("println!(\"{}\", x);"), LineAction::NeedCompile);
    assert_eq!(e.apply_compile_result(""), CompileDecision::Run);
    e.apply_run_result(false);
    assert_eq!(e.committed_image().commands().len(), 1);
    assert_eq!(e.working_image().commands().len(), 2);
}

#[test]
fn committed_render_equals_replay_of_accepted_statements() {
    let mut e = SessionEngine::new();
    let accepted = ["let x = 1;", "let y = 2;", "println!(\"{}\", x + y);"];
    assert_eq!(e.submit_line(accepted[0]), LineAction::Committed);
    assert_eq!(e.submit_line(accepted[1]), LineAction::Committed);
    assert_eq!(e.submit_line(accepted[2]), LineAction::NeedCompile);
    assert_eq!(e.apply_compile_result(""), CompileDecision::Run);
    e.apply_run_result(true);
    let mut replay = RustProject::new();
    for s in accepted {
        replay.add_command(s);
    }
    assert_eq!(e.committed_image().generate_rust(), replay.generate_rust());
}

#[test]
fn exit_and_blank_input_touch_nothing() {
    let mut e = SessionEngine::new();
    assert_eq!(e.submit_line("   "), LineAction::Skip);
    assert_eq!(e.submit_line("exit"), LineAction::Exit);
    assert_eq!(e.working_image().commands().len(), 0);
    assert_eq!(e.committed_image().commands().len(), 0);
}
