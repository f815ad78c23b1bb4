//! Statement classification and toolchain-output interpretation.
//!
//! Every trimmed input line falls into exactly one class: the exit
//! keyword, a rejection (missing terminator, malformed import,
//! disallowed declaration), an import (standard-library or external),
//! a local-binding statement (fast-tracked), or a generic statement.
//! Compiler diagnostics are read as success, warning (with one
//! suppression rule), or error.

use vstd::prelude::*;
use crate::text::{
    contains_seq,
    digit,
    digit_run_end,
    find_digit_run_end,
    find_first_digit,
    first_digit_from,
    is_digit,
    is_space,
    space,
    starts_with,
    str_contains,
    str_eq,
    str_starts_with,
    trim,
    trim_str,
};

verus! {

/// The class of one trimmed input line, over character sequences.
pub ghost enum LineClassModel {
    /// Nothing but whitespace: skipped, never an error.
    Empty,
    /// The reserved exit keyword: the session terminates.
    Exit,
    /// No trailing statement terminator: rejected.
    MissingTerminator,
    /// An import keyword without a usable import path: rejected.
    MalformedImport,
    /// An import of the standard/builtin namespace: tagged with the
    /// sentinel version, no version prompt.
    StdImport { path: Seq<char> },
    /// An import outside the standard namespace: a version must be
    /// supplied before it is recorded.
    ExternalImport { path: Seq<char> },
    /// A module-level constant or static declaration: rejected.
    DisallowedDecl,
    /// A local-binding statement: appended and committed without a
    /// compile (fast track).
    Binding { text: Seq<char> },
    /// Any other statement: appended, then compiled.
    Command { text: Seq<char> },
}

/// The class of one input line, carrying the texts the session needs.
#[derive(PartialEq, Eq, Debug, Clone)]
pub enum LineClass {
    Empty,
    Exit,
    MissingTerminator,
    MalformedImport,
    StdImport { path: String },
    ExternalImport { path: String },
    DisallowedDecl,
    Binding { text: String },
    Command { text: String },
}

impl View for LineClass {
    type V = LineClassModel;

    open spec fn view(&self) -> LineClassModel {
        match self {
            LineClass::Empty => LineClassModel::Empty,
            LineClass::Exit => LineClassModel::Exit,
            LineClass::MissingTerminator => LineClassModel::MissingTerminator,
            LineClass::MalformedImport => LineClassModel::MalformedImport,
            LineClass::StdImport { path } => LineClassModel::StdImport { path: path@ },
            LineClass::ExternalImport { path } => LineClassModel::ExternalImport { path: path@ },
            LineClass::DisallowedDecl => LineClassModel::DisallowedDecl,
            LineClass::Binding { text } => LineClassModel::Binding { text: text@ },
            LineClass::Command { text } => LineClassModel::Command { text: text@ },
        }
    }
}

/// How one raw input line is classified. `line` is taken as typed;
/// classification itself trims it.
pub open spec fn classify_model(line: Seq<char>) -> LineClassModel {
    let t = trim(line);
    if t.len() == 0 {
        LineClassModel::Empty
    } else if t == "exit"@ {
        LineClassModel::Exit
    } else if t.last() != ';' {
        LineClassModel::MissingTerminator
    } else if starts_with(t, "use"@) {
        if t.len() <= 4 || !is_space(t[3]) {
            LineClassModel::MalformedImport
        } else {
            let path = trim(t.subrange(4, t.len() - 1));
            if path.len() == 0 {
                LineClassModel::MalformedImport
            } else if starts_with(path, "std::"@) {
                LineClassModel::StdImport { path }
            } else {
                LineClassModel::ExternalImport { path }
            }
        }
    } else if starts_with(t, "const"@) || starts_with(t, "static"@) {
        LineClassModel::DisallowedDecl
    } else if starts_with(t, "let"@) {
        LineClassModel::Binding { text: t }
    } else {
        LineClassModel::Command { text: t }
    }
}

/// Classify one raw input line.
pub fn classify(line: &str) -> (c: LineClass)
    ensures
        c@ == classify_model(line@),
{
    let t = trim_str(line);
    let n = t.unicode_len();
    if n == 0 {
        return LineClass::Empty;
    }
    if str_eq(t, "exit") {
        return LineClass::Exit;
    }
    if t.get_char(n - 1) != ';' {
        return LineClass::MissingTerminator;
    }
    if str_starts_with(t, "use") {
        if n <= 4 || !space(t.get_char(3)) {
            return LineClass::MalformedImport;
        }
        let raw = t.substring_char(4, n - 1);
        let path = trim_str(raw);
        if path.unicode_len() == 0 {
            return LineClass::MalformedImport;
        }
        if str_starts_with(path, "std::") {
            return LineClass::StdImport { path: path.to_owned() };
        }
        return LineClass::ExternalImport { path: path.to_owned() };
    }
    if str_starts_with(t, "const") || str_starts_with(t, "static") {
        return LineClass::DisallowedDecl;
    }
    if str_starts_with(t, "let") {
        return LineClass::Binding { text: t.to_owned() };
    }
    LineClass::Command { text: t.to_owned() }
}

/// The end of a dotted numeric token: starting just past a digit run at
/// `i`, extend by at most `groups` further `.digits` groups.
pub open spec fn version_token_end(s: Seq<char>, i: int, groups: nat) -> int
    decreases groups,
{
    if groups == 0 {
        i
    } else if i + 1 < s.len() && s[i] == '.' && is_digit(s[i + 1]) {
        version_token_end(s, digit_run_end(s, i + 1), (groups - 1) as nat)
    } else {
        i
    }
}

/// The first dotted numeric token of the input: a digit run, extended
/// by up to two `.digits` groups. `None` when the input holds no digit.
pub open spec fn extract_version_model(s: Seq<char>) -> Option<Seq<char>> {
    let b = first_digit_from(s, 0);
    if b == s.len() {
        Option::None
    } else {
        Option::Some(s.subrange(b, version_token_end(s, digit_run_end(s, b), 2)))
    }
}

/// Extract the version tag from a reply to the version prompt: the
/// first dotted numeric token, or `None` when the reply holds none.
pub fn extract_version(s: &str) -> (r: Option<String>)
    ensures
        (r is Some) == (extract_version_model(s@) is Some),
        r is Some ==> r.unwrap()@ == extract_version_model(s@).unwrap(),
{
    let n = s.unicode_len();
    let b = find_first_digit(s, 0);
    if b == n {
        return Option::None;
    }
    proof {
        reveal_with_fuel(version_token_end, 3);
    }
    let run1 = find_digit_run_end(s, b);
    let ghost g1 = version_token_end(s@, run1 as int, 2);
    let mut e = run1;
    if e < n && s.get_char(e) == '.' && e + 1 < n && digit(s.get_char(e + 1)) {
        let run2 = find_digit_run_end(s, e + 1);
        let ghost g2 = version_token_end(s@, run2 as int, 1);
        proof {
            assert(g1 == g2);
        }
        e = run2;
        if e < n && s.get_char(e) == '.' && e + 1 < n && digit(s.get_char(e + 1)) {
            e = find_digit_run_end(s, e + 1);
            proof {
                assert(g2 == e as int);
            }
        } else {
            proof {
                assert(g2 == e as int);
            }
        }
    } else {
        proof {
            assert(g1 == e as int);
        }
    }
    Option::Some(s.substring_char(b, e).to_owned())
}

/// The toolchain's verdict, read off its diagnostic stream.
#[derive(PartialEq, Eq, Structural, Clone, Copy, Debug)]
pub enum CompileOutcome {
    /// No diagnostics at all: the program compiled cleanly.
    Success,
    /// Diagnostics opening with the warning marker: the statement is
    /// still accepted. `suppressed` says whether the text is withheld
    /// (it names both an unused import and an unused variable).
    Warning { suppressed: bool },
    /// Any other diagnostics: a compile error, the statement is rolled
    /// back.
    Error,
}

/// How a diagnostic stream is read: empty means success, a leading
/// warning marker means warning, anything else means error. A warning
/// is suppressed exactly when it mentions both an unused import and an
/// unused variable.
pub open spec fn interpret_model(stderr: Seq<char>) -> CompileOutcome {
    if stderr.len() == 0 {
        CompileOutcome::Success
    } else if starts_with(stderr, "warning"@) {
        CompileOutcome::Warning {
            suppressed: contains_seq(stderr, "unused import"@) && contains_seq(
                stderr,
                "unused variable"@,
            ),
        }
    } else {
        CompileOutcome::Error
    }
}

/// Read the toolchain's diagnostic stream.
pub fn interpret_compiler_output(stderr: &str) -> (o: CompileOutcome)
    ensures
        o == interpret_model(stderr@),
{
    if stderr.is_empty() {
        return CompileOutcome::Success;
    }
    if str_starts_with(stderr, "warning") {
        let suppressed = str_contains(stderr, "unused import") && str_contains(
            stderr,
            "unused variable",
        );
        return CompileOutcome::Warning { suppressed };
    }
    CompileOutcome::Error
}

} // verus!
