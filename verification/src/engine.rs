//! The session engine: the read-eval loop's decisions as a state
//! machine over two program images.
//!
//! `committed` is the last known-good program; `working` is committed
//! plus the pending speculative statement. Each step is specified by a
//! spec-level transition function (`submit_model`, `version_step_model`,
//! `compile_step_model`), and the laws of the state machine are proved
//! of those transitions.

use vstd::prelude::*;
use crate::image::{ImageModel, RustProject};
use crate::classify::{
    classify,
    classify_model,
    extract_version,
    extract_version_model,
    interpret_compiler_output,
    interpret_model,
    CompileOutcome,
    LineClass,
    LineClassModel,
};

verus! {

/// The mathematical content of a session: the two image models.
pub ghost struct EngineModel {
    pub committed: ImageModel,
    pub working: ImageModel,
}

impl EngineModel {
    /// A fresh session: both images empty.
    pub open spec fn initial() -> EngineModel {
        EngineModel { committed: ImageModel::empty(), working: ImageModel::empty() }
    }

    /// Both images keep their import paths unique.
    pub open spec fn wf(self) -> bool {
        self.committed.wf() && self.working.wf()
    }
}

/// The version tag recorded for imports of the standard namespace.
pub open spec fn std_version_sentinel() -> Seq<char> {
    "default"@
}

/// Why a line was rejected without touching any image.
#[derive(PartialEq, Eq, Structural, Clone, Copy, Debug)]
pub enum RejectReason {
    /// The statement lacks the required trailing terminator.
    MissingTerminator,
    /// An import keyword without a usable import path.
    MalformedImport,
    /// A module-level constant or static declaration.
    DisallowedDecl,
}

/// What the caller must do next after handing in a line, over
/// character sequences.
pub ghost enum LineActionModel {
    /// Blank input: read the next line.
    Skip,
    /// The exit keyword: terminate the session.
    Exit,
    /// The line was rejected; nothing changed.
    Rejected { reason: RejectReason },
    /// An external import: obtain a version reply and hand it to
    /// `submit_version` together with this path.
    AwaitVersion { path: Seq<char> },
    /// A local binding was fast-tracked: already committed, no compile.
    Committed,
    /// The working image changed: render it and run the compiler.
    NeedCompile,
}

/// What the caller must do next after handing in a line.
#[derive(PartialEq, Eq, Debug, Clone)]
pub enum LineAction {
    Skip,
    Exit,
    Rejected { reason: RejectReason },
    AwaitVersion { path: String },
    Committed,
    NeedCompile,
}

impl View for LineAction {
    type V = LineActionModel;

    open spec fn view(&self) -> LineActionModel {
        match self {
            LineAction::Skip => LineActionModel::Skip,
            LineAction::Exit => LineActionModel::Exit,
            LineAction::Rejected { reason } => LineActionModel::Rejected { reason: *reason },
            LineAction::AwaitVersion { path } => LineActionModel::AwaitVersion { path: path@ },
            LineAction::Committed => LineActionModel::Committed,
            LineAction::NeedCompile => LineActionModel::NeedCompile,
        }
    }
}

/// What must be done after the compiler ran on the working image.
#[derive(PartialEq, Eq, Structural, Clone, Copy, Debug)]
pub enum CompileDecision {
    /// Clean compile: run the produced artifact, then report the result
    /// through `apply_run_result`.
    Run,
    /// A warning: the statement is committed anyway; `print_warning`
    /// says whether the diagnostic text is to be shown.
    Committed { print_warning: bool },
    /// An error: the working image was reset from the committed one.
    RolledBack,
}

/// The action a line's class calls for.
pub open spec fn line_action_model(c: LineClassModel) -> LineActionModel {
    match c {
        LineClassModel::Empty => LineActionModel::Skip,
        LineClassModel::Exit => LineActionModel::Exit,
        LineClassModel::MissingTerminator => LineActionModel::Rejected {
            reason: RejectReason::MissingTerminator,
        },
        LineClassModel::MalformedImport => LineActionModel::Rejected {
            reason: RejectReason::MalformedImport,
        },
        LineClassModel::DisallowedDecl => LineActionModel::Rejected {
            reason: RejectReason::DisallowedDecl,
        },
        LineClassModel::StdImport { path } => LineActionModel::NeedCompile,
        LineClassModel::ExternalImport { path } => LineActionModel::AwaitVersion { path },
        LineClassModel::Binding { text } => LineActionModel::Committed,
        LineClassModel::Command { text } => LineActionModel::NeedCompile,
    }
}

/// How one input line changes the session state: rejected lines and
/// external imports (which still await a version) change nothing; a
/// standard import is recorded in the working image with the sentinel
/// version; a binding is appended and committed at once; any other
/// statement is appended to the working image only.
pub open spec fn submit_model(e: EngineModel, line: Seq<char>) -> EngineModel {
    match classify_model(line) {
        LineClassModel::StdImport { path } => EngineModel {
            working: e.working.upsert_import(path, std_version_sentinel()),
            ..e
        },
        LineClassModel::Binding { text } => {
            let w = e.working.with_command(text);
            EngineModel { committed: w, working: w }
        },
        LineClassModel::Command { text } => EngineModel {
            working: e.working.with_command(text),
            ..e
        },
        _ => e,
    }
}

/// How a version reply changes the session state: an unparsable reply
/// changes nothing; otherwise the import is recorded in the working
/// image under the extracted version.
pub open spec fn version_step_model(e: EngineModel, path: Seq<char>, reply: Seq<char>) -> EngineModel {
    match extract_version_model(reply) {
        Option::Some(v) => EngineModel { working: e.working.upsert_import(path, v), ..e },
        Option::None => e,
    }
}

/// How the compiler's diagnostics change the session state: success
/// defers to the run step; a warning promotes working to committed; an
/// error resets working from committed.
pub open spec fn compile_step_model(e: EngineModel, stderr: Seq<char>) -> EngineModel {
    match interpret_model(stderr) {
        CompileOutcome::Success => e,
        CompileOutcome::Warning { suppressed } => EngineModel {
            committed: e.working,
            working: e.working,
        },
        CompileOutcome::Error => EngineModel { committed: e.committed, working: e.committed },
    }
}

/// The decision the compiler's verdict calls for.
pub open spec fn compile_decision_model(o: CompileOutcome) -> CompileDecision {
    match o {
        CompileOutcome::Success => CompileDecision::Run,
        CompileOutcome::Warning { suppressed } => CompileDecision::Committed {
            print_warning: !suppressed,
        },
        CompileOutcome::Error => CompileDecision::RolledBack,
    }
}

/// Drives the read-eval loop over a committed and a working image.
pub struct SessionEngine {
    committed: RustProject,
    working: RustProject,
}

impl View for SessionEngine {
    type V = EngineModel;

    closed spec fn view(&self) -> EngineModel {
        EngineModel { committed: self.committed@, working: self.working@ }
    }
}

impl SessionEngine {
    /// A fresh session: committed and working both empty.
    pub fn new() -> (e: Self)
        ensures
            e@ == EngineModel::initial(),
            e@.wf(),
    {
        let e = SessionEngine { committed: RustProject::new(), working: RustProject::new() };
        e
    }

    /// The last known-good image.
    pub fn committed_image(&self) -> (r: &RustProject)
        ensures
            r@ == self@.committed,
    {
        &self.committed
    }

    /// The speculative image: committed plus the pending statement.
    pub fn working_image(&self) -> (r: &RustProject)
        ensures
            r@ == self@.working,
    {
        &self.working
    }

    /// Classify one raw input line, mutate the session as
    /// `submit_model` says, and return what to do next.
    pub fn submit_line(&mut self, line: &str) -> (a: LineAction)
        requires
            old(self)@.wf(),
        ensures
            final(self)@ == submit_model(old(self)@, line@),
            final(self)@.wf(),
            a@ == line_action_model(classify_model(line@)),
    {
        let c = classify(line);
        match c {
            LineClass::Empty => LineAction::Skip,
            LineClass::Exit => LineAction::Exit,
            LineClass::MissingTerminator => LineAction::Rejected {
                reason: RejectReason::MissingTerminator,
            },
            LineClass::MalformedImport => LineAction::Rejected {
                reason: RejectReason::MalformedImport,
            },
            LineClass::DisallowedDecl => LineAction::Rejected {
                reason: RejectReason::DisallowedDecl,
            },
            LineClass::StdImport { path } => {
                self.working.add_crate(path.as_str(), "default");
                LineAction::NeedCompile
            },
            LineClass::ExternalImport { path } => LineAction::AwaitVersion { path },
            LineClass::Binding { text } => {
                self.working.add_command(text.as_str());
                self.committed.merge(&self.working);
                LineAction::Committed
            },
            LineClass::Command { text } => {
                self.working.add_command(text.as_str());
                LineAction::NeedCompile
            },
        }
    }

    /// Record an external import under the version extracted from the
    /// prompt reply; an unparsable reply rejects the whole statement and
    /// changes nothing. `path` is the one a `LineAction::AwaitVersion`
    /// handed out.
    pub fn submit_version(&mut self, path: &str, reply: &str) -> (accepted: bool)
        requires
            old(self)@.wf(),
        ensures
            final(self)@ == version_step_model(old(self)@, path@, reply@),
            final(self)@.wf(),
            accepted == (extract_version_model(reply@) is Some),
    {
        match extract_version(reply) {
            Option::Some(v) => {
                self.working.add_crate(path, v.as_str());
                true
            },
            Option::None => false,
        }
    }

    /// The source text of the working image, for the compiler.
    pub fn render_working(&self) -> (code: String)
        ensures
            code@ == self@.working.render(),
    {
        self.working.generate_rust()
    }

    /// Apply the compiler's diagnostics: promote on a warning, roll
    /// back on an error, and on a clean compile leave the state to the
    /// run step.
    pub fn apply_compile_result(&mut self, stderr: &str) -> (d: CompileDecision)
        requires
            old(self)@.wf(),
        ensures
            final(self)@ == compile_step_model(old(self)@, stderr@),
            final(self)@.wf(),
            d == compile_decision_model(interpret_model(stderr@)),
    {
        let o = interpret_compiler_output(stderr);
        match o {
            CompileOutcome::Success => CompileDecision::Run,
            CompileOutcome::Warning { suppressed } => {
                self.committed.merge(&self.working);
                CompileDecision::Committed { print_warning: !suppressed }
            },
            CompileOutcome::Error => {
                self.working.merge(&self.committed);
                CompileDecision::RolledBack
            },
        }
    }

    /// Apply the run step after a clean compile: if the artifact was
    /// invoked, the statement is permanently accepted; if invoking it
    /// failed, neither image changes and the loop goes on.
    pub fn apply_run_result(&mut self, ran: bool)
        requires
            old(self)@.wf(),
        ensures
            ran ==> final(self)@ == (EngineModel {
                committed: old(self)@.working,
                working: old(self)@.working,
            }),
            !ran ==> final(self)@ == old(self)@,
            final(self)@.wf(),
    {
        if ran {
            self.committed.merge(&self.working);
        }
    }
}

/// One successful commit of a generic statement: the statement is
/// appended to the working image and the result is promoted to
/// committed. This is the net effect both of a fast-tracked binding and
/// of a compiled statement that was accepted.
pub open spec fn commit_step(e: EngineModel, stmt: Seq<char>) -> EngineModel {
    let w = e.working.with_command(stmt);
    EngineModel { committed: w, working: w }
}

/// A whole run of successful commits, first statement first.
pub open spec fn commit_statements(e: EngineModel, stmts: Seq<Seq<char>>) -> EngineModel
    decreases stmts.len(),
{
    if stmts.len() == 0 {
        e
    } else {
        commit_statements(commit_step(e, stmts[0]), stmts.drop_first())
    }
}

/// Law: after any run of successful commits, the committed image holds
/// exactly the prior statements followed by the accepted ones, in
/// order — no accepted statement is lost, duplicated or reordered — its
/// imports are untouched, and working and committed agree again.
pub proof fn lemma_accepted_statements_replay(e: EngineModel, stmts: Seq<Seq<char>>)
    requires
        e.working == e.committed,
    ensures
        commit_statements(e, stmts).committed.commands == e.committed.commands + stmts,
        commit_statements(e, stmts).committed.imports == e.committed.imports,
        commit_statements(e, stmts).working == commit_statements(e, stmts).committed,
    decreases stmts.len(),
{
    if stmts.len() == 0 {
        assert(e.committed.commands + stmts =~= e.committed.commands);
    } else {
        let e1 = commit_step(e, stmts[0]);
        let rest = stmts.drop_first();
        lemma_accepted_statements_replay(e1, rest);
        assert(e1.committed.commands + rest =~= e.committed.commands + stmts);
    }
}

/// Law: a session that starts empty and accepts a run of statements
/// commits an image that renders exactly as an image built by replaying
/// those statements in order would.
pub proof fn lemma_render_replay(stmts: Seq<Seq<char>>)
    ensures
        commit_statements(EngineModel::initial(), stmts).committed.render() == (ImageModel {
            imports: Seq::empty(),
            commands: stmts,
        }).render(),
{
    lemma_accepted_statements_replay(EngineModel::initial(), stmts);
    let c = commit_statements(EngineModel::initial(), stmts).committed;
    assert(c.commands =~= stmts);
    assert(c == (ImageModel { imports: Seq::<(Seq<char>, Seq<char>)>::empty(), commands: stmts }));
}

/// Law: a line that classification rejects — a missing terminator, a
/// malformed import, or a disallowed declaration — changes neither
/// image; in particular, when working and committed agreed before, they
/// agree after.
pub proof fn lemma_rejected_line_no_mutation(e: EngineModel, line: Seq<char>)
    requires
        classify_model(line) is MissingTerminator || classify_model(line) is MalformedImport
            || classify_model(line) is DisallowedDecl,
    ensures
        submit_model(e, line) == e,
{
}

/// Law: a version reply without a dotted numeric token rejects the
/// whole import statement: no partial import is recorded, nothing
/// changes.
pub proof fn lemma_bad_version_no_mutation(e: EngineModel, path: Seq<char>, reply: Seq<char>)
    requires
        extract_version_model(reply) is None,
    ensures
        version_step_model(e, path, reply) == e,
{
}

/// Law: a compile error never alters the committed image and leaves the
/// working image equal to it afterward — a full rollback of the
/// speculative statement.
pub proof fn lemma_compile_error_full_rollback(e: EngineModel, stderr: Seq<char>)
    requires
        interpret_model(stderr) is Error,
    ensures
        compile_step_model(e, stderr).committed == e.committed,
        compile_step_model(e, stderr).working == compile_step_model(e, stderr).committed,
{
}

} // verus!
