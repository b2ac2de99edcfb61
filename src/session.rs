//! One execution as a state machine. The session decides; its caller carries
//! out each action (write a file, run a process, remove a file) and reports
//! back with an event, until the session hands over its outcome.
use vstd::prelude::*;
use crate::language::{display_name, language_of, lower_of, lowercase, resolve_lowered, Language};
use crate::outcome::{unsupported, unsupported_result, ExecutionResult, FailureKind, Outcome, OutcomeView};
use crate::plan::{
    artifacts, fresh_id, is_uuid_text, make_plan, plan_of, BuildView, Command, CommandView, Plan,
    PlanView,
};
use crate::text::joined;

verus! {

/// What the caller reports after carrying out an action.
#[derive(Debug)]
pub enum Event {
    /// The source file was written.
    Written,
    /// The source file could not be written; the text says why.
    WriteFailed(String),
    /// The process ran to completion, with its captured streams.
    Exited { success: bool, stdout: String, stderr: String },
    /// The process could not be started; the text says why.
    LaunchFailed(String),
    /// The file was removed.
    Removed,
}

/// The mathematical value of an [`Event`].
pub enum EventView {
    Written,
    WriteFailed(Seq<char>),
    Exited { success: bool, stdout: Seq<char>, stderr: Seq<char> },
    LaunchFailed(Seq<char>),
    Removed,
}

impl View for Event {
    type V = EventView;

    open spec fn view(&self) -> EventView {
        match self {
            Event::Written => EventView::Written,
            Event::WriteFailed(e) => EventView::WriteFailed(e@),
            Event::Exited { success, stdout, stderr } => EventView::Exited {
                success: *success,
                stdout: stdout@,
                stderr: stderr@,
            },
            Event::LaunchFailed(e) => EventView::LaunchFailed(e@),
            Event::Removed => EventView::Removed,
        }
    }
}

/// What the session asks its caller to do next.
pub enum Action {
    /// Write `contents` to the file at `path`, creating it.
    Write { path: String, contents: String },
    /// Launch the command, wait for it, and capture both output streams.
    Run(Command),
    /// Remove the file at the path; failing to do so is not reported.
    Remove(String),
    /// The execution is over, with this outcome.
    Finish(Outcome),
}

/// The mathematical value of an [`Action`].
pub enum ActionView {
    Write { path: Seq<char>, contents: Seq<char> },
    Run(CommandView),
    Remove(Seq<char>),
    Finish(OutcomeView),
}

impl View for Action {
    type V = ActionView;

    open spec fn view(&self) -> ActionView {
        match self {
            Action::Write { path, contents } => ActionView::Write { path: path@, contents: contents@ },
            Action::Run(c) => ActionView::Run(c@),
            Action::Remove(p) => ActionView::Remove(p@),
            Action::Finish(o) => ActionView::Finish(o@),
        }
    }
}

/// Where a session stands.
pub enum Phase {
    Writing,
    Compiling,
    Running,
    RemovingSource { outcome: Outcome, artifact_too: bool },
    RemovingArtifact(Outcome),
    Done(Outcome),
}

/// The mathematical value of a session's phase.
pub enum PhaseView {
    /// Waiting for the source file to be written.
    Writing,
    /// Waiting for the compiler.
    Compiling,
    /// Waiting for the program or interpreter.
    Running,
    /// Cleaning up the source file, then the artifact if `artifact_too`.
    RemovingSource { outcome: OutcomeView, artifact_too: bool },
    /// Cleaning up the compiled artifact.
    RemovingArtifact(OutcomeView),
    /// Finished with this outcome.
    Done(OutcomeView),
}

impl View for Phase {
    type V = PhaseView;

    open spec fn view(&self) -> PhaseView {
        match self {
            Phase::Writing => PhaseView::Writing,
            Phase::Compiling => PhaseView::Compiling,
            Phase::Running => PhaseView::Running,
            Phase::RemovingSource { outcome, artifact_too } => PhaseView::RemovingSource {
                outcome: outcome@,
                artifact_too: *artifact_too,
            },
            Phase::RemovingArtifact(o) => PhaseView::RemovingArtifact(o@),
            Phase::Done(o) => PhaseView::Done(o@),
        }
    }
}

/// One execution of one program in one language.
pub struct Session {
    language: Language,
    id: String,
    plan: Plan,
    phase: Phase,
}

/// The mathematical value of a [`Session`].
pub struct SessionView {
    pub language: Language,
    pub id: Seq<char>,
    pub plan: PlanView,
    pub phase: PhaseView,
}

impl View for Session {
    type V = SessionView;

    closed spec fn view(&self) -> SessionView {
        SessionView {
            language: self.language,
            id: self.id@,
            plan: self.plan@,
            phase: self.phase@,
        }
    }
}

/// Only a compiled plan has a write, compile or cleanup phase.
pub open spec fn well_formed(s: SessionView) -> bool {
    s.plan.build is None ==> (s.phase is Running || s.phase is Done)
}

/// The session for running `code` in `l`, its artifacts named after `id`,
/// before anything has been done.
pub open spec fn initial_session(l: Language, code: Seq<char>, id: Seq<char>) -> SessionView {
    let plan = plan_of(l, code, id);
    SessionView {
        language: l,
        id,
        plan,
        phase: if plan.build is Some { PhaseView::Writing } else { PhaseView::Running },
    }
}

/// The action a session in state `s` asks for.
pub open spec fn pending(s: SessionView) -> ActionView {
    let b: BuildView = s.plan.build->0;
    match s.phase {
        PhaseView::Writing => ActionView::Write { path: b.source, contents: b.contents },
        PhaseView::Compiling => ActionView::Run(b.compile),
        PhaseView::Running => ActionView::Run(s.plan.run),
        PhaseView::RemovingSource { .. } => ActionView::Remove(b.source),
        PhaseView::RemovingArtifact(_) => ActionView::Remove(b.artifact),
        PhaseView::Done(o) => ActionView::Finish(o),
    }
}

/// The outcome of a process that ran to completion.
pub open spec fn exit_outcome(success: bool, stdout: Seq<char>, stderr: Seq<char>) -> OutcomeView {
    if success {
        OutcomeView::Success(stdout)
    } else {
        OutcomeView::Failure(FailureKind::RuntimeFailure, stderr)
    }
}

/// The diagnostic for a source file of `l` that could not be written.
pub open spec fn write_failure(l: Language, e: Seq<char>) -> Seq<char> {
    "Failed to write "@ + display_name(l) + " file: "@ + e
}

/// The diagnostic for a compiler of `l` that could not be started.
pub open spec fn compile_launch_failure(l: Language, e: Seq<char>) -> Seq<char> {
    "Failed to compile "@ + display_name(l) + ": "@ + e
}

/// The diagnostic for a program or interpreter of `l` that could not be started.
pub open spec fn run_launch_failure(l: Language, e: Seq<char>) -> Seq<char> {
    "Failed to execute "@ + display_name(l) + ": "@ + e
}

/// After the run: clean up when there are artifacts, else finish.
pub open spec fn after_run(s: SessionView, o: OutcomeView) -> PhaseView {
    if s.plan.build is Some {
        PhaseView::RemovingSource { outcome: o, artifact_too: true }
    } else {
        PhaseView::Done(o)
    }
}

/// The phase that follows `s` on event `ev`. An event that does not answer
/// the pending action leaves the phase as it was.
pub open spec fn next_phase(s: SessionView, ev: EventView) -> PhaseView {
    match s.phase {
        PhaseView::Writing => match ev {
            EventView::Written => PhaseView::Compiling,
            EventView::WriteFailed(e) => PhaseView::Done(
                OutcomeView::Failure(FailureKind::LaunchFailure, write_failure(s.language, e)),
            ),
            _ => s.phase,
        },
        PhaseView::Compiling => match ev {
            EventView::Exited { success, stdout, stderr } => if success {
                PhaseView::Running
            } else {
                PhaseView::RemovingSource {
                    outcome: OutcomeView::Failure(FailureKind::CompileFailure, stderr),
                    artifact_too: false,
                }
            },
            EventView::LaunchFailed(e) => PhaseView::RemovingSource {
                outcome: OutcomeView::Failure(
                    FailureKind::LaunchFailure,
                    compile_launch_failure(s.language, e),
                ),
                artifact_too: false,
            },
            _ => s.phase,
        },
        PhaseView::Running => match ev {
            EventView::Exited { success, stdout, stderr } => after_run(
                s,
                exit_outcome(success, stdout, stderr),
            ),
            EventView::LaunchFailed(e) => after_run(
                s,
                OutcomeView::Failure(FailureKind::LaunchFailure, run_launch_failure(s.language, e)),
            ),
            _ => s.phase,
        },
        PhaseView::RemovingSource { outcome, artifact_too } => match ev {
            EventView::Removed => if artifact_too {
                PhaseView::RemovingArtifact(outcome)
            } else {
                PhaseView::Done(outcome)
            },
            _ => s.phase,
        },
        PhaseView::RemovingArtifact(outcome) => match ev {
            EventView::Removed => PhaseView::Done(outcome),
            _ => s.phase,
        },
        PhaseView::Done(_) => s.phase,
    }
}

/// The session after event `ev`.
pub open spec fn advance(s: SessionView, ev: EventView) -> SessionView {
    SessionView { phase: next_phase(s, ev), ..s }
}

fn diagnostic(head: &str, name: &str, middle: &str, e: &str) -> (r: String)
    ensures
        r@ == head@ + name@ + middle@ + e@,
{
    let a = joined(head, name);
    let b = joined(a.as_str(), middle);
    joined(b.as_str(), e)
}

fn exited(success: bool, stdout: String, stderr: String) -> (r: Outcome)
    ensures
        r@ == exit_outcome(success, stdout@, stderr@),
{
    if success {
        Outcome::Success(stdout)
    } else {
        Outcome::Failure(FailureKind::RuntimeFailure, stderr)
    }
}

impl Session {
    /// Whether the session is in a state its methods keep: see [`well_formed`].
    pub open spec fn wf(&self) -> bool {
        well_formed(self@)
    }

    /// A session that runs `code` in `language`, its artifacts named after `id`.
    pub fn new(language: Language, code: &str, id: &str) -> (r: Session)
        ensures
            r@ == initial_session(language, code@, id@),
            r.wf(),
    {
        let plan = make_plan(language, code, id);
        let phase = if plan.build.is_some() {
            Phase::Writing
        } else {
            Phase::Running
        };
        Session { language, id: id.to_owned(), plan, phase }
    }

    /// The language this session runs.
    pub fn language(&self) -> (r: Language)
        ensures
            r == self@.language,
    {
        self.language
    }

    /// The identifier that names this session's artifacts.
    pub fn id(&self) -> (r: &str)
        ensures
            r@ == self@.id,
    {
        self.id.as_str()
    }

    /// Whether the session has finished.
    pub fn is_done(&self) -> (r: bool)
        ensures
            r == self@.phase is Done,
    {
        match self.phase {
            Phase::Done(_) => true,
            _ => false,
        }
    }

    /// The action the session waits on.
    pub fn action(&self) -> (r: Action)
        requires
            self.wf(),
        ensures
            r@ == pending(self@),
    {
        match &self.phase {
            Phase::Writing => {
                let b = self.plan.build.as_ref().unwrap();
                Action::Write { path: b.source.clone(), contents: b.contents.clone() }
            },
            Phase::Compiling => {
                let b = self.plan.build.as_ref().unwrap();
                Action::Run(b.compile.duplicate())
            },
            Phase::Running => Action::Run(self.plan.run.duplicate()),
            Phase::RemovingSource { .. } => {
                let b = self.plan.build.as_ref().unwrap();
                Action::Remove(b.source.clone())
            },
            Phase::RemovingArtifact(_) => {
                let b = self.plan.build.as_ref().unwrap();
                Action::Remove(b.artifact.clone())
            },
            Phase::Done(o) => Action::Finish(o.duplicate()),
        }
    }

    fn run_finished(&self, o: Outcome) -> (r: Phase)
        ensures
            r@ == after_run(self@, o@),
    {
        if self.plan.build.is_some() {
            Phase::RemovingSource { outcome: o, artifact_too: true }
        } else {
            Phase::Done(o)
        }
    }

    /// Takes in what the caller reports, and returns the next action.
    pub fn step(&mut self, ev: Event) -> (r: Action)
        requires
            old(self).wf(),
        ensures
            final(self)@ == advance(old(self)@, ev@),
            final(self).wf(),
            r@ == pending(final(self)@),
    {
        let name = self.language.name();
        let next: Option<Phase> = match &self.phase {
            Phase::Writing => match ev {
                Event::Written => Some(Phase::Compiling),
                Event::WriteFailed(e) => Some(
                    Phase::Done(
                        Outcome::Failure(
                            FailureKind::LaunchFailure,
                            diagnostic("Failed to write ", name, " file: ", e.as_str()),
                        ),
                    ),
                ),
                _ => None,
            },
            Phase::Compiling => match ev {
                Event::Exited { success, stdout, stderr } => if success {
                    Some(Phase::Running)
                } else {
                    Some(
                        Phase::RemovingSource {
                            outcome: Outcome::Failure(FailureKind::CompileFailure, stderr),
                            artifact_too: false,
                        },
                    )
                },
                Event::LaunchFailed(e) => Some(
                    Phase::RemovingSource {
                        outcome: Outcome::Failure(
                            FailureKind::LaunchFailure,
                            diagnostic("Failed to compile ", name, ": ", e.as_str()),
                        ),
                        artifact_too: false,
                    },
                ),
                _ => None,
            },
            Phase::Running => match ev {
                Event::Exited { success, stdout, stderr } => Some(
                    self.run_finished(exited(success, stdout, stderr)),
                ),
                Event::LaunchFailed(e) => Some(
                    self.run_finished(
                        Outcome::Failure(
                            FailureKind::LaunchFailure,
                            diagnostic("Failed to execute ", name, ": ", e.as_str()),
                        ),
                    ),
                ),
                _ => None,
            },
            Phase::RemovingSource { outcome, artifact_too } => match ev {
                Event::Removed => if *artifact_too {
                    Some(Phase::RemovingArtifact(outcome.duplicate()))
                } else {
                    Some(Phase::Done(outcome.duplicate()))
                },
                _ => None,
            },
            Phase::RemovingArtifact(outcome) => match ev {
                Event::Removed => Some(Phase::Done(outcome.duplicate())),
                _ => None,
            },
            Phase::Done(_) => None,
        };
        match next {
            Some(p) => {
                self.phase = p;
            },
            None => {},
        }
        self.action()
    }
}

/// How a call of the engine begins: rejected outright, or as a session.
pub enum Start {
    Rejected(ExecutionResult),
    Accepted(Session),
}

/// Begins a call once the identifier has been lowercased: `lowered` is the
/// lowercase form of `language`.
pub fn start_lowered(lowered: &str, language: &str, code: &str, id: &str) -> (r: Start)
    ensures
        match language_of(lowered@) {
            None => r matches Start::Rejected(res) && res@ == unsupported_result(language@),
            Some(l) => r matches Start::Accepted(s) && s@ == initial_session(l, code@, id@) && s.wf(),
        },
{
    match resolve_lowered(lowered) {
        None => Start::Rejected(unsupported(language)),
        Some(l) => Start::Accepted(Session::new(l, code, id)),
    }
}

/// Begins a call of the engine, the identifier compared without regard to
/// case, with artifacts named after `id`.
pub fn start_with_id(language: &str, code: &str, id: &str) -> (r: Start)
    ensures
        match language_of(lower_of(language@)) {
            None => r matches Start::Rejected(res) && res@ == unsupported_result(language@),
            Some(l) => r matches Start::Accepted(s) && s@ == initial_session(l, code@, id@) && s.wf(),
        },
{
    let lowered = lowercase(language);
    start_lowered(lowered.as_str(), language, code, id)
}

/// Begins a call of the engine, the identifier compared without regard to
/// case. An accepted call gets a fresh random identifier for its artifacts;
/// a rejected one never reaches a session, so nothing is ever launched for it.
pub fn start(language: &str, code: &str) -> (r: Start)
    ensures
        match language_of(lower_of(language@)) {
            None => r matches Start::Rejected(res) && res@ == unsupported_result(language@),
            Some(l) => r matches Start::Accepted(s) && is_uuid_text(s@.id) && s@ == initial_session(
                l,
                code@,
                s@.id,
            ) && s.wf(),
        },
{
    let lowered = lowercase(language);
    match resolve_lowered(lowered.as_str()) {
        None => Start::Rejected(unsupported(language)),
        Some(l) => {
            let id = fresh_id();
            Start::Accepted(Session::new(l, code, id.as_str()))
        },
    }
}

/// The files present after the caller answers the pending action of `s` with
/// `ev`, starting from `files`: a reported write creates the file, a
/// compiler that exits successfully creates the artifact, a reported removal
/// deletes the file, and nothing else touches the session's files.
pub open spec fn files_after(s: SessionView, files: Set<Seq<char>>, ev: EventView) -> Set<Seq<char>> {
    match pending(s) {
        ActionView::Write { path, .. } => if ev is Written {
            files.insert(path)
        } else {
            files
        },
        ActionView::Run(c) => if s.plan.build is Some && c == s.plan.build->0.compile && (
        ev matches EventView::Exited { success, .. } && success) {
            files.insert(s.plan.build->0.artifact)
        } else {
            files
        },
        ActionView::Remove(p) => if ev is Removed {
            files.remove(p)
        } else {
            files
        },
        ActionView::Finish(_) => files,
    }
}

/// The session and the files after the caller reports `evs`, one by one.
pub open spec fn replay(s: SessionView, files: Set<Seq<char>>, evs: Seq<EventView>) -> (
    SessionView,
    Set<Seq<char>>,
)
    decreases evs.len(),
{
    if evs.len() == 0 {
        (s, files)
    } else {
        replay(advance(s, evs[0]), files_after(s, files, evs[0]), evs.subrange(1, evs.len() as int))
    }
}

/// The artifacts a session in state `s` may have created and not yet removed.
pub open spec fn outstanding(s: SessionView) -> Set<Seq<char>> {
    let b = s.plan.build->0;
    match s.phase {
        PhaseView::Writing => Set::empty(),
        PhaseView::Compiling => set![b.source],
        PhaseView::Running => if s.plan.build is Some {
            set![b.source, b.artifact]
        } else {
            Set::empty()
        },
        PhaseView::RemovingSource { artifact_too, .. } => if artifact_too {
            set![b.source, b.artifact]
        } else {
            set![b.source]
        },
        PhaseView::RemovingArtifact(_) => set![b.artifact],
        PhaseView::Done(_) => Set::empty(),
    }
}

proof fn lemma_step_outstanding(s: SessionView, files: Set<Seq<char>>, ev: EventView)
    requires
        well_formed(s),
        files.intersect(artifacts(s.plan)).subset_of(outstanding(s)),
    ensures
        well_formed(advance(s, ev)),
        advance(s, ev).plan == s.plan,
        files_after(s, files, ev).intersect(artifacts(s.plan)).subset_of(
            outstanding(advance(s, ev)),
        ),
{
    let after = files_after(s, files, ev);
    let next = advance(s, ev);
    assert forall|a: Seq<char>| after.intersect(artifacts(s.plan)).contains(a) implies outstanding(
        next,
    ).contains(a) by {
        if files.contains(a) {
            assert(files.intersect(artifacts(s.plan)).contains(a));
        }
    }
}

proof fn lemma_replay_outstanding(s: SessionView, files: Set<Seq<char>>, evs: Seq<EventView>)
    requires
        well_formed(s),
        files.intersect(artifacts(s.plan)).subset_of(outstanding(s)),
    ensures
        replay(s, files, evs).0.plan == s.plan,
        replay(s, files, evs).1.intersect(artifacts(s.plan)).subset_of(
            outstanding(replay(s, files, evs).0),
        ),
    decreases evs.len(),
{
    if evs.len() > 0 {
        lemma_step_outstanding(s, files, evs[0]);
        lemma_replay_outstanding(
            advance(s, evs[0]),
            files_after(s, files, evs[0]),
            evs.subrange(1, evs.len() as int),
        );
    }
}

/// Whatever the caller reports, once a session has finished none of its
/// temporary files is left: the source file and the compiled artifact are
/// removed on success, on compile failure, on run failure and on every
/// launch failure alike.
pub proof fn lemma_no_leftover_artifacts(
    l: Language,
    code: Seq<char>,
    id: Seq<char>,
    files: Set<Seq<char>>,
    evs: Seq<EventView>,
)
    requires
        files.disjoint(artifacts(plan_of(l, code, id))),
    ensures
        ({
            let (s, after) = replay(initial_session(l, code, id), files, evs);
            s.phase is Done ==> after.disjoint(artifacts(plan_of(l, code, id)))
        }),
{
    let s0 = initial_session(l, code, id);
    assert(files.intersect(artifacts(s0.plan)) =~= Set::empty());
    lemma_replay_outstanding(s0, files, evs);
    let (s, after) = replay(s0, files, evs);
    if s.phase is Done {
        assert(after.intersect(artifacts(s0.plan)) =~= Set::empty());
        assert forall|a: Seq<char>| after.contains(a) implies !artifacts(s0.plan).contains(a) by {
            if artifacts(s0.plan).contains(a) {
                assert(after.intersect(artifacts(s0.plan)).contains(a));
            }
        }
    }
}

/// Whether `ev` is a report on carrying out action `a`.
pub open spec fn answers(a: ActionView, ev: EventView) -> bool {
    match a {
        ActionView::Write { .. } => ev is Written || ev is WriteFailed,
        ActionView::Run(_) => ev is Exited || ev is LaunchFailed,
        ActionView::Remove(_) => ev is Removed,
        ActionView::Finish(_) => true,
    }
}

/// Whether each of `evs`, in turn, reports on the action pending at that point.
pub open spec fn all_answer(s: SessionView, evs: Seq<EventView>) -> bool
    decreases evs.len(),
{
    evs.len() == 0 || (answers(pending(s), evs[0]) && all_answer(
        advance(s, evs[0]),
        evs.subrange(1, evs.len() as int),
    ))
}

/// An upper bound on the reports a session still needs before it finishes.
pub open spec fn steps_left(s: SessionView) -> nat {
    match s.phase {
        PhaseView::Writing => 5,
        PhaseView::Compiling => 4,
        PhaseView::Running => 3,
        PhaseView::RemovingSource { artifact_too, .. } => if artifact_too {
            2
        } else {
            1
        },
        PhaseView::RemovingArtifact(_) => 1,
        PhaseView::Done(_) => 0,
    }
}

proof fn lemma_answered_steps_left(s: SessionView, evs: Seq<EventView>)
    requires
        well_formed(s),
        all_answer(s, evs),
        evs.len() >= steps_left(s),
    ensures
        replay(s, Set::empty(), evs).0.phase is Done,
    decreases evs.len(),
{
    if evs.len() > 0 {
        let next = advance(s, evs[0]);
        assert(well_formed(next));
        assert(s.phase is Done || steps_left(next) < steps_left(s));
        lemma_answered_steps_left(next, evs.subrange(1, evs.len() as int));
        let f = files_after(s, Set::empty(), evs[0]);
        lemma_replay_phase_ignores_files(next, Set::empty(), f, evs.subrange(1, evs.len() as int));
    }
}

proof fn lemma_replay_phase_ignores_files(
    s: SessionView,
    f1: Set<Seq<char>>,
    f2: Set<Seq<char>>,
    evs: Seq<EventView>,
)
    ensures
        replay(s, f1, evs).0 == replay(s, f2, evs).0,
    decreases evs.len(),
{
    if evs.len() > 0 {
        lemma_replay_phase_ignores_files(
            advance(s, evs[0]),
            files_after(s, f1, evs[0]),
            files_after(s, f2, evs[0]),
            evs.subrange(1, evs.len() as int),
        );
    }
}

/// A session whose every action is carried out and reported on has its
/// outcome after at most five reports, whatever the reports say: the write,
/// the compiler, the program and the two removals.
pub proof fn lemma_answered_session_finishes(
    l: Language,
    code: Seq<char>,
    id: Seq<char>,
    files: Set<Seq<char>>,
    evs: Seq<EventView>,
)
    requires
        all_answer(initial_session(l, code, id), evs),
        evs.len() >= 5,
    ensures
        replay(initial_session(l, code, id), files, evs).0.phase is Done,
{
    let s0 = initial_session(l, code, id);
    lemma_answered_steps_left(s0, evs);
    lemma_replay_phase_ignores_files(s0, Set::empty(), files, evs);
}

} // verus!
