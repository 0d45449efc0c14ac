//! The dispatch orchestrator: create a project directory and scaffold each
//! requested component in order, collecting per-component outcomes without
//! letting one component's failure stop its siblings.
//!
//! Like the component machine, the orchestrator is event-driven: a driver
//! performs each [`Action`] and answers through [`run_step`].  Re-invoking
//! creation against an existing project directory is a no-op that reports
//! existence; only a failure to create the project directory itself aborts
//! the whole run.

use vstd::prelude::*;
use vstd::string::StringExecFns;

use crate::classify::{classify, is_self_managed, spec_classify, spec_self_managed};
use crate::fsops::{Action, ActionModel, Event, EventModel};
use crate::scaffold::{
    comp_step, plan_of, scaffold_component, spec_comp_init, spec_comp_start, spec_comp_step,
    to_next, CompMachine, CompModel, CompOutcome, CompFailure, CompState, CompStep,
};
use crate::text::{str_trim, trimmed};

verus! {

/// The normalized base path: the trimmed path, or the current directory
/// when nothing is left.
pub open spec fn base_of(path: Seq<char>) -> Seq<char> {
    if trimmed(path).len() == 0 {
        "."@
    } else {
        trimmed(path)
    }
}

/// Normalize the base path (executable).
pub fn normalize_base(path: &str) -> (r: String)
    ensures
        r@ == base_of(path@),
{
    let t = str_trim(path);
    if t.as_str().unicode_len() == 0 {
        String::from_str(".")
    } else {
        t
    }
}

/// One requested component: a directory name and a technology string.
pub struct Component {
    pub name: String,
    pub tech: String,
}

/// Model of a [`Component`].
#[verifier::ext_equal]
pub ghost struct ComponentModel {
    pub name: Seq<char>,
    pub tech: Seq<char>,
}

impl View for Component {
    type V = ComponentModel;

    open spec fn view(&self) -> ComponentModel {
        ComponentModel { name: self.name@, tech: self.tech@ }
    }
}

impl DeepView for Component {
    type V = ComponentModel;

    open spec fn deep_view(&self) -> ComponentModel {
        self.view()
    }
}

/// A project to create: a name, a base path (empty means the current
/// directory) and the components to scaffold, in order.
pub struct Project {
    pub name: String,
    pub path: String,
    pub components: Vec<Component>,
}

/// Model of a [`Project`].
#[verifier::ext_equal]
pub ghost struct ProjectModel {
    pub name: Seq<char>,
    pub path: Seq<char>,
    pub components: Seq<ComponentModel>,
}

impl View for Project {
    type V = ProjectModel;

    open spec fn view(&self) -> ProjectModel {
        ProjectModel {
            name: self.name@,
            path: self.path@,
            components: self.components.deep_view(),
        }
    }
}

/// The inputs the boundary validates before the engine runs: no empty
/// project name, component name or technology string.
pub open spec fn valid_project(p: ProjectModel) -> bool {
    &&& p.name.len() > 0
    &&& forall|i: int|
        0 <= i < p.components.len() ==> (#[trigger] p.components[i]).name.len() > 0
            && p.components[i].tech.len() > 0
}

/// What happened to one component.
#[derive(Debug)]
pub struct ComponentReport {
    pub name: String,
    pub tech: String,
    pub outcome: CompOutcome,
}

/// Model of a [`ComponentReport`].
#[verifier::ext_equal]
pub ghost struct ReportModel {
    pub name: Seq<char>,
    pub tech: Seq<char>,
    pub outcome: CompOutcome,
}

impl View for ComponentReport {
    type V = ReportModel;

    open spec fn view(&self) -> ReportModel {
        ReportModel { name: self.name@, tech: self.tech@, outcome: self.outcome }
    }
}

impl DeepView for ComponentReport {
    type V = ReportModel;

    open spec fn deep_view(&self) -> ReportModel {
        self.view()
    }
}

/// How the whole creation run ended.
#[derive(Debug)]
pub struct RunReport {
    /// The project directory already existed: nothing was done.
    pub already_existed: bool,
    /// The project directory could not be created: the run aborted before
    /// any component.
    pub root_failed: bool,
    /// One report per processed component, in input order.
    pub reports: Vec<ComponentReport>,
}

/// Model of a [`RunReport`].
#[verifier::ext_equal]
pub ghost struct RunReportModel {
    pub already_existed: bool,
    pub root_failed: bool,
    pub reports: Seq<ReportModel>,
}

impl View for RunReport {
    type V = RunReportModel;

    open spec fn view(&self) -> RunReportModel {
        RunReportModel {
            already_existed: self.already_existed,
            root_failed: self.root_failed,
            reports: self.reports.deep_view(),
        }
    }
}

/// Where the orchestrator stands.
#[derive(Clone, Copy, Debug, PartialEq, Eq, Structural)]
pub enum RunPhase {
    /// Asking whether the project directory already exists.
    CheckingRoot,
    /// Creating the project directory.
    CreatingRoot,
    /// Creating the current component's plain directory up front.
    EagerCreating,
    /// The current component's machine is running.
    Scaffolding,
    /// The run is over.
    Finished,
}

/// A step's result: the next action, or the final report.
#[derive(Debug)]
pub enum RunStep {
    Next(Action),
    Done(RunReport),
}

/// Model of a [`RunStep`].
#[verifier::ext_equal]
pub ghost enum RunStepModel {
    Next(ActionModel),
    Done(RunReportModel),
}

impl View for RunStep {
    type V = RunStepModel;

    open spec fn view(&self) -> RunStepModel {
        match self {
            RunStep::Next(a) => RunStepModel::Next(a@),
            RunStep::Done(r) => RunStepModel::Done(r@),
        }
    }
}

/// The orchestrator's state over one creation run.
pub struct CreateRun {
    /// The project being created.
    pub project: Project,
    /// The normalized base path (the trimmed path, or `.` when empty).
    pub base: String,
    /// The next component to process.
    pub idx: usize,
    /// The running component machine, while scaffolding.
    pub comp: Option<CompMachine>,
    /// One report per completed component.
    pub reports: Vec<ComponentReport>,
    /// The orchestrator's position.
    pub phase: RunPhase,
    /// Every action issued so far, the component machines' included.
    pub log: Ghost<Seq<ActionModel>>,
    /// The directories the answers so far assert to exist.
    pub known: Ghost<Set<Seq<Seq<char>>>>,
}

/// Model of a [`CreateRun`].
#[verifier::ext_equal]
pub ghost struct RunModel {
    pub project: ProjectModel,
    pub base: Seq<char>,
    pub idx: usize,
    pub comp: Option<CompModel>,
    pub reports: Seq<ReportModel>,
    pub phase: RunPhase,
    pub log: Seq<ActionModel>,
    pub known: Set<Seq<Seq<char>>>,
}

impl View for CreateRun {
    type V = RunModel;

    open spec fn view(&self) -> RunModel {
        RunModel {
            project: self.project@,
            base: self.base@,
            idx: self.idx,
            comp: match &self.comp {
                Some(m) => Some(m@),
                None => None,
            },
            reports: self.reports.deep_view(),
            phase: self.phase,
            log: self.log@,
            known: self.known@,
        }
    }
}

impl RunModel {
    /// The project directory: the normalized base plus the project's name.
    pub open spec fn project_dir(self) -> Seq<Seq<char>> {
        seq![self.base, self.project.name]
    }

    /// The directory of component `i`.
    pub open spec fn comp_dir_at(self, i: int) -> Seq<Seq<char>> {
        self.project_dir().push(self.project.components[i].name)
    }

    /// The component currently being processed.
    pub open spec fn current(self) -> ComponentModel {
        self.project.components[self.idx as int]
    }

    /// The phase-independent part of the invariant.
    pub open spec fn core_inv(self) -> bool {
        &&& valid_project(self.project)
        &&& self.base == base_of(self.project.path)
        &&& self.base.len() > 0
        &&& self.project.components.len() <= usize::MAX
        &&& self.idx as int <= self.project.components.len()
        &&& self.reports.len() <= self.project.components.len()
        &&& forall|i: int|
            0 <= i < self.reports.len() ==> {
                &&& (#[trigger] self.reports[i]).name == self.project.components[i].name
                &&& self.reports[i].tech == self.project.components[i].tech
                &&& (self.reports[i].outcome is Scaffolded || self.reports[i].outcome
                    is NoScaffold) ==> self.known.contains(self.comp_dir_at(i))
            }
    }

    /// The orchestrator's well-formedness invariant.
    pub open spec fn inv(self) -> bool {
        &&& self.core_inv()
        &&& match self.phase {
            RunPhase::CheckingRoot => {
                &&& self.idx == 0
                &&& self.reports.len() == 0
                &&& self.comp is None
            },
            RunPhase::CreatingRoot => {
                &&& self.idx == 0
                &&& self.reports.len() == 0
                &&& self.comp is None
            },
            RunPhase::EagerCreating => {
                &&& (self.idx as int) < self.project.components.len()
                &&& self.reports.len() == self.idx as int
                &&& self.comp is None
                &&& !spec_self_managed(spec_classify(self.current().tech))
            },
            RunPhase::Scaffolding => {
                &&& (self.idx as int) < self.project.components.len()
                &&& self.reports.len() == self.idx as int
                &&& match self.comp {
                    Some(m) => {
                        &&& m.inv()
                        &&& !m.finished()
                        &&& m.project_dir == self.project_dir()
                        &&& m.comp_name == self.current().name
                        &&& m.tech == self.current().tech
                    },
                    None => false,
                }
            },
            RunPhase::Finished => self.comp is None,
        }
    }

    /// Which kind of event the orchestrator's pending action is answered by.
    pub open spec fn expects(self, ev: EventModel) -> bool {
        match self.phase {
            RunPhase::CheckingRoot => ev is DirExists,
            RunPhase::CreatingRoot => ev is Completed,
            RunPhase::EagerCreating => ev is Completed,
            RunPhase::Scaffolding => self.comp.arrow_Some_0().expects(ev),
            RunPhase::Finished => false,
        }
    }

    /// Is the run over?
    pub open spec fn finished(self) -> bool {
        self.phase is Finished
    }
}

/// Starting a run: normalize the base path and ask whether the project
/// directory already exists.
pub open spec fn spec_create_project(p: ProjectModel) -> (RunModel, RunStepModel) {
    let base = base_of(p.path);
    let run = RunModel {
        project: p,
        base,
        idx: 0,
        comp: None,
        reports: Seq::empty(),
        phase: RunPhase::CheckingRoot,
        log: Seq::empty(),
        known: Set::empty(),
    };
    let a = ActionModel::CheckDirExists { path: run.project_dir() };
    (RunModel { log: seq![a], ..run }, RunStepModel::Next(a))
}

/// Turn to the next component: create its directory up front unless its
/// strategy manages the directory itself, in which case its machine starts
/// at once; past the last component the run finishes.
pub open spec fn spec_begin(run: RunModel) -> (RunModel, RunStepModel) {
    if run.idx as int >= run.project.components.len() {
        let report = RunReportModel {
            already_existed: false,
            root_failed: false,
            reports: run.reports,
        };
        (
            RunModel { reports: Seq::empty(), phase: RunPhase::Finished, comp: None, ..run },
            RunStepModel::Done(report),
        )
    } else {
        let comp = run.current();
        let c = spec_classify(comp.tech);
        if spec_self_managed(c) {
            let started = to_next(
                spec_comp_init(run.project_dir(), comp.name, comp.tech, plan_of(c)),
                CompState::Probing { idx: 0 },
            );
            let a = started.0.log.last();
            (
                RunModel {
                    comp: Some(started.0),
                    phase: RunPhase::Scaffolding,
                    log: run.log + seq![a],
                    ..run
                },
                RunStepModel::Next(a),
            )
        } else {
            let a = ActionModel::CreateDirAll { path: run.comp_dir_at(run.idx as int) };
            (
                RunModel {
                    phase: RunPhase::EagerCreating,
                    comp: None,
                    log: run.log + seq![a],
                    ..run
                },
                RunStepModel::Next(a),
            )
        }
    }
}

/// Record the current component's outcome and move on.
pub open spec fn spec_record(run: RunModel, outcome: CompOutcome) -> RunModel {
    let comp = run.current();
    RunModel {
        reports: run.reports.push(
            ReportModel { name: comp.name, tech: comp.tech, outcome },
        ),
        idx: (run.idx + 1) as usize,
        comp: None,
        ..run
    }
}

/// One step of the orchestrator: the model transition.
pub open spec fn spec_run_step(run: RunModel, ev: EventModel) -> (RunModel, RunStepModel) {
    match (run.phase, ev) {
        (RunPhase::CheckingRoot, EventModel::DirExists(ex)) => {
            if ex {
                let report = RunReportModel {
                    already_existed: true,
                    root_failed: false,
                    reports: Seq::empty(),
                };
                (
                    RunModel { phase: RunPhase::Finished, ..run },
                    RunStepModel::Done(report),
                )
            } else {
                let a = ActionModel::CreateDir { path: run.project_dir() };
                (
                    RunModel { phase: RunPhase::CreatingRoot, log: run.log + seq![a], ..run },
                    RunStepModel::Next(a),
                )
            }
        },
        (RunPhase::CreatingRoot, EventModel::Completed(ok)) => {
            if ok {
                spec_begin(RunModel { known: run.known.insert(run.project_dir()), ..run })
            } else {
                let report = RunReportModel {
                    already_existed: false,
                    root_failed: true,
                    reports: Seq::empty(),
                };
                (
                    RunModel { phase: RunPhase::Finished, ..run },
                    RunStepModel::Done(report),
                )
            }
        },
        (RunPhase::EagerCreating, EventModel::Completed(ok)) => {
            if ok {
                let run1 = RunModel {
                    known: run.known.insert(run.comp_dir_at(run.idx as int)),
                    ..run
                };
                let comp = run1.current();
                let started = spec_comp_start(
                    run1.project_dir(),
                    comp.name,
                    comp.tech,
                    plan_of(spec_classify(comp.tech)),
                );
                match started.1 {
                    crate::scaffold::CompStepModel::Next(a) => (
                        RunModel {
                            comp: Some(started.0),
                            phase: RunPhase::Scaffolding,
                            log: run1.log + seq![a],
                            ..run1
                        },
                        RunStepModel::Next(a),
                    ),
                    crate::scaffold::CompStepModel::Done(o) => spec_begin(spec_record(run1, o)),
                }
            } else {
                spec_begin(
                    spec_record(run, CompOutcome::Failed(CompFailure::DirCreateFailed)),
                )
            }
        },
        (RunPhase::Scaffolding, ev) => {
            let m = run.comp.arrow_Some_0();
            let stepped = spec_comp_step(m, ev);
            match stepped.1 {
                crate::scaffold::CompStepModel::Next(a) => (
                    RunModel { comp: Some(stepped.0), log: run.log + seq![a], ..run },
                    RunStepModel::Next(a),
                ),
                crate::scaffold::CompStepModel::Done(o) => spec_begin(
                    spec_record(
                        RunModel {
                            known: run.known.union(stepped.0.known),
                            comp: None,
                            ..run
                        },
                        o,
                    ),
                ),
            }
        },
        // unreachable under `expects`; any value completes the match
        _ => (run, RunStepModel::Done(
            RunReportModel { already_existed: false, root_failed: true, reports: Seq::empty() },
        )),
    }
}

fn clone_string(s: &String) -> (r: String)
    ensures
        r@ == s@,
{
    s.clone()
}

fn project_dir_path(run: &CreateRun) -> (r: Vec<String>)
    ensures
        r.deep_view() == run@.project_dir(),
{
    let mut r: Vec<String> = Vec::new();
    r.push(clone_string(&run.base));
    r.push(clone_string(&run.project.name));
    proof {
        assert(r.deep_view() =~= run@.project_dir());
    }
    r
}

fn comp_dir_path_at(run: &CreateRun, i: usize) -> (r: Vec<String>)
    requires
        (i as int) < run@.project.components.len(),
    ensures
        r.deep_view() == run@.comp_dir_at(i as int),
{
    let mut r = project_dir_path(run);
    r.push(clone_string(&run.project.components[i].name));
    proof {
        assert(r.deep_view() =~= run@.comp_dir_at(i as int));
    }
    r
}

/// Start creating a project.  The first action asks whether the project
/// directory already exists; if the driver answers that it does, the run
/// finishes at once, reporting existence and mutating nothing.
pub fn create_project(project: Project) -> (r: (CreateRun, RunStep))
    requires
        valid_project(project@),
    ensures
        (r.0@, r.1@) == spec_create_project(project@),
        r.0@.inv(),
{
    let ghost p = project@;
    let base = normalize_base(project.path.as_str());
    proof {
        if trimmed(p.path).len() == 0 {
            reveal_strlit(".");
        }
    }
    let mut run = CreateRun {
        project,
        base,
        idx: 0,
        comp: None,
        reports: Vec::new(),
        phase: RunPhase::CheckingRoot,
        log: Ghost(Seq::empty()),
        known: Ghost(Set::empty()),
    };
    let ncomp = run.project.components.len();
    proof {
        assert(run@.project.components.len() == ncomp as nat);
    }
    let path = project_dir_path(&run);
    let a = Action::CheckDirExists { path };
    run.log = Ghost(Seq::empty().push(a@));
    proof {
        assert(run.log@ =~= seq![a@]);
    }
    proof {
        assert(run@ =~= spec_create_project(p).0);
    }
    (run, RunStep::Next(a))
}

fn record(run: CreateRun, outcome: CompOutcome) -> (r: CreateRun)
    requires
        (run@.idx as int) < run@.project.components.len(),
    ensures
        r@ == spec_record(run@, outcome),
        r@.idx == run@.idx + 1,
        r@.reports.len() == run@.reports.len() + 1,
{
    let mut n = run;
    let len = n.project.components.len();
    proof {
        assert(n@.project.components.len() == n.project.components@.len());
        assert(n.idx < len);
    }
    let name = clone_string(&n.project.components[n.idx].name);
    let tech = clone_string(&n.project.components[n.idx].tech);
    let ghost before = n.reports.deep_view();
    n.reports.push(ComponentReport { name, tech, outcome });
    proof {
        assert(n.reports.deep_view() =~= before.push(
            ReportModel {
                name: run@.current().name,
                tech: run@.current().tech,
                outcome,
            },
        ));
    }
    n.idx = n.idx + 1;
    n.comp = None;
    proof {
        assert(n@ =~= spec_record(run@, outcome));
    }
    n
}

fn begin(run: CreateRun) -> (r: (CreateRun, RunStep))
    requires
        run@.core_inv(),
        run@.comp is None,
        run@.reports.len() == run@.idx as int,
    ensures
        (r.0@, r.1@) == spec_begin(run@),
        r.0@.inv(),
{
    let ghost r0 = run@;
    let len = run.project.components.len();
    if run.idx >= len {
        let mut n = run;
        let reports = n.reports;
        n.reports = Vec::new();
        n.phase = RunPhase::Finished;
        let report = RunReport { already_existed: false, root_failed: false, reports };
        proof {
            assert(n@ =~= spec_begin(r0).0);
            assert(report@ =~= spec_begin(r0).1->Done_0);
        }
        (n, RunStep::Done(report))
    } else {
        let c = classify(run.project.components[run.idx].tech.as_str());
        if is_self_managed(c) {
            let pd = project_dir_path(&run);
            let (cm, st) = scaffold_component(
                pd,
                run.project.components[run.idx].name.as_str(),
                run.project.components[run.idx].tech.as_str(),
            );
            match st {
                CompStep::Next(a) => {
                    let mut n = run;
                    n.comp = Some(cm);
                    n.phase = RunPhase::Scaffolding;
                    n.log = Ghost(n.log@ + seq![a@]);
                    proof {
                        assert(spec_begin(r0).0.comp == Some(cm@));
                        assert(n@ =~= spec_begin(r0).0);
                    }
                    (n, RunStep::Next(a))
                },
                CompStep::Done(_) => vstd::pervasive::unreached(),
            }
        } else {
            let path = comp_dir_path_at(&run, run.idx);
            let a = Action::CreateDirAll { path };
            let mut n = run;
            n.phase = RunPhase::EagerCreating;
            n.log = Ghost(n.log@ + seq![a@]);
            proof {
                assert(n@ =~= spec_begin(r0).0);
            }
            (n, RunStep::Next(a))
        }
    }
}

/// One step of the orchestrator: consume the answer to the previous action,
/// move on, and return the next action or the final report.
#[verifier::rlimit(100)]
#[verifier::spinoff_prover]
pub fn run_step(run: CreateRun, ev: Event) -> (r: (CreateRun, RunStep))
    requires
        run@.inv(),
        !run@.finished(),
        run@.expects(ev@),
    ensures
        (r.0@, r.1@) == spec_run_step(run@, ev@),
        r.0@.inv(),
{
    let ghost r0 = run@;
    match (run.phase, ev) {
        (RunPhase::CheckingRoot, Event::DirExists(ex)) => {
            if ex {
                let mut n = run;
                n.phase = RunPhase::Finished;
                let report = RunReport {
                    already_existed: true,
                    root_failed: false,
                    reports: Vec::new(),
                };
                proof {
                    assert(n@ =~= spec_run_step(r0, EventModel::DirExists(true)).0);
                    assert(report@ =~= spec_run_step(
                        r0,
                        EventModel::DirExists(true),
                    ).1->Done_0);
                }
                (n, RunStep::Done(report))
            } else {
                let path = project_dir_path(&run);
                let a = Action::CreateDir { path };
                let mut n = run;
                n.phase = RunPhase::CreatingRoot;
                n.log = Ghost(n.log@ + seq![a@]);
                proof {
                    assert(n@ =~= spec_run_step(r0, EventModel::DirExists(false)).0);
                }
                (n, RunStep::Next(a))
            }
        },
        (RunPhase::CreatingRoot, Event::Completed(ok)) => {
            if ok {
                let mut n = run;
                n.known = Ghost(n.known@.insert(n@.project_dir()));
                begin(n)
            } else {
                let mut n = run;
                n.phase = RunPhase::Finished;
                let report = RunReport {
                    already_existed: false,
                    root_failed: true,
                    reports: Vec::new(),
                };
                proof {
                    assert(n@ =~= spec_run_step(r0, EventModel::Completed(false)).0);
                    assert(report@ =~= spec_run_step(
                        r0,
                        EventModel::Completed(false),
                    ).1->Done_0);
                }
                (n, RunStep::Done(report))
            }
        },
        (RunPhase::EagerCreating, Event::Completed(ok)) => {
            if ok {
                let mut n = run;
                n.known = Ghost(n.known@.insert(n@.comp_dir_at(n@.idx as int)));
                let pd = project_dir_path(&n);
                let (cm, st) = scaffold_component(
                    pd,
                    n.project.components[n.idx].name.as_str(),
                    n.project.components[n.idx].tech.as_str(),
                );
                match st {
                    CompStep::Next(a) => {
                        n.comp = Some(cm);
                        n.phase = RunPhase::Scaffolding;
                        n.log = Ghost(n.log@ + seq![a@]);
                        proof {
                            assert(n@ =~= spec_run_step(r0, EventModel::Completed(true)).0);
                        }
                        (n, RunStep::Next(a))
                    },
                    CompStep::Done(o) => {
                        let n2 = record(n, o);
                        begin(n2)
                    },
                }
            } else {
                let n = record(run, CompOutcome::Failed(CompFailure::DirCreateFailed));
                begin(n)
            }
        },
        (RunPhase::Scaffolding, ev) => {
            let mut n = run;
            let comp_opt = n.comp;
            n.comp = None;
            let m = match comp_opt {
                Some(m) => m,
                None => vstd::pervasive::unreached(),
            };
            let (m2, st) = comp_step(m, ev);
            match st {
                CompStep::Next(a) => {
                    n.comp = Some(m2);
                    n.log = Ghost(n.log@ + seq![a@]);
                    proof {
                        assert(n@ =~= spec_run_step(r0, ev@).0);
                    }
                    (n, RunStep::Next(a))
                },
                CompStep::Done(o) => {
                    n.known = Ghost(n.known@.union(m2.known@));
                    proof {
                        assert forall|i: int| 0 <= i < n@.reports.len() implies {
                            &&& (#[trigger] n@.reports[i]).name == n@.project.components[i].name
                            &&& n@.reports[i].tech == n@.project.components[i].tech
                            &&& (n@.reports[i].outcome is Scaffolded || n@.reports[i].outcome
                                is NoScaffold) ==> n@.known.contains(n@.comp_dir_at(i))
                        } by {
                            assert(r0.known.contains(r0.comp_dir_at(i)) ==> n@.known.contains(
                                n@.comp_dir_at(i),
                            ));
                        }
                        if o is Scaffolded {
                            assert(m2@.known.contains(m2@.comp_dir()));
                            assert(m2@.comp_dir() =~= r0.comp_dir_at(r0.idx as int));
                            assert(n@.known.contains(n@.comp_dir_at(n@.idx as int)));
                        }
                    }
                    let n2 = record(n, o);
                    begin(n2)
                },
            }
        },
        _ => vstd::pervasive::unreached(),
    }
}

} // verus!
