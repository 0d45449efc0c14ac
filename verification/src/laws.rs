//! The engine's guarantees, stated and proved over the model transitions.
//!
//! Each proof function here is a law a driver can rely on, provided it
//! answers every action truthfully: what the engine does for unrecognized
//! technologies, that a finished scaffold's directory exists, that re-running
//! creation against an existing project mutates nothing, how reconciliation
//! behaves on the no-op and collision paths, and that nothing the engine
//! asks for ever mutates the filesystem outside the project directory.

use vstd::prelude::*;

use crate::classify::spec_classify;
use crate::create::{
    spec_begin, spec_create_project, spec_run_step, valid_project, ProjectModel, ReportModel,
    RunModel, RunStepModel,
};
use crate::fsops::{
    confined_to, lemma_mutations_empty, lemma_mutations_push, mutations, no_renames, ActionModel,
    EventModel, RunResult,
};
use crate::scaffold::{
    plan_of, spec_comp_start, spec_comp_step, CompFailure, CompModel, CompOutcome, CompState,
    CompStepModel, ReconStage,
};

verus! {

/// A component whose technology is unrecognized — no exact table entry and
/// no heuristic match — gets an inert machine: it issues no action at all
/// and reports success with no specific scaffolding.
pub proof fn lemma_unknown_tech_machine_is_inert(
    pd: Seq<Seq<char>>,
    cn: Seq<char>,
    t: Seq<char>,
)
    requires
        spec_classify(t) is Unknown,
    ensures
        ({
            let s = spec_comp_start(pd, cn, t, plan_of(spec_classify(t)));
            &&& s.1 == CompStepModel::Done(CompOutcome::NoScaffold)
            &&& s.0.log.len() == 0
        }),
{
}

/// Before a component whose strategy does not manage its own directory is
/// scaffolded, the orchestrator issues exactly one action for it: creating
/// its plain directory.
pub proof fn lemma_begin_unmanaged_creates_dir(r: RunModel)
    requires
        (r.idx as int) < r.project.components.len(),
        !crate::classify::spec_self_managed(spec_classify(r.current().tech)),
    ensures
        ({
            let b = spec_begin(r);
            &&& b.1 == RunStepModel::Next(
                ActionModel::CreateDirAll { path: r.comp_dir_at(r.idx as int) },
            )
            &&& b.0.log == r.log.push(
                ActionModel::CreateDirAll { path: r.comp_dir_at(r.idx as int) },
            )
        }),
{
}

/// Once the single eager directory of an unrecognized-technology component
/// is created, the orchestrator records the component as done — with no
/// error — and issues nothing further for it: whatever action the step
/// returns already belongs to the next component (a tool probe, or the next
/// component's own eager directory).  Together with
/// [`lemma_begin_unmanaged_creates_dir`] and
/// [`lemma_unknown_tech_machine_is_inert`], this pins down that such a
/// component results in exactly one created directory and zero errors.
pub proof fn lemma_unknown_component_scaffolds_nothing_more(r: RunModel)
    requires
        r.inv(),
        r.phase is EagerCreating,
        spec_classify(r.current().tech) is Unknown,
    ensures
        ({
            let s = spec_run_step(r, EventModel::Completed(true));
            let entry = ReportModel {
                name: r.current().name,
                tech: r.current().tech,
                outcome: CompOutcome::NoScaffold,
            };
            &&& (s.1 matches RunStepModel::Done(rep) ==> rep.reports == r.reports.push(entry)
                && !rep.root_failed && !rep.already_existed && s.0.log == r.log)
            &&& (s.1 matches RunStepModel::Next(a) ==> s.0.reports == r.reports.push(entry)
                && s.0.idx == r.idx + 1 && s.0.log == r.log.push(a) && (a is CheckTool
                || a == ActionModel::CreateDirAll { path: r.comp_dir_at(r.idx + 1) }))
        }),
{
    let run1 = RunModel { known: r.known.insert(r.comp_dir_at(r.idx as int)), ..r };
    let cur = r.current();
    let started = spec_comp_start(
        run1.project_dir(),
        cur.name,
        cur.tech,
        plan_of(spec_classify(cur.tech)),
    );
    assert(started.1 == CompStepModel::Done(CompOutcome::NoScaffold));
    let rec = crate::create::spec_record(run1, CompOutcome::NoScaffold);
    assert(rec.idx == r.idx + 1);
}

/// A machine that finishes with a scaffold — full or degraded — knows that
/// the expected component directory exists: some answer along the way
/// confirmed its creation, its rename into place, or its generation.
pub proof fn lemma_scaffolded_dir_exists(m: CompModel)
    requires
        m.inv(),
        m.state matches CompState::Finished { outcome: o } && o is Scaffolded,
    ensures
        m.known.contains(m.comp_dir()),
{
}

/// Every component the orchestrator has recorded as scaffolded (or as
/// needing no scaffolding) has its directory `<project_dir>/<name>` among
/// the directories known to exist.
pub proof fn lemma_reported_dirs_exist(r: RunModel, i: int)
    requires
        r.inv(),
        0 <= i < r.reports.len(),
        r.reports[i].outcome is Scaffolded || r.reports[i].outcome is NoScaffold,
    ensures
        r.known.contains(r.project_dir().push(r.reports[i].name)),
{
    assert(r.known.contains(r.comp_dir_at(i)));
}

/// Creating a project whose directory already exists is idempotent: the
/// engine asks one existence question, reports that the project exists, and
/// issues no mutating action at all.
pub proof fn lemma_recreate_existing_project_is_noop(p: ProjectModel)
    requires
        valid_project(p),
    ensures
        ({
            let first = spec_create_project(p);
            let second = spec_run_step(first.0, EventModel::DirExists(true));
            &&& first.1 == RunStepModel::Next(
                ActionModel::CheckDirExists { path: first.0.project_dir() },
            )
            &&& second.1 matches RunStepModel::Done(rep) && rep.already_existed
                && !rep.root_failed && rep.reports.len() == 0
            &&& mutations(second.0.log).len() == 0
        }),
{
    let first = spec_create_project(p);
    let a = ActionModel::CheckDirExists { path: first.0.project_dir() };
    lemma_mutations_empty();
    lemma_mutations_push(Seq::empty(), a);
    assert(first.0.log =~= Seq::<ActionModel>::empty().push(a));
    let second = spec_run_step(first.0, EventModel::DirExists(true));
    assert(second.0.log == first.0.log);
}

/// When the generator's output directory is the expected component directory
/// already — the generator was handed the component's own name —
/// reconciliation performs zero renames: the machine only makes sure the
/// directory is in place.
pub proof fn lemma_reconcile_equal_names_no_rename(m: CompModel)
    requires
        m.state is GenRunning,
        m.project_name() == m.comp_name,
    ensures
        ({
            let s = spec_comp_step(m, EventModel::Ran(RunResult::Completed { success: true }));
            &&& s.0.state == (CompState::Recon { stage: ReconStage::Ensuring })
            &&& s.1 == CompStepModel::Next(ActionModel::CreateDirAll { path: m.comp_dir() })
            &&& no_renames(s.0.log.skip(m.log.len() as int))
        }),
{
    let s = spec_comp_step(m, EventModel::Ran(RunResult::Completed { success: true }));
    assert(s.0.log.skip(m.log.len() as int) =~= seq![
        ActionModel::CreateDirAll { path: m.comp_dir() },
    ]);
}

/// When the generator left no output directory behind — it placed its output
/// at the expected directory already, or failed silently — reconciliation
/// performs zero renames.
pub proof fn lemma_reconcile_missing_output_no_rename(m: CompModel)
    requires
        m.state == (CompState::Recon { stage: ReconStage::CheckGenerated }),
    ensures
        ({
            let s = spec_comp_step(m, EventModel::DirExists(false));
            &&& s.0.state == (CompState::Recon { stage: ReconStage::Ensuring })
            &&& s.1 == CompStepModel::Next(ActionModel::CreateDirAll { path: m.comp_dir() })
            &&& no_renames(s.0.log.skip(m.log.len() as int))
        }),
{
    let s = spec_comp_step(m, EventModel::DirExists(false));
    assert(s.0.log.skip(m.log.len() as int) =~= seq![
        ActionModel::CreateDirAll { path: m.comp_dir() },
    ]);
}

/// When the generator's output directory differs from the expected one and
/// the expected one is already occupied, reconciliation reports the naming
/// collision and touches nothing: between the generator's completion and the
/// failure report the machine only asks two existence questions — no rename,
/// no overwrite, and there is no deletion in its vocabulary at all.
pub proof fn lemma_collision_reported_directories_untouched(m: CompModel)
    requires
        m.state is GenRunning,
        m.project_name() != m.comp_name,
    ensures
        ({
            let s1 = spec_comp_step(m, EventModel::Ran(RunResult::Completed { success: true }));
            let s2 = spec_comp_step(s1.0, EventModel::DirExists(true));
            let s3 = spec_comp_step(s2.0, EventModel::DirExists(true));
            &&& s3.1 == CompStepModel::Done(
                CompOutcome::Failed(CompFailure::NamingCollision),
            )
            &&& mutations(s3.0.log) == mutations(m.log)
        }),
{
    let s1 = spec_comp_step(m, EventModel::Ran(RunResult::Completed { success: true }));
    let a1 = ActionModel::CheckDirExists { path: m.gen_dir() };
    assert(s1.0.log == m.log.push(a1));
    lemma_mutations_push(m.log, a1);
    let s2 = spec_comp_step(s1.0, EventModel::DirExists(true));
    let a2 = ActionModel::CheckDirExists { path: s1.0.comp_dir() };
    assert(s2.0.log == s1.0.log.push(a2));
    lemma_mutations_push(s1.0.log, a2);
    let s3 = spec_comp_step(s2.0, EventModel::DirExists(true));
    assert(s3.0.log == s2.0.log);
}

proof fn lemma_prefix_push(p: Seq<Seq<char>>, x: Seq<char>)
    ensures
        p.is_prefix_of(p.push(x)),
{
    assert(p.push(x).subrange(0, p.len() as int) =~= p);
}

proof fn lemma_prefix_push2(p: Seq<Seq<char>>, x: Seq<char>, y: Seq<char>)
    ensures
        p.is_prefix_of(p.push(x).push(y)),
{
    assert(p.push(x).push(y).subrange(0, p.len() as int) =~= p);
}

/// Whatever the machine asks for, it never mutates anything outside the
/// project directory: the only directories it creates or renames and the
/// only files it writes lie at or below `project_dir`.
pub proof fn lemma_pending_action_confined(m: CompModel)
    ensures
        confined_to(m.pending_action(), m.project_dir),
{
    lemma_prefix_push(m.project_dir, m.comp_name);
    lemma_prefix_push(m.project_dir, m.project_name());
    lemma_prefix_push2(m.project_dir, m.comp_name, "package.json"@);
    match m.state {
        CompState::WritingFiles { k } => {
            lemma_prefix_push2(m.project_dir, m.comp_name, m.write_items()[k as int].0);
        },
        _ => {},
    }
    assert(m.project_dir.is_prefix_of(m.project_dir)) by {
        assert(m.project_dir.subrange(0, m.project_dir.len() as int) =~= m.project_dir);
    }
}

/// Every action a machine step hands out is confined to the project
/// directory.
pub proof fn lemma_machine_actions_confined(m: CompModel, ev: EventModel)
    ensures
        spec_comp_step(m, ev).1 matches CompStepModel::Next(a) ==> confined_to(a, m.project_dir),
{
    assert forall|m2: CompModel|
        confined_to(#[trigger] m2.pending_action(), m2.project_dir) by {
        lemma_pending_action_confined(m2);
    }
}

/// Every action an orchestrator step hands out is confined to the project
/// directory: the whole engine never creates, renames or writes anything
/// outside it.
pub proof fn lemma_run_actions_confined(r: RunModel, ev: EventModel)
    requires
        r.inv(),
    ensures
        spec_run_step(r, ev).1 matches RunStepModel::Next(a) ==> confined_to(a, r.project_dir()),
{
    assert forall|m2: CompModel|
        confined_to(#[trigger] m2.pending_action(), m2.project_dir) by {
        lemma_pending_action_confined(m2);
    }
    assert forall|i: int| 0 <= i < r.project.components.len() implies r.project_dir().is_prefix_of(
        #[trigger] r.comp_dir_at(i),
    ) by {
        lemma_prefix_push(r.project_dir(), r.project.components[i].name);
    }
    assert(r.project_dir().is_prefix_of(r.project_dir())) by {
        assert(r.project_dir().subrange(0, r.project_dir().len() as int) =~= r.project_dir());
    }
}

} // verus!
