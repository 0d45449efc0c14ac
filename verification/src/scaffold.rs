//! The per-component scaffolding engine.
//!
//! One [`CompMachine`] drives the scaffolding of a single component: it
//! resolves the ecosystem's tool, dispatches on the technology's variant,
//! invokes the generator, reconciles the generator's output directory with
//! the expected component directory and writes the stub files.  The machine
//! is pure: each step consumes the answer to its previous request and either
//! asks for the next [`Action`] or finishes with a [`CompOutcome`].
//!
//! The machine keeps two ghost records: `log`, every action it has issued,
//! and `known`, the directories the answers so far assert to exist.  A
//! machine that finishes with [`CompOutcome::Scaffolded`] is proved to know
//! that the expected component directory exists (provided the driver answered
//! truthfully).

use vstd::prelude::*;
use vstd::string::StringExecFns;

use crate::classify::{classify, spec_classify, Classification, Ecosystem, Strategy};
use crate::content;
use crate::fsops::{
    Action, ActionModel, Event, EventModel, FileReadResult, RunResult,
};
use crate::text::{eq_ci, replace_all, str_eq};

verus! {

/// The Python-family scaffolding variants.
#[derive(Clone, Copy, Debug, PartialEq, Eq, Structural)]
pub enum PyVariant {
    Django,
    Flask,
    FastApi,
    Pyramid,
    Generic,
}

/// The JavaScript-family scaffolding variants.
#[derive(Clone, Copy, Debug, PartialEq, Eq, Structural)]
pub enum JsVariant {
    React,
    Vue,
    Svelte,
    NextJs,
    Nuxt,
    Express,
    Generic,
}

/// The resolved scaffolding plan for one component.
#[derive(Clone, Copy, Debug, PartialEq, Eq, Structural)]
pub enum Plan {
    Py(PyVariant),
    Js(JsVariant),
    RustCrate,
    NoScaffold,
}

/// Why a component's scaffolding failed.
#[derive(Clone, Copy, Debug, PartialEq, Eq, Structural)]
pub enum CompFailure {
    /// The required compiled-language toolchain is not installed.
    ToolchainMissing,
    /// A child process could not be started at all.
    LaunchFailed,
    /// The ecosystem's generator exited with failure.
    GeneratorFailed,
    /// The package-manager initialisation step exited with failure.
    InitFailed,
    /// A directory could not be created.
    DirCreateFailed,
    /// The reconciliation rename failed.
    RenameFailed,
    /// A stub file could not be written.
    WriteFailed,
    /// The package manifest exists but could not be read.
    ReadFailed,
    /// The expected component directory is already occupied, so the
    /// generator's output cannot be renamed onto it.
    NamingCollision,
}

/// How the scaffolding of one component ended.
#[derive(Clone, Copy, Debug, PartialEq, Eq, Structural)]
pub enum CompOutcome {
    /// The component directory exists and was populated as far as the
    /// environment allowed.  `degraded` reports that the ecosystem's tool was
    /// missing (or, for Django, declined), so only a bare directory was
    /// created; `install_warning` reports that a dependency-install step
    /// failed without stopping the scaffold.
    Scaffolded { degraded: bool, install_warning: bool },
    /// No specific scaffolding exists for the technology; nothing was done
    /// beyond the directory the orchestrator creates up front.
    NoScaffold,
    /// Scaffolding this component failed; sibling components are unaffected.
    Failed(CompFailure),
}

/// The package-ensure sub-flow: probe with the package manager, ask, install.
#[derive(Clone, Copy, Debug, PartialEq, Eq, Structural)]
pub enum EnsureStage {
    Show,
    Ask,
    Install,
}

/// The reconciliation sub-flow of generator output directories.
#[derive(Clone, Copy, Debug, PartialEq, Eq, Structural)]
pub enum ReconStage {
    /// Does the directory the generator names after the project exist?
    CheckGenerated,
    /// Does the expected component directory already exist?
    CheckExpected,
    /// Renaming the generated directory to the expected one.
    Renaming,
    /// Making sure the expected directory exists (no rename was needed).
    Ensuring,
}

/// Where the machine stands; each non-final state awaits the answer to
/// exactly one action.
#[derive(Clone, Copy, Debug, PartialEq, Eq, Structural)]
#[allow(inconsistent_fields)]
pub enum CompState {
    /// Trying the ecosystem's candidate tools in preference order.
    Probing { idx: usize },
    /// No tool was found (or Django was declined): creating a bare directory.
    FallbackCreating,
    /// Creating the component directory before populating it.
    Creating,
    /// Making sure package `j` of the variant's package list is installed.
    Ensuring { j: usize, stage: EnsureStage },
    /// The ecosystem's generator is running.
    GenRunning,
    /// Reconciling the generator's output directory.
    Recon { stage: ReconStage },
    /// Installing dependencies; failure is a warning.
    Installing,
    /// `init -y` of the package manager.
    NpmInit,
    /// Installing the Express dependencies; failure is a warning.
    InstallingDeps,
    /// Installing the Express development dependencies; the result is
    /// ignored.
    InstallingDevDeps,
    /// Writing stub file `k` of the variant's write list.
    WritingFiles { k: usize },
    /// Reading the package manifest to rewrite its scripts block.
    ReadingManifest,
    /// Writing the rewritten package manifest.
    WritingManifest,
    /// Trying to install the named package; the result is ignored.
    TryInstalling,
    /// Probing the compiled toolchain by its version query.
    RsVersion,
    /// The compiled-language generator is running.
    RsNew,
    /// The machine is done.
    Finished { outcome: CompOutcome },
}

/// A step's result: the next action to perform, or the outcome.
#[derive(Debug)]
pub enum CompStep {
    Next(Action),
    Done(CompOutcome),
}

/// Model of a [`CompStep`].
#[verifier::ext_equal]
pub ghost enum CompStepModel {
    Next(ActionModel),
    Done(CompOutcome),
}

impl View for CompStep {
    type V = CompStepModel;

    open spec fn view(&self) -> CompStepModel {
        match self {
            CompStep::Next(a) => CompStepModel::Next(a@),
            CompStep::Done(o) => CompStepModel::Done(*o),
        }
    }
}

/// The scaffolding machine for one component.
pub struct CompMachine {
    /// The project directory, as path segments.
    pub project_dir: Vec<String>,
    /// The component's name; its directory is `project_dir` plus this.
    pub comp_name: String,
    /// The component's technology string, verbatim.
    pub tech: String,
    /// The resolved scaffolding plan.
    pub plan: Plan,
    /// The ecosystem tool that probing resolved.
    pub tool: Option<String>,
    /// For each package of the variant's list, whether it ended up installed.
    pub pkg_flags: Vec<bool>,
    /// A dependency-install step failed (reported, not fatal).
    pub install_warning: bool,
    /// The rewritten package manifest awaiting its write.
    pub manifest: Option<String>,
    /// The machine's position.
    pub state: CompState,
    /// Every action issued so far.
    pub log: Ghost<Seq<ActionModel>>,
    /// The directories the answers so far assert to exist.
    pub known: Ghost<Set<Seq<Seq<char>>>>,
}

/// Model of a [`CompMachine`].
#[verifier::ext_equal]
pub ghost struct CompModel {
    pub project_dir: Seq<Seq<char>>,
    pub comp_name: Seq<char>,
    pub tech: Seq<char>,
    pub plan: Plan,
    pub tool: Option<Seq<char>>,
    pub pkg_flags: Seq<bool>,
    pub install_warning: bool,
    pub manifest: Option<Seq<char>>,
    pub state: CompState,
    pub log: Seq<ActionModel>,
    pub known: Set<Seq<Seq<char>>>,
}

impl View for CompMachine {
    type V = CompModel;

    open spec fn view(&self) -> CompModel {
        CompModel {
            project_dir: self.project_dir.deep_view(),
            comp_name: self.comp_name@,
            tech: self.tech@,
            plan: self.plan,
            tool: match self.tool {
                Some(t) => Some(t@),
                None => None,
            },
            pkg_flags: self.pkg_flags@,
            install_warning: self.install_warning,
            manifest: match self.manifest {
                Some(c) => Some(c@),
                None => None,
            },
            state: self.state,
            log: self.log@,
            known: self.known@,
        }
    }
}

/// The candidate tools probed for a plan, in preference order.
pub open spec fn probe_candidates(plan: Plan) -> Seq<Seq<char>> {
    match plan {
        Plan::Py(_) => crate::probe::python_executables(),
        Plan::Js(_) => crate::probe::node_package_managers(),
        _ => Seq::empty(),
    }
}

/// The packages a Python-family variant makes sure are installed, in order.
pub open spec fn pkg_list(plan: Plan, tech: Seq<char>) -> Seq<Seq<char>> {
    match plan {
        Plan::Py(PyVariant::Django) => seq!["django"@],
        Plan::Py(PyVariant::Flask) => seq!["flask"@],
        Plan::Py(PyVariant::FastApi) => seq!["fastapi"@, "uvicorn"@],
        Plan::Py(PyVariant::Pyramid) => seq!["pyramid"@],
        Plan::Py(PyVariant::Generic) => if tech != "python"@ && tech.len() > 0 {
            seq![tech]
        } else {
            Seq::empty()
        },
        _ => Seq::empty(),
    }
}

impl CompModel {
    /// The directory the component must end up in.
    pub open spec fn comp_dir(self) -> Seq<Seq<char>> {
        self.project_dir.push(self.comp_name)
    }

    /// The project's base name, which generators use for their output.
    pub open spec fn project_name(self) -> Seq<char> {
        self.project_dir.last()
    }

    /// The directory a project-named generator leaves its output in.
    pub open spec fn gen_dir(self) -> Seq<Seq<char>> {
        self.project_dir.push(self.project_name())
    }

    /// The component's package manifest.
    pub open spec fn manifest_path(self) -> Seq<Seq<char>> {
        self.comp_dir().push("package.json"@)
    }

    /// The resolved tool's name (meaningful once probing succeeded).
    pub open spec fn the_tool(self) -> Seq<char> {
        self.tool.arrow_Some_0()
    }

    /// The variant's packages, in order.
    pub open spec fn pkgs(self) -> Seq<Seq<char>> {
        pkg_list(self.plan, self.tech)
    }

    /// Is the generic Python variant tied to a named package?
    pub open spec fn py_named(self) -> bool {
        self.pkgs().len() > 0
    }

    /// Did every ensured package end up installed?
    pub open spec fn all_pkgs_ok(self) -> bool {
        forall|i: int| 0 <= i < self.pkg_flags.len() ==> self.pkg_flags[i]
    }

    /// The stub files the variant writes into the component directory:
    /// file name and content, in order.
    pub open spec fn write_items(self) -> Seq<(Seq<char>, Seq<char>)> {
        match self.plan {
            Plan::Py(PyVariant::Django) => seq![
                ("requirements.txt"@, content::django_requirements()),
            ],
            Plan::Py(PyVariant::Flask) => seq![
                ("app.py"@, content::flask_stub()),
                ("requirements.txt"@, content::flask_requirements(self.pkg_flags[0])),
                (".env"@, content::flask_env()),
            ],
            Plan::Py(PyVariant::FastApi) => seq![
                ("main.py"@, content::fastapi_stub()),
                (
                    "requirements.txt"@,
                    content::fastapi_requirements(self.pkg_flags[0] && self.pkg_flags[1]),
                ),
            ],
            Plan::Py(PyVariant::Pyramid) => seq![
                ("app.py"@, content::pyramid_stub()),
                ("requirements.txt"@, content::pyramid_requirements(self.pkg_flags[0])),
            ],
            Plan::Py(PyVariant::Generic) => seq![
                ("main.py"@, content::py_generic_main(self.tech)),
                (
                    "requirements.txt"@,
                    content::py_generic_requirements(
                        self.tech,
                        self.py_named(),
                        if self.py_named() {
                            self.pkg_flags[0]
                        } else {
                            true
                        },
                    ),
                ),
                ("__init__.py"@, Seq::empty()),
            ],
            Plan::Js(JsVariant::Express) => seq![
                ("server.js"@, content::express_server()),
                (".env"@, content::node_env()),
            ],
            Plan::Js(JsVariant::Generic) => seq![
                ("index.js"@, content::node_index(self.tech)),
            ],
            _ => Seq::empty(),
        }
    }

    /// The generator invocation of the variants that run one.
    pub open spec fn generator_action(self) -> ActionModel {
        match self.plan {
            Plan::Py(PyVariant::Django) => ActionModel::RunTool {
                program: "django-admin"@,
                args: seq!["startproject"@, self.project_name()],
                dir: Some(self.project_dir),
            },
            Plan::Js(JsVariant::React) => ActionModel::RunTool {
                program: self.the_tool(),
                args: seq![
                    "create"@, "vite@latest"@, self.project_name(), "--"@, "--template"@,
                    "react-ts"@,
                ],
                dir: Some(self.project_dir),
            },
            Plan::Js(JsVariant::Vue) => ActionModel::RunTool {
                program: self.the_tool(),
                args: seq![
                    "create"@, "vue@latest"@, self.project_name(), "--"@, "--typescript"@,
                    "--router"@, "--pinia"@, "--vitest"@, "--eslint"@,
                ],
                dir: Some(self.project_dir),
            },
            Plan::Js(JsVariant::Svelte) => ActionModel::RunTool {
                program: self.the_tool(),
                args: seq![
                    "create"@, "svelte@latest"@, self.project_name(), "--"@, "--template"@,
                    "skeleton"@, "--types"@, "typescript"@, "--prettier"@, "--eslint"@,
                ],
                dir: Some(self.project_dir),
            },
            Plan::Js(JsVariant::NextJs) => ActionModel::RunTool {
                program: "npx"@,
                args: seq![
                    "create-next-app@latest"@, self.project_name(), "--typescript"@,
                    "--tailwind"@, "--eslint"@, "--app"@, "--src-dir"@, "--import-alias"@,
                    "@/*"@,
                ],
                dir: Some(self.project_dir),
            },
            Plan::Js(JsVariant::Nuxt) => ActionModel::RunTool {
                program: "npx"@,
                args: seq!["nuxi@latest"@, "init"@, self.project_name()],
                dir: Some(self.project_dir),
            },
            _ => ActionModel::RunTool { program: Seq::empty(), args: Seq::empty(), dir: None },
        }
    }

    /// The action the current state awaits an answer to.
    pub open spec fn pending_action(self) -> ActionModel {
        match self.state {
            CompState::Probing { idx } => ActionModel::CheckTool {
                name: probe_candidates(self.plan)[idx as int],
            },
            CompState::FallbackCreating => ActionModel::CreateDirAll { path: self.comp_dir() },
            CompState::Creating => ActionModel::CreateDirAll { path: self.comp_dir() },
            CompState::Ensuring { j, stage } => match stage {
                EnsureStage::Show => ActionModel::RunTool {
                    program: self.the_tool(),
                    args: seq!["-m"@, "pip"@, "show"@, self.pkgs()[j as int]],
                    dir: None,
                },
                EnsureStage::Ask => ActionModel::AskInstall { package: self.pkgs()[j as int] },
                EnsureStage::Install => ActionModel::RunTool {
                    program: self.the_tool(),
                    args: seq!["-m"@, "pip"@, "install"@, self.pkgs()[j as int]],
                    dir: None,
                },
            },
            CompState::GenRunning => self.generator_action(),
            CompState::Recon { stage } => match stage {
                ReconStage::CheckGenerated => ActionModel::CheckDirExists { path: self.gen_dir() },
                ReconStage::CheckExpected => ActionModel::CheckDirExists { path: self.comp_dir() },
                ReconStage::Renaming => ActionModel::Rename {
                    from: self.gen_dir(),
                    to: self.comp_dir(),
                },
                ReconStage::Ensuring => ActionModel::CreateDirAll { path: self.comp_dir() },
            },
            CompState::Installing => ActionModel::RunTool {
                program: self.the_tool(),
                args: seq!["install"@],
                dir: Some(self.comp_dir()),
            },
            CompState::NpmInit => ActionModel::RunTool {
                program: self.the_tool(),
                args: seq!["init"@, "-y"@],
                dir: Some(self.comp_dir()),
            },
            CompState::InstallingDeps => ActionModel::RunTool {
                program: self.the_tool(),
                args: seq!["install"@, "express"@, "cors"@, "helmet"@, "dotenv"@],
                dir: Some(self.comp_dir()),
            },
            CompState::InstallingDevDeps => ActionModel::RunTool {
                program: self.the_tool(),
                args: seq![
                    "install"@, "--save-dev"@, "nodemon"@, "@types/node"@, "@types/express"@,
                ],
                dir: Some(self.comp_dir()),
            },
            CompState::WritingFiles { k } => ActionModel::WriteFile {
                path: self.comp_dir().push(self.write_items()[k as int].0),
                content: self.write_items()[k as int].1,
            },
            CompState::ReadingManifest => ActionModel::ReadFile { path: self.manifest_path() },
            CompState::WritingManifest => ActionModel::WriteFile {
                path: self.manifest_path(),
                content: self.manifest.arrow_Some_0(),
            },
            CompState::TryInstalling => ActionModel::RunTool {
                program: self.the_tool(),
                args: seq!["install"@, self.tech],
                dir: Some(self.comp_dir()),
            },
            CompState::RsVersion => ActionModel::RunTool {
                program: "cargo"@,
                args: seq!["--version"@],
                dir: None,
            },
            CompState::RsNew => ActionModel::RunTool {
                program: "cargo"@,
                args: seq!["new"@, self.comp_name],
                dir: Some(self.project_dir),
            },
            // a finished machine awaits nothing; this value is never asked for
            CompState::Finished { .. } => ActionModel::CheckDirExists { path: Seq::empty() },
        }
    }

    /// Which kind of event the current state's pending action is answered by.
    pub open spec fn expects(self, ev: EventModel) -> bool {
        match self.state {
            CompState::Probing { .. } => ev is ToolFound,
            CompState::FallbackCreating => ev is Completed,
            CompState::Creating => ev is Completed,
            CompState::Ensuring { j: _, stage } => match stage {
                EnsureStage::Show => ev is Ran,
                EnsureStage::Ask => ev is Answer,
                EnsureStage::Install => ev is Ran,
            },
            CompState::GenRunning => ev is Ran,
            CompState::Recon { stage } => match stage {
                ReconStage::CheckGenerated => ev is DirExists,
                ReconStage::CheckExpected => ev is DirExists,
                ReconStage::Renaming => ev is Completed,
                ReconStage::Ensuring => ev is Completed,
            },
            CompState::Installing => ev is Ran,
            CompState::NpmInit => ev is Ran,
            CompState::InstallingDeps => ev is Ran,
            CompState::InstallingDevDeps => ev is Ran,
            CompState::WritingFiles { .. } => ev is Completed,
            CompState::ReadingManifest => ev is FileRead,
            CompState::WritingManifest => ev is Completed,
            CompState::TryInstalling => ev is Ran,
            CompState::RsVersion => ev is Ran,
            CompState::RsNew => ev is Ran,
            CompState::Finished { .. } => false,
        }
    }

    /// The machine's well-formedness invariant.
    pub open spec fn inv(self) -> bool {
        &&& self.project_dir.len() > 0
        &&& self.project_name().len() > 0
        &&& self.comp_name.len() > 0
        &&& self.tech.len() > 0
        &&& match self.state {
            CompState::Probing { idx } => {
                &&& self.plan is Py || self.plan is Js
                &&& (idx as int) < probe_candidates(self.plan).len()
                &&& self.pkg_flags.len() == 0
            },
            CompState::FallbackCreating => self.plan is Py || self.plan is Js,
            CompState::Creating => {
                &&& self.tool is Some
                &&& self.pkg_flags.len() == 0
                &&& match self.plan {
                    Plan::Py(v) => !(v is Django),
                    Plan::Js(v) => v is Express || v is Generic,
                    _ => false,
                }
            },
            CompState::Ensuring { j, stage: _ } => {
                &&& self.plan is Py
                &&& self.tool is Some
                &&& (j as int) < self.pkgs().len()
                &&& self.pkg_flags.len() == j as int
                &&& !(self.plan == Plan::Py(PyVariant::Django)) ==> self.known.contains(
                    self.comp_dir(),
                )
            },
            CompState::GenRunning => {
                &&& self.tool is Some
                &&& match self.plan {
                    Plan::Py(v) => v is Django && self.pkg_flags.len() == 1,
                    Plan::Js(v) => !(v is Express) && !(v is Generic),
                    _ => false,
                }
            },
            CompState::Recon { stage: _ } => {
                &&& self.tool is Some
                &&& match self.plan {
                    Plan::Py(v) => v is Django && self.pkg_flags.len() == 1,
                    Plan::Js(v) => !(v is Express) && !(v is Generic),
                    _ => false,
                }
            },
            CompState::Installing => {
                &&& self.tool is Some
                &&& self.known.contains(self.comp_dir())
                &&& match self.plan {
                    Plan::Py(v) => v is Django && self.pkg_flags.len() == 1,
                    Plan::Js(v) => v is React || v is Vue || v is Svelte || v is Nuxt,
                    _ => false,
                }
            },
            CompState::NpmInit => {
                &&& self.tool is Some
                &&& self.known.contains(self.comp_dir())
                &&& self.plan == Plan::Js(JsVariant::Express) || self.plan == Plan::Js(
                    JsVariant::Generic,
                )
            },
            CompState::InstallingDeps => {
                &&& self.tool is Some
                &&& self.known.contains(self.comp_dir())
                &&& self.plan == Plan::Js(JsVariant::Express)
            },
            CompState::InstallingDevDeps => {
                &&& self.tool is Some
                &&& self.known.contains(self.comp_dir())
                &&& self.plan == Plan::Js(JsVariant::Express)
            },
            CompState::WritingFiles { k } => {
                &&& (k as int) < self.write_items().len()
                &&& self.known.contains(self.comp_dir())
                &&& match self.plan {
                    Plan::Py(_) => self.pkg_flags.len() == self.pkgs().len(),
                    Plan::Js(v) => (v is Express || v is Generic) && self.tool is Some,
                    _ => false,
                }
            },
            CompState::ReadingManifest => {
                &&& self.known.contains(self.comp_dir())
                &&& self.plan == Plan::Js(JsVariant::Express)
            },
            CompState::WritingManifest => {
                &&& self.known.contains(self.comp_dir())
                &&& self.manifest is Some
                &&& self.plan == Plan::Js(JsVariant::Express)
            },
            CompState::TryInstalling => {
                &&& self.tool is Some
                &&& self.known.contains(self.comp_dir())
                &&& self.plan == Plan::Js(JsVariant::Generic)
            },
            CompState::RsVersion => self.plan is RustCrate,
            CompState::RsNew => self.plan is RustCrate,
            CompState::Finished { outcome } => {
                &&& outcome is Scaffolded ==> self.known.contains(self.comp_dir())
                &&& outcome is NoScaffold ==> self.plan is NoScaffold
            },
        }
    }

    /// Is the machine done?
    pub open spec fn finished(self) -> bool {
        self.state is Finished
    }
}

/// The model transition into a new waiting state: the action for that state
/// is issued and logged.
pub open spec fn to_next(m: CompModel, st: CompState) -> (CompModel, CompStepModel) {
    let a = CompModel { state: st, ..m }.pending_action();
    (CompModel { state: st, log: m.log + seq![a], ..m }, CompStepModel::Next(a))
}

/// The model transition into the final state.
pub open spec fn to_done(m: CompModel, outcome: CompOutcome) -> (CompModel, CompStepModel) {
    (
        CompModel { state: CompState::Finished { outcome }, ..m },
        CompStepModel::Done(outcome),
    )
}

/// The state a successful probe dispatches to, by variant.
pub open spec fn after_probe(plan: Plan) -> CompState {
    match plan {
        Plan::Py(PyVariant::Django) => CompState::Ensuring { j: 0, stage: EnsureStage::Show },
        Plan::Py(_) => CompState::Creating,
        Plan::Js(JsVariant::Express) => CompState::Creating,
        Plan::Js(JsVariant::Generic) => CompState::Creating,
        Plan::Js(_) => CompState::GenRunning,
        _ => CompState::FallbackCreating,
    }
}

/// The package-ensure flow is over for package `j` with result `ok`: record
/// the flag and move to the next package or onward.
pub open spec fn after_ensure(m: CompModel, j: usize, ok: bool) -> (CompModel, CompStepModel) {
    let m1 = CompModel { pkg_flags: m.pkg_flags.push(ok), ..m };
    if j as int + 1 < m1.pkgs().len() {
        to_next(m1, CompState::Ensuring { j: (j + 1) as usize, stage: EnsureStage::Show })
    } else if m1.plan == Plan::Py(PyVariant::Django) {
        if ok {
            to_next(m1, CompState::GenRunning)
        } else {
            to_next(m1, CompState::FallbackCreating)
        }
    } else {
        to_next(m1, CompState::WritingFiles { k: 0 })
    }
}

/// Where reconciliation hands over once the expected directory is in place.
pub open spec fn after_recon(m: CompModel) -> (CompModel, CompStepModel) {
    match m.plan {
        Plan::Py(PyVariant::Django) => to_next(m, CompState::WritingFiles { k: 0 }),
        Plan::Js(JsVariant::NextJs) => to_done(
            m,
            CompOutcome::Scaffolded { degraded: false, install_warning: m.install_warning },
        ),
        _ => to_next(m, CompState::Installing),
    }
}

/// The stub files are written; move to the variant's tail or finish.
pub open spec fn after_writes(m: CompModel) -> (CompModel, CompStepModel) {
    match m.plan {
        Plan::Js(JsVariant::Express) => to_next(m, CompState::ReadingManifest),
        Plan::Js(JsVariant::Generic) => {
            if crate::classify::mentions_one_of(m.tech, crate::classify::node_package_names()) {
                to_next(m, CompState::TryInstalling)
            } else {
                to_done(
                    m,
                    CompOutcome::Scaffolded {
                        degraded: false,
                        install_warning: m.install_warning,
                    },
                )
            }
        },
        _ => to_done(
            m,
            CompOutcome::Scaffolded { degraded: false, install_warning: m.install_warning },
        ),
    }
}

/// One step of the component machine: the model transition.
pub open spec fn spec_comp_step(m: CompModel, ev: EventModel) -> (CompModel, CompStepModel) {
    match (m.state, ev) {
        (CompState::Probing { idx }, EventModel::ToolFound(found)) => {
            if found {
                let m1 = CompModel { tool: Some(probe_candidates(m.plan)[idx as int]), ..m };
                to_next(m1, after_probe(m1.plan))
            } else if idx as int + 1 < probe_candidates(m.plan).len() {
                to_next(m, CompState::Probing { idx: (idx + 1) as usize })
            } else {
                to_next(m, CompState::FallbackCreating)
            }
        },
        (CompState::FallbackCreating, EventModel::Completed(ok)) => {
            if ok {
                let m1 = CompModel { known: m.known.insert(m.comp_dir()), ..m };
                to_done(
                    m1,
                    CompOutcome::Scaffolded { degraded: true, install_warning: m1.install_warning },
                )
            } else {
                to_done(m, CompOutcome::Failed(CompFailure::DirCreateFailed))
            }
        },
        (CompState::Creating, EventModel::Completed(ok)) => {
            if ok {
                let m1 = CompModel { known: m.known.insert(m.comp_dir()), ..m };
                match m1.plan {
                    Plan::Js(JsVariant::Express) => to_next(m1, CompState::NpmInit),
                    Plan::Js(JsVariant::Generic) => to_next(m1, CompState::NpmInit),
                    _ => {
                        if m1.pkgs().len() == 0 {
                            to_next(m1, CompState::WritingFiles { k: 0 })
                        } else {
                            to_next(
                                m1,
                                CompState::Ensuring { j: 0, stage: EnsureStage::Show },
                            )
                        }
                    },
                }
            } else {
                to_done(m, CompOutcome::Failed(CompFailure::DirCreateFailed))
            }
        },
        (CompState::Ensuring { j, stage }, ev) => match (stage, ev) {
            (EnsureStage::Show, EventModel::Ran(r)) => match r {
                RunResult::Completed { success: true } => after_ensure(m, j, true),
                _ => to_next(m, CompState::Ensuring { j, stage: EnsureStage::Ask }),
            },
            (EnsureStage::Ask, EventModel::Answer(yes)) => {
                if yes {
                    to_next(m, CompState::Ensuring { j, stage: EnsureStage::Install })
                } else {
                    after_ensure(m, j, false)
                }
            },
            (EnsureStage::Install, EventModel::Ran(r)) => match r {
                RunResult::Completed { success } => after_ensure(m, j, success),
                RunResult::CouldNotStart => to_done(
                    m,
                    CompOutcome::Failed(CompFailure::LaunchFailed),
                ),
            },
            // unreachable under `expects`; any value completes the match
            _ => to_done(m, CompOutcome::Failed(CompFailure::LaunchFailed)),
        },
        (CompState::GenRunning, EventModel::Ran(r)) => match r {
            RunResult::CouldNotStart => to_done(m, CompOutcome::Failed(CompFailure::LaunchFailed)),
            RunResult::Completed { success: false } => to_done(
                m,
                CompOutcome::Failed(CompFailure::GeneratorFailed),
            ),
            RunResult::Completed { success: true } => {
                if m.project_name() == m.comp_name {
                    to_next(m, CompState::Recon { stage: ReconStage::Ensuring })
                } else {
                    to_next(m, CompState::Recon { stage: ReconStage::CheckGenerated })
                }
            },
        },
        (CompState::Recon { stage }, ev) => match (stage, ev) {
            (ReconStage::CheckGenerated, EventModel::DirExists(ex)) => {
                if ex {
                    let m1 = CompModel { known: m.known.insert(m.gen_dir()), ..m };
                    to_next(m1, CompState::Recon { stage: ReconStage::CheckExpected })
                } else {
                    to_next(m, CompState::Recon { stage: ReconStage::Ensuring })
                }
            },
            (ReconStage::CheckExpected, EventModel::DirExists(ex)) => {
                if ex {
                    let m1 = CompModel { known: m.known.insert(m.comp_dir()), ..m };
                    to_done(m1, CompOutcome::Failed(CompFailure::NamingCollision))
                } else {
                    to_next(m, CompState::Recon { stage: ReconStage::Renaming })
                }
            },
            (ReconStage::Renaming, EventModel::Completed(ok)) => {
                if ok {
                    let m1 = CompModel {
                        known: m.known.remove(m.gen_dir()).insert(m.comp_dir()),
                        ..m
                    };
                    after_recon(m1)
                } else {
                    to_done(m, CompOutcome::Failed(CompFailure::RenameFailed))
                }
            },
            (ReconStage::Ensuring, EventModel::Completed(ok)) => {
                if ok {
                    let m1 = CompModel { known: m.known.insert(m.comp_dir()), ..m };
                    after_recon(m1)
                } else {
                    to_done(m, CompOutcome::Failed(CompFailure::DirCreateFailed))
                }
            },
            // unreachable under `expects`; any value completes the match
            _ => to_done(m, CompOutcome::Failed(CompFailure::LaunchFailed)),
        },
        (CompState::Installing, EventModel::Ran(r)) => match r {
            RunResult::CouldNotStart => to_done(m, CompOutcome::Failed(CompFailure::LaunchFailed)),
            RunResult::Completed { success } => {
                let m1 = CompModel { install_warning: m.install_warning || !success, ..m };
                to_done(
                    m1,
                    CompOutcome::Scaffolded {
                        degraded: false,
                        install_warning: m1.install_warning,
                    },
                )
            },
        },
        (CompState::NpmInit, EventModel::Ran(r)) => match r {
            RunResult::CouldNotStart => to_done(m, CompOutcome::Failed(CompFailure::LaunchFailed)),
            RunResult::Completed { success: false } => to_done(
                m,
                CompOutcome::Failed(CompFailure::InitFailed),
            ),
            RunResult::Completed { success: true } => {
                if m.plan == Plan::Js(JsVariant::Express) {
                    to_next(m, CompState::InstallingDeps)
                } else {
                    to_next(m, CompState::WritingFiles { k: 0 })
                }
            },
        },
        (CompState::InstallingDeps, EventModel::Ran(r)) => match r {
            RunResult::CouldNotStart => to_done(m, CompOutcome::Failed(CompFailure::LaunchFailed)),
            RunResult::Completed { success } => {
                let m1 = CompModel { install_warning: m.install_warning || !success, ..m };
                to_next(m1, CompState::InstallingDevDeps)
            },
        },
        (CompState::InstallingDevDeps, EventModel::Ran(_)) => {
            to_next(m, CompState::WritingFiles { k: 0 })
        },
        (CompState::WritingFiles { k }, EventModel::Completed(ok)) => {
            if ok {
                if k as int + 1 < m.write_items().len() {
                    to_next(m, CompState::WritingFiles { k: (k + 1) as usize })
                } else {
                    after_writes(m)
                }
            } else {
                to_done(m, CompOutcome::Failed(CompFailure::WriteFailed))
            }
        },
        (CompState::ReadingManifest, EventModel::FileRead(f)) => match f {
            crate::fsops::FileReadModel::Missing => to_done(
                m,
                CompOutcome::Scaffolded { degraded: false, install_warning: m.install_warning },
            ),
            crate::fsops::FileReadModel::Unreadable => to_done(
                m,
                CompOutcome::Failed(CompFailure::ReadFailed),
            ),
            crate::fsops::FileReadModel::Content(c) => {
                let m1 = CompModel {
                    manifest: Some(
                        replace_all(
                            c,
                            content::default_scripts_block(),
                            content::dev_scripts_block(),
                        ),
                    ),
                    ..m
                };
                to_next(m1, CompState::WritingManifest)
            },
        },
        (CompState::WritingManifest, EventModel::Completed(ok)) => {
            if ok {
                to_done(
                    m,
                    CompOutcome::Scaffolded { degraded: false, install_warning: m.install_warning },
                )
            } else {
                to_done(m, CompOutcome::Failed(CompFailure::WriteFailed))
            }
        },
        (CompState::TryInstalling, EventModel::Ran(_)) => to_done(
            m,
            CompOutcome::Scaffolded { degraded: false, install_warning: m.install_warning },
        ),
        (CompState::RsVersion, EventModel::Ran(r)) => match r {
            RunResult::CouldNotStart => to_done(
                m,
                CompOutcome::Failed(CompFailure::ToolchainMissing),
            ),
            RunResult::Completed { .. } => to_next(m, CompState::RsNew),
        },
        (CompState::RsNew, EventModel::Ran(r)) => match r {
            RunResult::CouldNotStart => to_done(m, CompOutcome::Failed(CompFailure::LaunchFailed)),
            RunResult::Completed { success: false } => to_done(
                m,
                CompOutcome::Failed(CompFailure::GeneratorFailed),
            ),
            RunResult::Completed { success: true } => {
                let m1 = CompModel { known: m.known.insert(m.comp_dir()), ..m };
                to_done(
                    m1,
                    CompOutcome::Scaffolded {
                        degraded: false,
                        install_warning: m1.install_warning,
                    },
                )
            },
        },
        // unreachable under `expects`; any value completes the match
        _ => to_done(m, CompOutcome::Failed(CompFailure::LaunchFailed)),
    }
}

/// The plan a classification dispatches to.
pub open spec fn plan_of(c: Classification) -> Plan {
    match c {
        Classification::Known(s) => match s {
            Strategy::Django => Plan::Py(PyVariant::Django),
            Strategy::Flask => Plan::Py(PyVariant::Flask),
            Strategy::FastApi => Plan::Py(PyVariant::FastApi),
            Strategy::Pyramid => Plan::Py(PyVariant::Pyramid),
            Strategy::PythonGeneric => Plan::Py(PyVariant::Generic),
            Strategy::React => Plan::Js(JsVariant::React),
            Strategy::Vue => Plan::Js(JsVariant::Vue),
            Strategy::Svelte => Plan::Js(JsVariant::Svelte),
            Strategy::NodeExpress => Plan::Js(JsVariant::Express),
            Strategy::NextJs => Plan::Js(JsVariant::NextJs),
            Strategy::Nuxt => Plan::Js(JsVariant::Nuxt),
            Strategy::RustCrate => Plan::RustCrate,
        },
        Classification::Heuristic(e) => match e {
            Ecosystem::Python => Plan::Py(PyVariant::Generic),
            Ecosystem::Js => Plan::Js(JsVariant::Generic),
            Ecosystem::Compiled => Plan::NoScaffold,
        },
        Classification::Unknown => Plan::NoScaffold,
    }
}

/// The Python-family variant a technology string dispatches to when the
/// Python scaffolder is invoked directly.
pub open spec fn py_variant_of(t: Seq<char>) -> PyVariant {
    if eq_ci(t, "django"@) {
        PyVariant::Django
    } else if eq_ci(t, "flask"@) {
        PyVariant::Flask
    } else if eq_ci(t, "fastapi"@) {
        PyVariant::FastApi
    } else if eq_ci(t, "pyramid"@) {
        PyVariant::Pyramid
    } else {
        PyVariant::Generic
    }
}

/// The JavaScript-family variant a technology string dispatches to when the
/// JavaScript scaffolder is invoked directly.
pub open spec fn js_variant_of(t: Seq<char>) -> JsVariant {
    if eq_ci(t, "react"@) {
        JsVariant::React
    } else if eq_ci(t, "vue"@) {
        JsVariant::Vue
    } else if eq_ci(t, "svelte"@) {
        JsVariant::Svelte
    } else if eq_ci(t, "node"@) || eq_ci(t, "nodejs"@) || eq_ci(t, "express"@) {
        JsVariant::Express
    } else if eq_ci(t, "nextjs"@) || eq_ci(t, "next"@) {
        JsVariant::NextJs
    } else if eq_ci(t, "nuxt"@) {
        JsVariant::Nuxt
    } else {
        JsVariant::Generic
    }
}

/// A freshly started machine, before its first action is logged.
pub open spec fn spec_comp_init(
    project_dir: Seq<Seq<char>>,
    comp_name: Seq<char>,
    tech: Seq<char>,
    plan: Plan,
) -> CompModel {
    CompModel {
        project_dir,
        comp_name,
        tech,
        plan,
        tool: None,
        pkg_flags: Seq::empty(),
        install_warning: false,
        manifest: None,
        state: CompState::Probing { idx: 0 },
        log: Seq::empty(),
        known: Set::empty(),
    }
}

/// Starting a machine: an unscaffolded technology finishes at once; the
/// compiled plan probes its toolchain by running it; the others probe the
/// ecosystem's candidate tools.
pub open spec fn spec_comp_start(
    project_dir: Seq<Seq<char>>,
    comp_name: Seq<char>,
    tech: Seq<char>,
    plan: Plan,
) -> (CompModel, CompStepModel) {
    let base = spec_comp_init(project_dir, comp_name, tech, plan);
    match plan {
        Plan::NoScaffold => to_done(base, CompOutcome::NoScaffold),
        Plan::RustCrate => to_next(base, CompState::RsVersion),
        _ => to_next(base, CompState::Probing { idx: 0 }),
    }
}

/// Valid inputs for starting a machine: a non-empty project path whose last
/// segment (the project's name) is non-empty, and a non-empty component name
/// and technology.
pub open spec fn valid_start(
    project_dir: Seq<Seq<char>>,
    comp_name: Seq<char>,
    tech: Seq<char>,
) -> bool {
    &&& project_dir.len() > 0
    &&& project_dir.last().len() > 0
    &&& comp_name.len() > 0
    &&& tech.len() > 0
}

fn clone_path(v: &Vec<String>) -> (r: Vec<String>)
    ensures
        r@ == v@,
{
    let r = v.clone();
    proof {
        assert forall|i: int| 0 <= i < v@.len() implies r@[i] == v@[i] by {
            assert(cloned::<String>(v@[i], r@[i]));
        }
        assert(r@ =~= v@);
    }
    r
}

fn push_seg(v: &mut Vec<String>, s: String)
    ensures
        final(v)@ == old(v)@.push(s),
        final(v).deep_view() == old(v).deep_view().push(s@),
{
    let ghost svw = s@;
    v.push(s);
    proof {
        assert(final(v).deep_view() =~= old(v).deep_view().push(svw));
    }
}

impl CompMachine {
    /// The component's expected directory, as path segments.
    pub fn comp_dir_path(&self) -> (r: Vec<String>)
        ensures
            r.deep_view() == self@.comp_dir(),
    {
        let mut r = clone_path(&self.project_dir);
        push_seg(&mut r, self.comp_name.clone());
        r
    }

    /// The directory a project-named generator leaves its output in.
    pub fn gen_dir_path(&self) -> (r: Vec<String>)
        requires
            self.project_dir@.len() > 0,
        ensures
            r.deep_view() == self@.gen_dir(),
    {
        let mut r = clone_path(&self.project_dir);
        let pn = self.project_dir[self.project_dir.len() - 1].clone();
        push_seg(&mut r, pn);
        r
    }

    /// The component's package manifest, as path segments.
    pub fn manifest_file_path(&self) -> (r: Vec<String>)
        ensures
            r.deep_view() == self@.manifest_path(),
    {
        let mut r = self.comp_dir_path();
        push_seg(&mut r, String::from_str("package.json"));
        r
    }

    fn tool_name(&self) -> (r: String)
        requires
            self.tool is Some,
        ensures
            r@ == self@.the_tool(),
    {
        match &self.tool {
            Some(t) => t.clone(),
            None => vstd::pervasive::unreached(),
        }
    }

    /// How many packages the variant makes sure are installed.
    fn pkg_count(&self) -> (n: usize)
        ensures
            n == self@.pkgs().len(),
    {
        match self.plan {
            Plan::Py(PyVariant::Django) => 1,
            Plan::Py(PyVariant::Flask) => 1,
            Plan::Py(PyVariant::FastApi) => 2,
            Plan::Py(PyVariant::Pyramid) => 1,
            Plan::Py(PyVariant::Generic) => {
                if !str_eq(self.tech.as_str(), "python") && self.tech.as_str().unicode_len() > 0 {
                    1
                } else {
                    0
                }
            },
            _ => 0,
        }
    }

    fn pkg_name(&self, j: usize) -> (r: String)
        requires
            (j as int) < self@.pkgs().len(),
        ensures
            r@ == self@.pkgs()[j as int],
    {
        match self.plan {
            Plan::Py(PyVariant::Django) => String::from_str("django"),
            Plan::Py(PyVariant::Flask) => String::from_str("flask"),
            Plan::Py(PyVariant::FastApi) => {
                if j == 0 {
                    String::from_str("fastapi")
                } else {
                    String::from_str("uvicorn")
                }
            },
            Plan::Py(PyVariant::Pyramid) => String::from_str("pyramid"),
            Plan::Py(PyVariant::Generic) => self.tech.clone(),
            _ => vstd::pervasive::unreached(),
        }
    }

    /// How many stub files the variant writes.
    fn write_count(&self) -> (n: usize)
        ensures
            n == self@.write_items().len(),
    {
        match self.plan {
            Plan::Py(PyVariant::Django) => 1,
            Plan::Py(PyVariant::Flask) => 3,
            Plan::Py(PyVariant::FastApi) => 2,
            Plan::Py(PyVariant::Pyramid) => 2,
            Plan::Py(PyVariant::Generic) => 3,
            Plan::Js(JsVariant::Express) => 2,
            Plan::Js(JsVariant::Generic) => 1,
            _ => 0,
        }
    }

    fn write_item(&self, k: usize) -> (r: (String, String))
        requires
            (k as int) < self@.write_items().len(),
            self.plan is Py ==> self.pkg_flags@.len() == self@.pkgs().len(),
        ensures
            r.0@ == self@.write_items()[k as int].0,
            r.1@ == self@.write_items()[k as int].1,
    {
        match self.plan {
            Plan::Py(PyVariant::Django) => (
                String::from_str("requirements.txt"),
                content::django_requirements_text(),
            ),
            Plan::Py(PyVariant::Flask) => {
                if k == 0 {
                    (String::from_str("app.py"), content::flask_stub_text())
                } else if k == 1 {
                    (
                        String::from_str("requirements.txt"),
                        content::flask_requirements_text(self.pkg_flags[0]),
                    )
                } else {
                    (String::from_str(".env"), content::flask_env_text())
                }
            },
            Plan::Py(PyVariant::FastApi) => {
                if k == 0 {
                    (String::from_str("main.py"), content::fastapi_stub_text())
                } else {
                    (
                        String::from_str("requirements.txt"),
                        content::fastapi_requirements_text(self.pkg_flags[0] && self.pkg_flags[1]),
                    )
                }
            },
            Plan::Py(PyVariant::Pyramid) => {
                if k == 0 {
                    (String::from_str("app.py"), content::pyramid_stub_text())
                } else {
                    (
                        String::from_str("requirements.txt"),
                        content::pyramid_requirements_text(self.pkg_flags[0]),
                    )
                }
            },
            Plan::Py(PyVariant::Generic) => {
                if k == 0 {
                    (String::from_str("main.py"), content::py_generic_main_text(self.tech.as_str()))
                } else if k == 1 {
                    let named = self.pkg_count() > 0;
                    let installed = if named {
                        self.pkg_flags[0]
                    } else {
                        true
                    };
                    (
                        String::from_str("requirements.txt"),
                        content::py_generic_requirements_text(self.tech.as_str(), named, installed),
                    )
                } else {
                    (String::from_str("__init__.py"), String::new())
                }
            },
            Plan::Js(JsVariant::Express) => {
                if k == 0 {
                    (String::from_str("server.js"), content::express_server_text())
                } else {
                    (String::from_str(".env"), content::node_env_text())
                }
            },
            Plan::Js(JsVariant::Generic) => (
                String::from_str("index.js"),
                content::node_index_text(self.tech.as_str()),
            ),
            _ => vstd::pervasive::unreached(),
        }
    }
}

fn candidate_name(plan: Plan, idx: usize) -> (r: String)
    requires
        plan is Py || plan is Js,
        (idx as int) < probe_candidates(plan).len(),
    ensures
        r@ == probe_candidates(plan)[idx as int],
{
    match plan {
        Plan::Py(_) => {
            if idx == 0 {
                String::from_str("python3")
            } else {
                String::from_str("python")
            }
        },
        _ => {
            if idx == 0 {
                String::from_str("npm")
            } else if idx == 1 {
                String::from_str("yarn")
            } else {
                String::from_str("pnpm")
            }
        },
    }
}

fn push_lit(v: &mut Vec<String>, s: &str)
    ensures
        final(v).deep_view() == old(v).deep_view().push(s@),
{
    push_seg(v, String::from_str(s));
}

/// Build the generator invocation for the current plan.
fn generator_action_of(m: &CompMachine) -> (a: Action)
    requires
        m@.inv(),
        m.state is GenRunning,
    ensures
        a@ == m@.generator_action(),
{
    let project_name = m.project_dir[m.project_dir.len() - 1].clone();
    let dir = Some(clone_path(&m.project_dir));
    match m.plan {
        Plan::Py(PyVariant::Django) => {
            let mut args: Vec<String> = Vec::new();
            push_lit(&mut args, "startproject");
            push_seg(&mut args, project_name);
            proof {
                assert(args.deep_view() =~= seq!["startproject"@, m@.project_name()]);
            }
            let a = Action::RunTool { program: String::from_str("django-admin"), args, dir };
            proof {
                assert(a@ =~= m@.generator_action());
            }
            a
        },
        Plan::Js(JsVariant::React) => {
            let mut args: Vec<String> = Vec::new();
            push_lit(&mut args, "create");
            push_lit(&mut args, "vite@latest");
            push_seg(&mut args, project_name);
            push_lit(&mut args, "--");
            push_lit(&mut args, "--template");
            push_lit(&mut args, "react-ts");
            proof {
                assert(args.deep_view() =~= seq![
                    "create"@, "vite@latest"@, m@.project_name(), "--"@, "--template"@,
                    "react-ts"@,
                ]);
            }
            let a = Action::RunTool { program: m.tool_name(), args, dir };
            proof {
                assert(a@ =~= m@.generator_action());
            }
            a
        },
        Plan::Js(JsVariant::Vue) => {
            let mut args: Vec<String> = Vec::new();
            push_lit(&mut args, "create");
            push_lit(&mut args, "vue@latest");
            push_seg(&mut args, project_name);
            push_lit(&mut args, "--");
            push_lit(&mut args, "--typescript");
            push_lit(&mut args, "--router");
            push_lit(&mut args, "--pinia");
            push_lit(&mut args, "--vitest");
            push_lit(&mut args, "--eslint");
            proof {
                assert(args.deep_view() =~= seq![
                    "create"@, "vue@latest"@, m@.project_name(), "--"@, "--typescript"@,
                    "--router"@, "--pinia"@, "--vitest"@, "--eslint"@,
                ]);
            }
            let a = Action::RunTool { program: m.tool_name(), args, dir };
            proof {
                assert(a@ =~= m@.generator_action());
            }
            a
        },
        Plan::Js(JsVariant::Svelte) => {
            let mut args: Vec<String> = Vec::new();
            push_lit(&mut args, "create");
            push_lit(&mut args, "svelte@latest");
            push_seg(&mut args, project_name);
            push_lit(&mut args, "--");
            push_lit(&mut args, "--template");
            push_lit(&mut args, "skeleton");
            push_lit(&mut args, "--types");
            push_lit(&mut args, "typescript");
            push_lit(&mut args, "--prettier");
            push_lit(&mut args, "--eslint");
            proof {
                assert(args.deep_view() =~= seq![
                    "create"@, "svelte@latest"@, m@.project_name(), "--"@, "--template"@,
                    "skeleton"@, "--types"@, "typescript"@, "--prettier"@, "--eslint"@,
                ]);
            }
            let a = Action::RunTool { program: m.tool_name(), args, dir };
            proof {
                assert(a@ =~= m@.generator_action());
            }
            a
        },
        Plan::Js(JsVariant::NextJs) => {
            let mut args: Vec<String> = Vec::new();
            push_lit(&mut args, "create-next-app@latest");
            push_seg(&mut args, project_name);
            push_lit(&mut args, "--typescript");
            push_lit(&mut args, "--tailwind");
            push_lit(&mut args, "--eslint");
            push_lit(&mut args, "--app");
            push_lit(&mut args, "--src-dir");
            push_lit(&mut args, "--import-alias");
            push_lit(&mut args, "@/*");
            proof {
                assert(args.deep_view() =~= seq![
                    "create-next-app@latest"@, m@.project_name(), "--typescript"@, "--tailwind"@,
                    "--eslint"@, "--app"@, "--src-dir"@, "--import-alias"@, "@/*"@,
                ]);
            }
            let a = Action::RunTool { program: String::from_str("npx"), args, dir };
            proof {
                assert(a@ =~= m@.generator_action());
            }
            a
        },
        Plan::Js(JsVariant::Nuxt) => {
            let mut args: Vec<String> = Vec::new();
            push_lit(&mut args, "nuxi@latest");
            push_lit(&mut args, "init");
            push_seg(&mut args, project_name);
            proof {
                assert(args.deep_view() =~= seq!["nuxi@latest"@, "init"@, m@.project_name()]);
            }
            let a = Action::RunTool { program: String::from_str("npx"), args, dir };
            proof {
                assert(a@ =~= m@.generator_action());
            }
            a
        },
        _ => vstd::pervasive::unreached(),
    }
}

/// Build the action the machine's current state awaits.
fn action_for(m: &CompMachine) -> (a: Action)
    requires
        m@.inv(),
        !m@.finished(),
    ensures
        a@ == m@.pending_action(),
{
    match m.state {
        CompState::Probing { idx } => {
            let a = Action::CheckTool { name: candidate_name(m.plan, idx) };
            proof {
                assert(a@ =~= m@.pending_action());
            }
            a
        },
        CompState::FallbackCreating => {
            let a = Action::CreateDirAll { path: m.comp_dir_path() };
            proof {
                assert(a@ =~= m@.pending_action());
            }
            a
        },
        CompState::Creating => {
            let a = Action::CreateDirAll { path: m.comp_dir_path() };
            proof {
                assert(a@ =~= m@.pending_action());
            }
            a
        },
        CompState::Ensuring { j, stage } => match stage {
            EnsureStage::Show => {
                let mut args: Vec<String> = Vec::new();
                push_lit(&mut args, "-m");
                push_lit(&mut args, "pip");
                push_lit(&mut args, "show");
                push_seg(&mut args, m.pkg_name(j));
                proof {
                    assert(args.deep_view() =~= seq![
                        "-m"@, "pip"@, "show"@, m@.pkgs()[j as int],
                    ]);
                }
                let a = Action::RunTool { program: m.tool_name(), args, dir: None };
                proof {
                    assert(a@ =~= m@.pending_action());
                }
                a
            },
            EnsureStage::Ask => {
                let a = Action::AskInstall { package: m.pkg_name(j) };
                proof {
                    assert(a@ =~= m@.pending_action());
                }
                a
            },
            EnsureStage::Install => {
                let mut args: Vec<String> = Vec::new();
                push_lit(&mut args, "-m");
                push_lit(&mut args, "pip");
                push_lit(&mut args, "install");
                push_seg(&mut args, m.pkg_name(j));
                proof {
                    assert(args.deep_view() =~= seq![
                        "-m"@, "pip"@, "install"@, m@.pkgs()[j as int],
                    ]);
                }
                let a = Action::RunTool { program: m.tool_name(), args, dir: None };
                proof {
                    assert(a@ =~= m@.pending_action());
                }
                a
            },
        },
        CompState::GenRunning => generator_action_of(m),
        CompState::Recon { stage } => match stage {
            ReconStage::CheckGenerated => {
                let a = Action::CheckDirExists { path: m.gen_dir_path() };
                proof {
                    assert(a@ =~= m@.pending_action());
                }
                a
            },
            ReconStage::CheckExpected => {
                let a = Action::CheckDirExists { path: m.comp_dir_path() };
                proof {
                    assert(a@ =~= m@.pending_action());
                }
                a
            },
            ReconStage::Renaming => {
                let a = Action::Rename { from: m.gen_dir_path(), to: m.comp_dir_path() };
                proof {
                    assert(a@ =~= m@.pending_action());
                }
                a
            },
            ReconStage::Ensuring => {
                let a = Action::CreateDirAll { path: m.comp_dir_path() };
                proof {
                    assert(a@ =~= m@.pending_action());
                }
                a
            },
        },
        CompState::Installing => {
            let mut args: Vec<String> = Vec::new();
            push_lit(&mut args, "install");
            proof {
                assert(args.deep_view() =~= seq!["install"@]);
            }
            let a = Action::RunTool {
                program: m.tool_name(),
                args,
                dir: Some(m.comp_dir_path()),
            };
            proof {
                assert(a@ =~= m@.pending_action());
            }
            a
        },
        CompState::NpmInit => {
            let mut args: Vec<String> = Vec::new();
            push_lit(&mut args, "init");
            push_lit(&mut args, "-y");
            proof {
                assert(args.deep_view() =~= seq!["init"@, "-y"@]);
            }
            let a = Action::RunTool {
                program: m.tool_name(),
                args,
                dir: Some(m.comp_dir_path()),
            };
            proof {
                assert(a@ =~= m@.pending_action());
            }
            a
        },
        CompState::InstallingDeps => {
            let mut args: Vec<String> = Vec::new();
            push_lit(&mut args, "install");
            push_lit(&mut args, "express");
            push_lit(&mut args, "cors");
            push_lit(&mut args, "helmet");
            push_lit(&mut args, "dotenv");
            proof {
                assert(args.deep_view() =~= seq![
                    "install"@, "express"@, "cors"@, "helmet"@, "dotenv"@,
                ]);
            }
            let a = Action::RunTool {
                program: m.tool_name(),
                args,
                dir: Some(m.comp_dir_path()),
            };
            proof {
                assert(a@ =~= m@.pending_action());
            }
            a
        },
        CompState::InstallingDevDeps => {
            let mut args: Vec<String> = Vec::new();
            push_lit(&mut args, "install");
            push_lit(&mut args, "--save-dev");
            push_lit(&mut args, "nodemon");
            push_lit(&mut args, "@types/node");
            push_lit(&mut args, "@types/express");
            proof {
                assert(args.deep_view() =~= seq![
                    "install"@, "--save-dev"@, "nodemon"@, "@types/node"@, "@types/express"@,
                ]);
            }
            let a = Action::RunTool {
                program: m.tool_name(),
                args,
                dir: Some(m.comp_dir_path()),
            };
            proof {
                assert(a@ =~= m@.pending_action());
            }
            a
        },
        CompState::WritingFiles { k } => {
            let item = m.write_item(k);
            let mut path = m.comp_dir_path();
            push_seg(&mut path, item.0);
            let a = Action::WriteFile { path, content: item.1 };
            proof {
                assert(a@ =~= m@.pending_action());
            }
            a
        },
        CompState::ReadingManifest => {
            let a = Action::ReadFile { path: m.manifest_file_path() };
            proof {
                assert(a@ =~= m@.pending_action());
            }
            a
        },
        CompState::WritingManifest => {
            let c = match &m.manifest {
                Some(c) => c.clone(),
                None => vstd::pervasive::unreached(),
            };
            let a = Action::WriteFile { path: m.manifest_file_path(), content: c };
            proof {
                assert(a@ =~= m@.pending_action());
            }
            a
        },
        CompState::TryInstalling => {
            let mut args: Vec<String> = Vec::new();
            push_lit(&mut args, "install");
            push_seg(&mut args, m.tech.clone());
            proof {
                assert(args.deep_view() =~= seq!["install"@, m@.tech]);
            }
            let a = Action::RunTool {
                program: m.tool_name(),
                args,
                dir: Some(m.comp_dir_path()),
            };
            proof {
                assert(a@ =~= m@.pending_action());
            }
            a
        },
        CompState::RsVersion => {
            let mut args: Vec<String> = Vec::new();
            push_lit(&mut args, "--version");
            proof {
                assert(args.deep_view() =~= seq!["--version"@]);
            }
            let a = Action::RunTool { program: String::from_str("cargo"), args, dir: None };
            proof {
                assert(a@ =~= m@.pending_action());
            }
            a
        },
        CompState::RsNew => {
            let mut args: Vec<String> = Vec::new();
            push_lit(&mut args, "new");
            push_seg(&mut args, m.comp_name.clone());
            proof {
                assert(args.deep_view() =~= seq!["new"@, m@.comp_name]);
            }
            let a = Action::RunTool {
                program: String::from_str("cargo"),
                args,
                dir: Some(clone_path(&m.project_dir)),
            };
            proof {
                assert(a@ =~= m@.pending_action());
            }
            a
        },
        CompState::Finished { .. } => vstd::pervasive::unreached(),
    }
}

/// Move the machine into a new waiting state and issue that state's action.
fn go(m: CompMachine, target: CompState) -> (r: (CompMachine, CompStep))
    requires
        (CompModel { state: target, ..m@ }).inv(),
        !(target is Finished),
    ensures
        (r.0@, r.1@) == to_next(m@, target),
        r.0@.inv(),
{
    let mut n = m;
    n.state = target;
    let a = action_for(&n);
    proof {
        assert(n@ == CompModel { state: target, ..m@ });
    }
    n.log = Ghost(n.log@ + seq![a@]);
    proof {
        assert(n@ =~= to_next(m@, target).0);
    }
    (n, CompStep::Next(a))
}

/// Finish the machine with an outcome.
fn finish(m: CompMachine, outcome: CompOutcome) -> (r: (CompMachine, CompStep))
    requires
        (CompModel { state: CompState::Finished { outcome }, ..m@ }).inv(),
    ensures
        (r.0@, r.1@) == to_done(m@, outcome),
        r.0@.inv(),
{
    let mut n = m;
    n.state = CompState::Finished { outcome };
    proof {
        assert(n@ =~= to_done(m@, outcome).0);
    }
    (n, CompStep::Done(outcome))
}

fn probe_len(plan: Plan) -> (n: usize)
    ensures
        n == probe_candidates(plan).len(),
{
    match plan {
        Plan::Py(_) => 2,
        Plan::Js(_) => 3,
        _ => 0,
    }
}

fn after_probe_state(plan: Plan) -> (s: CompState)
    ensures
        s == after_probe(plan),
{
    match plan {
        Plan::Py(PyVariant::Django) => CompState::Ensuring { j: 0, stage: EnsureStage::Show },
        Plan::Py(_) => CompState::Creating,
        Plan::Js(JsVariant::Express) => CompState::Creating,
        Plan::Js(JsVariant::Generic) => CompState::Creating,
        Plan::Js(_) => CompState::GenRunning,
        _ => CompState::FallbackCreating,
    }
}

fn do_after_ensure(m: CompMachine, j: usize, ok: bool) -> (r: (CompMachine, CompStep))
    requires
        m@.inv(),
        m@.state matches CompState::Ensuring { j: jj, stage: _ } && jj == j,
    ensures
        (r.0@, r.1@) == after_ensure(m@, j, ok),
        r.0@.inv(),
{
    let mut n = m;
    n.pkg_flags.push(ok);
    let count = n.pkg_count();
    if j + 1 < count {
        go(n, CompState::Ensuring { j: j + 1, stage: EnsureStage::Show })
    } else {
        let django = match n.plan {
            Plan::Py(PyVariant::Django) => true,
            _ => false,
        };
        if django {
            if ok {
                go(n, CompState::GenRunning)
            } else {
                go(n, CompState::FallbackCreating)
            }
        } else {
            go(n, CompState::WritingFiles { k: 0 })
        }
    }
}

fn do_after_recon(m: CompMachine) -> (r: (CompMachine, CompStep))
    requires
        m@.project_dir.len() > 0,
        m@.project_name().len() > 0,
        m@.comp_name.len() > 0,
        m@.tech.len() > 0,
        m@.tool is Some,
        m@.known.contains(m@.comp_dir()),
        match m@.plan {
            Plan::Py(v) => v is Django && m@.pkg_flags.len() == 1,
            Plan::Js(v) => !(v is Express) && !(v is Generic),
            _ => false,
        },
    ensures
        (r.0@, r.1@) == after_recon(m@),
        r.0@.inv(),
{
    match m.plan {
        Plan::Py(PyVariant::Django) => go(m, CompState::WritingFiles { k: 0 }),
        Plan::Js(JsVariant::NextJs) => {
            let w = m.install_warning;
            finish(m, CompOutcome::Scaffolded { degraded: false, install_warning: w })
        },
        _ => go(m, CompState::Installing),
    }
}

fn do_after_writes(m: CompMachine) -> (r: (CompMachine, CompStep))
    requires
        m@.project_dir.len() > 0,
        m@.project_name().len() > 0,
        m@.comp_name.len() > 0,
        m@.tech.len() > 0,
        m@.known.contains(m@.comp_dir()),
        match m@.plan {
            Plan::Py(_) => true,
            Plan::Js(v) => (v is Express || v is Generic) && m@.tool is Some,
            _ => false,
        },
    ensures
        (r.0@, r.1@) == after_writes(m@),
        r.0@.inv(),
{
    let express = match m.plan {
        Plan::Js(JsVariant::Express) => true,
        _ => false,
    };
    let generic_js = match m.plan {
        Plan::Js(JsVariant::Generic) => true,
        _ => false,
    };
    if express {
        go(m, CompState::ReadingManifest)
    } else if generic_js {
        if crate::classify::is_likely_node_package(m.tech.as_str()) {
            go(m, CompState::TryInstalling)
        } else {
            let w = m.install_warning;
            finish(m, CompOutcome::Scaffolded { degraded: false, install_warning: w })
        }
    } else {
        let w = m.install_warning;
        finish(m, CompOutcome::Scaffolded { degraded: false, install_warning: w })
    }
}

/// One step of the component machine: consume the answer to the previous
/// action, move on, and return the next action or the outcome.
#[verifier::rlimit(100)]
#[verifier::spinoff_prover]
pub fn comp_step(m: CompMachine, ev: Event) -> (r: (CompMachine, CompStep))
    requires
        m@.inv(),
        !m@.finished(),
        m@.expects(ev@),
    ensures
        (r.0@, r.1@) == spec_comp_step(m@, ev@),
        r.0@.inv(),
        r.0@.project_dir == m@.project_dir,
        r.0@.comp_name == m@.comp_name,
        r.0@.tech == m@.tech,
        r.1@ matches CompStepModel::Done(o) ==> !(o is NoScaffold),
{
    let ghost m0 = m@;
    let mut n = m;
    match (n.state, ev) {
        (CompState::Probing { idx }, Event::ToolFound(found)) => {
            if found {
                n.tool = Some(candidate_name(n.plan, idx));
                proof {
                    assert(n@ == CompModel {
                        tool: Some(probe_candidates(m0.plan)[idx as int]),
                        ..m0
                    });
                }
                let target = after_probe_state(n.plan);
                go(n, target)
            } else {
                let len = probe_len(n.plan);
                if idx + 1 < len {
                    go(n, CompState::Probing { idx: idx + 1 })
                } else {
                    go(n, CompState::FallbackCreating)
                }
            }
        },
        (CompState::FallbackCreating, Event::Completed(ok)) => {
            if ok {
                n.known = Ghost(n.known@.insert(n@.comp_dir()));
                let w = n.install_warning;
                finish(n, CompOutcome::Scaffolded { degraded: true, install_warning: w })
            } else {
                finish(n, CompOutcome::Failed(CompFailure::DirCreateFailed))
            }
        },
        (CompState::Creating, Event::Completed(ok)) => {
            if ok {
                n.known = Ghost(n.known@.insert(n@.comp_dir()));
                let npm = match n.plan {
                    Plan::Js(JsVariant::Express) => true,
                    Plan::Js(JsVariant::Generic) => true,
                    _ => false,
                };
                if npm {
                    go(n, CompState::NpmInit)
                } else {
                    let count = n.pkg_count();
                    if count == 0 {
                        go(n, CompState::WritingFiles { k: 0 })
                    } else {
                        go(n, CompState::Ensuring { j: 0, stage: EnsureStage::Show })
                    }
                }
            } else {
                finish(n, CompOutcome::Failed(CompFailure::DirCreateFailed))
            }
        },
        (CompState::Ensuring { j, stage }, ev) => match (stage, ev) {
            (EnsureStage::Show, Event::Ran(rr)) => match rr {
                RunResult::Completed { success: true } => do_after_ensure(n, j, true),
                _ => go(n, CompState::Ensuring { j, stage: EnsureStage::Ask }),
            },
            (EnsureStage::Ask, Event::Answer(yes)) => {
                if yes {
                    go(n, CompState::Ensuring { j, stage: EnsureStage::Install })
                } else {
                    do_after_ensure(n, j, false)
                }
            },
            (EnsureStage::Install, Event::Ran(rr)) => match rr {
                RunResult::Completed { success } => do_after_ensure(n, j, success),
                RunResult::CouldNotStart => finish(
                    n,
                    CompOutcome::Failed(CompFailure::LaunchFailed),
                ),
            },
            _ => vstd::pervasive::unreached(),
        },
        (CompState::GenRunning, Event::Ran(rr)) => match rr {
            RunResult::CouldNotStart => finish(n, CompOutcome::Failed(CompFailure::LaunchFailed)),
            RunResult::Completed { success } => {
                if !success {
                    finish(n, CompOutcome::Failed(CompFailure::GeneratorFailed))
                } else {
                    let pn = &n.project_dir[n.project_dir.len() - 1];
                    if str_eq(pn.as_str(), n.comp_name.as_str()) {
                        go(n, CompState::Recon { stage: ReconStage::Ensuring })
                    } else {
                        go(n, CompState::Recon { stage: ReconStage::CheckGenerated })
                    }
                }
            },
        },
        (CompState::Recon { stage }, ev) => match (stage, ev) {
            (ReconStage::CheckGenerated, Event::DirExists(ex)) => {
                if ex {
                    n.known = Ghost(n.known@.insert(n@.gen_dir()));
                    go(n, CompState::Recon { stage: ReconStage::CheckExpected })
                } else {
                    go(n, CompState::Recon { stage: ReconStage::Ensuring })
                }
            },
            (ReconStage::CheckExpected, Event::DirExists(ex)) => {
                if ex {
                    n.known = Ghost(n.known@.insert(n@.comp_dir()));
                    finish(n, CompOutcome::Failed(CompFailure::NamingCollision))
                } else {
                    go(n, CompState::Recon { stage: ReconStage::Renaming })
                }
            },
            (ReconStage::Renaming, Event::Completed(ok)) => {
                if ok {
                    n.known = Ghost(n.known@.remove(n@.gen_dir()).insert(n@.comp_dir()));
                    do_after_recon(n)
                } else {
                    finish(n, CompOutcome::Failed(CompFailure::RenameFailed))
                }
            },
            (ReconStage::Ensuring, Event::Completed(ok)) => {
                if ok {
                    n.known = Ghost(n.known@.insert(n@.comp_dir()));
                    do_after_recon(n)
                } else {
                    finish(n, CompOutcome::Failed(CompFailure::DirCreateFailed))
                }
            },
            _ => vstd::pervasive::unreached(),
        },
        (CompState::Installing, Event::Ran(rr)) => match rr {
            RunResult::CouldNotStart => finish(n, CompOutcome::Failed(CompFailure::LaunchFailed)),
            RunResult::Completed { success } => {
                n.install_warning = n.install_warning || !success;
                let w = n.install_warning;
                finish(n, CompOutcome::Scaffolded { degraded: false, install_warning: w })
            },
        },
        (CompState::NpmInit, Event::Ran(rr)) => match rr {
            RunResult::CouldNotStart => finish(n, CompOutcome::Failed(CompFailure::LaunchFailed)),
            RunResult::Completed { success } => {
                if !success {
                    finish(n, CompOutcome::Failed(CompFailure::InitFailed))
                } else {
                    let express = match n.plan {
                        Plan::Js(JsVariant::Express) => true,
                        _ => false,
                    };
                    if express {
                        go(n, CompState::InstallingDeps)
                    } else {
                        go(n, CompState::WritingFiles { k: 0 })
                    }
                }
            },
        },
        (CompState::InstallingDeps, Event::Ran(rr)) => match rr {
            RunResult::CouldNotStart => finish(n, CompOutcome::Failed(CompFailure::LaunchFailed)),
            RunResult::Completed { success } => {
                n.install_warning = n.install_warning || !success;
                go(n, CompState::InstallingDevDeps)
            },
        },
        (CompState::InstallingDevDeps, Event::Ran(_)) => {
            go(n, CompState::WritingFiles { k: 0 })
        },
        (CompState::WritingFiles { k }, Event::Completed(ok)) => {
            if ok {
                let count = n.write_count();
                if k + 1 < count {
                    go(n, CompState::WritingFiles { k: k + 1 })
                } else {
                    do_after_writes(n)
                }
            } else {
                finish(n, CompOutcome::Failed(CompFailure::WriteFailed))
            }
        },
        (CompState::ReadingManifest, Event::FileRead(f)) => match f {
            FileReadResult::Missing => {
                let w = n.install_warning;
                finish(n, CompOutcome::Scaffolded { degraded: false, install_warning: w })
            },
            FileReadResult::Unreadable => finish(n, CompOutcome::Failed(CompFailure::ReadFailed)),
            FileReadResult::Content(c) => {
                let pat = content::default_scripts_block_text();
                let rep = content::dev_scripts_block_text();
                let rewritten = crate::text::replace_text(c.as_str(), pat.as_str(), rep.as_str());
                n.manifest = Some(rewritten);
                go(n, CompState::WritingManifest)
            },
        },
        (CompState::WritingManifest, Event::Completed(ok)) => {
            if ok {
                let w = n.install_warning;
                finish(n, CompOutcome::Scaffolded { degraded: false, install_warning: w })
            } else {
                finish(n, CompOutcome::Failed(CompFailure::WriteFailed))
            }
        },
        (CompState::TryInstalling, Event::Ran(_)) => {
            let w = n.install_warning;
            finish(n, CompOutcome::Scaffolded { degraded: false, install_warning: w })
        },
        (CompState::RsVersion, Event::Ran(rr)) => match rr {
            RunResult::CouldNotStart => finish(
                n,
                CompOutcome::Failed(CompFailure::ToolchainMissing),
            ),
            RunResult::Completed { .. } => go(n, CompState::RsNew),
        },
        (CompState::RsNew, Event::Ran(rr)) => match rr {
            RunResult::CouldNotStart => finish(n, CompOutcome::Failed(CompFailure::LaunchFailed)),
            RunResult::Completed { success } => {
                if success {
                    n.known = Ghost(n.known@.insert(n@.comp_dir()));
                    let w = n.install_warning;
                    finish(n, CompOutcome::Scaffolded { degraded: false, install_warning: w })
                } else {
                    finish(n, CompOutcome::Failed(CompFailure::GeneratorFailed))
                }
            },
        },
        _ => vstd::pervasive::unreached(),
    }
}

fn start_machine(project_dir: Vec<String>, component_name: &str, tech: &str, plan: Plan) -> (r: (
    CompMachine,
    CompStep,
))
    requires
        valid_start(project_dir.deep_view(), component_name@, tech@),
    ensures
        (r.0@, r.1@) == spec_comp_start(project_dir.deep_view(), component_name@, tech@, plan),
        r.0@.inv(),
{
    let ghost pd = project_dir.deep_view();
    let n = CompMachine {
        project_dir,
        comp_name: String::from_str(component_name),
        tech: String::from_str(tech),
        plan,
        tool: None,
        pkg_flags: Vec::new(),
        install_warning: false,
        manifest: None,
        state: CompState::Probing { idx: 0 },
        log: Ghost(Seq::empty()),
        known: Ghost(Set::empty()),
    };
    proof {
        assert(n@ =~= spec_comp_init(pd, component_name@, tech@, plan));
    }
    match plan {
        Plan::NoScaffold => finish(n, CompOutcome::NoScaffold),
        Plan::RustCrate => go(n, CompState::RsVersion),
        _ => go(n, CompState::Probing { idx: 0 }),
    }
}

fn plan_for(c: Classification) -> (p: Plan)
    ensures
        p == plan_of(c),
{
    match c {
        Classification::Known(s) => match s {
            Strategy::Django => Plan::Py(PyVariant::Django),
            Strategy::Flask => Plan::Py(PyVariant::Flask),
            Strategy::FastApi => Plan::Py(PyVariant::FastApi),
            Strategy::Pyramid => Plan::Py(PyVariant::Pyramid),
            Strategy::PythonGeneric => Plan::Py(PyVariant::Generic),
            Strategy::React => Plan::Js(JsVariant::React),
            Strategy::Vue => Plan::Js(JsVariant::Vue),
            Strategy::Svelte => Plan::Js(JsVariant::Svelte),
            Strategy::NodeExpress => Plan::Js(JsVariant::Express),
            Strategy::NextJs => Plan::Js(JsVariant::NextJs),
            Strategy::Nuxt => Plan::Js(JsVariant::Nuxt),
            Strategy::RustCrate => Plan::RustCrate,
        },
        Classification::Heuristic(e) => match e {
            Ecosystem::Python => Plan::Py(PyVariant::Generic),
            Ecosystem::Js => Plan::Js(JsVariant::Generic),
            Ecosystem::Compiled => Plan::NoScaffold,
        },
        Classification::Unknown => Plan::NoScaffold,
    }
}

/// Scaffold one component: classify its technology and start the matching
/// machine.  The caller drives the machine: it performs each action, answers
/// with the matching event through [`comp_step`], and stops at
/// [`CompStep::Done`].
pub fn scaffold_component(project_dir: Vec<String>, component_name: &str, tech: &str) -> (r: (
    CompMachine,
    CompStep,
))
    requires
        valid_start(project_dir.deep_view(), component_name@, tech@),
    ensures
        (r.0@, r.1@) == spec_comp_start(
            project_dir.deep_view(),
            component_name@,
            tech@,
            plan_of(spec_classify(tech@)),
        ),
        r.0@.inv(),
{
    let c = classify(tech);
    let plan = plan_for(c);
    start_machine(project_dir, component_name, tech, plan)
}

fn py_variant_for(tech: &str) -> (v: PyVariant)
    ensures
        v == py_variant_of(tech@),
{
    if crate::text::str_eq_ci(tech, "django") {
        PyVariant::Django
    } else if crate::text::str_eq_ci(tech, "flask") {
        PyVariant::Flask
    } else if crate::text::str_eq_ci(tech, "fastapi") {
        PyVariant::FastApi
    } else if crate::text::str_eq_ci(tech, "pyramid") {
        PyVariant::Pyramid
    } else {
        PyVariant::Generic
    }
}

fn js_variant_for(tech: &str) -> (v: JsVariant)
    ensures
        v == js_variant_of(tech@),
{
    if crate::text::str_eq_ci(tech, "react") {
        JsVariant::React
    } else if crate::text::str_eq_ci(tech, "vue") {
        JsVariant::Vue
    } else if crate::text::str_eq_ci(tech, "svelte") {
        JsVariant::Svelte
    } else if crate::text::str_eq_ci(tech, "node") || crate::text::str_eq_ci(tech, "nodejs")
        || crate::text::str_eq_ci(tech, "express") {
        JsVariant::Express
    } else if crate::text::str_eq_ci(tech, "nextjs") || crate::text::str_eq_ci(tech, "next") {
        JsVariant::NextJs
    } else if crate::text::str_eq_ci(tech, "nuxt") {
        JsVariant::Nuxt
    } else {
        JsVariant::Generic
    }
}

/// Scaffold a component with the Python-family scaffolder, whatever the
/// technology string dispatches to within that family.
pub fn scaffold_python_project(project_dir: Vec<String>, component_name: &str, tech: &str) -> (r: (
    CompMachine,
    CompStep,
))
    requires
        valid_start(project_dir.deep_view(), component_name@, tech@),
    ensures
        (r.0@, r.1@) == spec_comp_start(
            project_dir.deep_view(),
            component_name@,
            tech@,
            Plan::Py(py_variant_of(tech@)),
        ),
        r.0@.inv(),
{
    let v = py_variant_for(tech);
    start_machine(project_dir, component_name, tech, Plan::Py(v))
}

/// Scaffold a component with the JavaScript-family scaffolder, whatever the
/// technology string dispatches to within that family.
pub fn scaffold_js_project(project_dir: Vec<String>, component_name: &str, tech: &str) -> (r: (
    CompMachine,
    CompStep,
))
    requires
        valid_start(project_dir.deep_view(), component_name@, tech@),
    ensures
        (r.0@, r.1@) == spec_comp_start(
            project_dir.deep_view(),
            component_name@,
            tech@,
            Plan::Js(js_variant_of(tech@)),
        ),
        r.0@.inv(),
{
    let v = js_variant_for(tech);
    start_machine(project_dir, component_name, tech, Plan::Js(v))
}

} // verus!
