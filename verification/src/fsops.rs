//! The engine's interface to the outside world: one [`Action`] at a time is
//! handed to a driver, which performs it (against the real filesystem and
//! toolchains, or against a script in tests) and answers with one [`Event`].
//!
//! Paths are sequences of segments; the driver joins them with the platform's
//! separator.  The engine never deletes anything: the only mutating actions
//! are directory creation, one atomic rename and file writes.

use vstd::prelude::*;

verus! {

/// What the driver is asked to do next.
#[derive(Debug, Clone, PartialEq, Eq)]
pub enum Action {
    /// Report whether a directory exists.  Answered by [`Event::DirExists`].
    CheckDirExists { path: Vec<String> },
    /// Create a directory, failing if the parent is missing.
    /// Answered by [`Event::Completed`].
    CreateDir { path: Vec<String> },
    /// Create a directory and any missing parents; succeeds if it already
    /// exists.  Answered by [`Event::Completed`].
    CreateDirAll { path: Vec<String> },
    /// Atomically rename a directory.  Answered by [`Event::Completed`].
    Rename { from: Vec<String>, to: Vec<String> },
    /// Write a file, replacing what was there.  Answered by
    /// [`Event::Completed`].
    WriteFile { path: Vec<String>, content: String },
    /// Read a file.  Answered by [`Event::FileRead`].
    ReadFile { path: Vec<String> },
    /// Report whether an executable resolves on the execution path.
    /// Answered by [`Event::ToolFound`].
    CheckTool { name: String },
    /// Run a command, blocking, in the given working directory (`None`: the
    /// process's own), and report how it went.  Answered by [`Event::Ran`].
    RunTool { program: String, args: Vec<String>, dir: Option<Vec<String>> },
    /// Ask whether a package should be installed.  Answered by
    /// [`Event::Answer`].
    AskInstall { package: String },
}

/// How a [`Action::RunTool`] went.
#[derive(Clone, Copy, Debug, PartialEq, Eq, Structural)]
pub enum RunResult {
    /// The command ran to completion; `success` is its exit status.
    Completed { success: bool },
    /// The command could not be started at all.
    CouldNotStart,
}

/// How a [`Action::ReadFile`] went.
#[derive(Debug, Clone, PartialEq, Eq)]
pub enum FileReadResult {
    /// The file does not exist.
    Missing,
    /// The file exists but could not be read.
    Unreadable,
    /// The file's content.
    Content(String),
}

/// The driver's answer to the latest [`Action`].
#[derive(Debug, Clone, PartialEq, Eq)]
pub enum Event {
    DirExists(bool),
    Completed(bool),
    ToolFound(bool),
    Ran(RunResult),
    Answer(bool),
    FileRead(FileReadResult),
}

/// Model of an [`Action`]: the same shape over sequences.
#[verifier::ext_equal]
pub ghost enum ActionModel {
    CheckDirExists { path: Seq<Seq<char>> },
    CreateDir { path: Seq<Seq<char>> },
    CreateDirAll { path: Seq<Seq<char>> },
    Rename { from: Seq<Seq<char>>, to: Seq<Seq<char>> },
    WriteFile { path: Seq<Seq<char>>, content: Seq<char> },
    ReadFile { path: Seq<Seq<char>> },
    CheckTool { name: Seq<char> },
    RunTool { program: Seq<char>, args: Seq<Seq<char>>, dir: Option<Seq<Seq<char>>> },
    AskInstall { package: Seq<char> },
}

impl View for Action {
    type V = ActionModel;

    open spec fn view(&self) -> ActionModel {
        match self {
            Action::CheckDirExists { path } => ActionModel::CheckDirExists {
                path: path.deep_view(),
            },
            Action::CreateDir { path } => ActionModel::CreateDir { path: path.deep_view() },
            Action::CreateDirAll { path } => ActionModel::CreateDirAll { path: path.deep_view() },
            Action::Rename { from, to } => ActionModel::Rename {
                from: from.deep_view(),
                to: to.deep_view(),
            },
            Action::WriteFile { path, content } => ActionModel::WriteFile {
                path: path.deep_view(),
                content: content@,
            },
            Action::ReadFile { path } => ActionModel::ReadFile { path: path.deep_view() },
            Action::CheckTool { name } => ActionModel::CheckTool { name: name@ },
            Action::RunTool { program, args, dir } => ActionModel::RunTool {
                program: program@,
                args: args.deep_view(),
                dir: match dir {
                    Some(d) => Some(d.deep_view()),
                    None => None,
                },
            },
            Action::AskInstall { package } => ActionModel::AskInstall { package: package@ },
        }
    }
}

/// Model of a [`FileReadResult`].
#[verifier::ext_equal]
pub ghost enum FileReadModel {
    Missing,
    Unreadable,
    Content(Seq<char>),
}

impl View for FileReadResult {
    type V = FileReadModel;

    open spec fn view(&self) -> FileReadModel {
        match self {
            FileReadResult::Missing => FileReadModel::Missing,
            FileReadResult::Unreadable => FileReadModel::Unreadable,
            FileReadResult::Content(s) => FileReadModel::Content(s@),
        }
    }
}

/// Model of an [`Event`].
#[verifier::ext_equal]
pub ghost enum EventModel {
    DirExists(bool),
    Completed(bool),
    ToolFound(bool),
    Ran(RunResult),
    Answer(bool),
    FileRead(FileReadModel),
}

impl View for Event {
    type V = EventModel;

    open spec fn view(&self) -> EventModel {
        match self {
            Event::DirExists(b) => EventModel::DirExists(*b),
            Event::Completed(b) => EventModel::Completed(*b),
            Event::ToolFound(b) => EventModel::ToolFound(*b),
            Event::Ran(r) => EventModel::Ran(*r),
            Event::Answer(b) => EventModel::Answer(*b),
            Event::FileRead(f) => EventModel::FileRead(f@),
        }
    }
}

/// Does the action change the filesystem?  Only directory creation, the
/// reconciliation rename and file writes do; everything else is a query, a
/// child process outside the project directory's tree semantics, or a prompt.
pub open spec fn is_mutation(a: ActionModel) -> bool {
    match a {
        ActionModel::CreateDir { .. } => true,
        ActionModel::CreateDirAll { .. } => true,
        ActionModel::Rename { .. } => true,
        ActionModel::WriteFile { .. } => true,
        _ => false,
    }
}

/// The mutating actions of a log, in order.
pub open spec fn mutations(log: Seq<ActionModel>) -> Seq<ActionModel> {
    log.filter(|a: ActionModel| is_mutation(a))
}

/// Is a rename among the actions?
pub open spec fn no_renames(log: Seq<ActionModel>) -> bool {
    forall|i: int| 0 <= i < log.len() ==> !(log[i] is Rename)
}

/// If the action mutates the filesystem, it does so only at or below the
/// given root directory.
pub open spec fn confined_to(a: ActionModel, root: Seq<Seq<char>>) -> bool {
    match a {
        ActionModel::CreateDir { path } => root.is_prefix_of(path),
        ActionModel::CreateDirAll { path } => root.is_prefix_of(path),
        ActionModel::WriteFile { path, .. } => root.is_prefix_of(path),
        ActionModel::Rename { from, to } => root.is_prefix_of(from) && root.is_prefix_of(to),
        _ => true,
    }
}

/// No action of an empty log mutates anything.
pub proof fn lemma_mutations_empty()
    ensures
        mutations(Seq::empty()) == Seq::<ActionModel>::empty(),
{
    reveal(Seq::filter);
}

/// Appending one action appends it to the mutations exactly when it mutates.
pub proof fn lemma_mutations_push(log: Seq<ActionModel>, a: ActionModel)
    ensures
        is_mutation(a) ==> mutations(log.push(a)) == mutations(log).push(a),
        !is_mutation(a) ==> mutations(log.push(a)) == mutations(log),
{
    reveal(Seq::filter);
    assert(log.push(a).drop_last() =~= log);
    assert(log.push(a).last() == a);
}

} // verus!
