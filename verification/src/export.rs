//! The decisions of an export run.
//!
//! An export run clears the output directory, creates it anew and exports each
//! record definition into it, one after the other. The run itself never touches
//! the file system: it names the next [`Action`], the caller performs it and
//! reports the outcome as an [`Event`], and [`ExportRun::step`] answers with the
//! action after that. The first failure ends the run; nothing is retried and
//! nothing is undone.

use vstd::prelude::*;
use crate::path::{join, joined};
use crate::record::{RecordDefinition, RecordView, record_views};

verus! {

/// The environment variable that names the project root.
pub const ROOT_VARIABLE: &'static str = "CARGO_MANIFEST_DIR";

/// The name of the output directory, below the project root.
pub const OUTPUT_DIR_NAME: &'static str = "generated-types";

/// How a run describes the failure when an event does not answer the action it
/// is waiting on.
pub const UNEXPECTED_EVENT: &'static str = "event does not answer the pending action";

/// What the caller is asked to do next.
#[derive(Debug, PartialEq, Eq)]
pub enum Action {
    /// Read the project root from the environment variable [`ROOT_VARIABLE`];
    /// answered by [`Event::Root`], or by [`Event::Failed`] where it is not set.
    ReadRoot,
    /// Find out whether anything exists at `dir`; answered by [`Event::Exists`].
    Probe { dir: String },
    /// Remove `dir` and everything beneath it; answered by [`Event::Done`].
    RemoveAll { dir: String },
    /// Create `dir` and the directories above it that are missing; answered by
    /// [`Event::Done`].
    CreateAll { dir: String },
    /// Write the declaration of `record` into `dir`; answered by [`Event::Done`].
    Export { dir: String, record: RecordDefinition },
    /// The run is complete.
    Finish,
    /// The run has failed; `description` is that of the failure.
    Abort { description: String },
}

/// What the caller reports back.
#[derive(Debug, PartialEq, Eq)]
pub enum Event {
    /// The project root.
    Root(String),
    /// Whether something exists at the probed path.
    Exists(bool),
    /// The action was carried out.
    Done,
    /// The action failed, with the failure's description.
    Failed(String),
}

/// An action as the contracts see it.
pub enum ActionView {
    ReadRoot,
    Probe { dir: Seq<char> },
    RemoveAll { dir: Seq<char> },
    CreateAll { dir: Seq<char> },
    Export { dir: Seq<char>, record: RecordView },
    Finish,
    Abort { description: Seq<char> },
}

/// An event as the contracts see it.
pub enum EventView {
    Root { path: Seq<char> },
    Exists { found: bool },
    Done,
    Failed { description: Seq<char> },
}

/// Where a run stands: the action it is waiting on, or how it ended.
pub enum PhaseView {
    ReadingRoot,
    Probing { dir: Seq<char> },
    Removing { dir: Seq<char> },
    Creating { dir: Seq<char> },
    /// Waiting on the export of the record at `index`.
    Exporting { dir: Seq<char>, index: nat },
    Finished,
    Failed { description: Seq<char> },
}

/// A run as the contracts see it: the records it exports, in order, and where
/// it stands.
pub struct RunView {
    pub records: Seq<RecordView>,
    pub phase: PhaseView,
}

impl View for Action {
    type V = ActionView;

    open spec fn view(&self) -> ActionView {
        match self {
            Action::ReadRoot => ActionView::ReadRoot,
            Action::Probe { dir } => ActionView::Probe { dir: dir@ },
            Action::RemoveAll { dir } => ActionView::RemoveAll { dir: dir@ },
            Action::CreateAll { dir } => ActionView::CreateAll { dir: dir@ },
            Action::Export { dir, record } => ActionView::Export { dir: dir@, record: record@ },
            Action::Finish => ActionView::Finish,
            Action::Abort { description } => ActionView::Abort { description: description@ },
        }
    }
}

impl View for Event {
    type V = EventView;

    open spec fn view(&self) -> EventView {
        match self {
            Event::Root(path) => EventView::Root { path: path@ },
            Event::Exists(found) => EventView::Exists { found: *found },
            Event::Done => EventView::Done,
            Event::Failed(description) => EventView::Failed { description: description@ },
        }
    }
}

/// The output directory of a project rooted at `root`.
pub open spec fn output_dir(root: Seq<char>) -> Seq<char> {
    joined(root, OUTPUT_DIR_NAME@)
}

/// The step that asks for the export of the record at `index`, or that ends the
/// run where no record is left.
pub open spec fn export_from(records: Seq<RecordView>, dir: Seq<char>, index: nat) -> (
    PhaseView,
    ActionView,
) {
    if index < records.len() {
        (
            PhaseView::Exporting { dir, index },
            ActionView::Export { dir, record: records[index as int] },
        )
    } else {
        (PhaseView::Finished, ActionView::Finish)
    }
}

/// The step that ends the run in failure.
pub open spec fn failure(description: Seq<char>) -> (PhaseView, ActionView) {
    (PhaseView::Failed { description }, ActionView::Abort { description })
}

/// The transition of a run over `records`: from where it stands and what was
/// reported, to where it stands next and what it asks for.
///
/// A run that has ended stays as it is and repeats its last word. Otherwise a
/// reported failure ends the run, and so does an event that does not answer the
/// pending action.
pub open spec fn next(records: Seq<RecordView>, phase: PhaseView, event: EventView) -> (
    PhaseView,
    ActionView,
) {
    match (phase, event) {
        (PhaseView::Finished, _) => (phase, ActionView::Finish),
        (PhaseView::Failed { description }, _) => (phase, ActionView::Abort { description }),
        (_, EventView::Failed { description }) => failure(description),
        (PhaseView::ReadingRoot, EventView::Root { path }) => (
            PhaseView::Probing { dir: output_dir(path) },
            ActionView::Probe { dir: output_dir(path) },
        ),
        (PhaseView::Probing { dir }, EventView::Exists { found }) => if found {
            (PhaseView::Removing { dir }, ActionView::RemoveAll { dir })
        } else {
            (PhaseView::Creating { dir }, ActionView::CreateAll { dir })
        },
        (PhaseView::Removing { dir }, EventView::Done) => (
            PhaseView::Creating { dir },
            ActionView::CreateAll { dir },
        ),
        (PhaseView::Creating { dir }, EventView::Done) => export_from(records, dir, 0),
        (PhaseView::Exporting { dir, index }, EventView::Done) => export_from(
            records,
            dir,
            index + 1,
        ),
        _ => failure(UNEXPECTED_EVENT@),
    }
}

enum Phase {
    ReadingRoot,
    Probing { dir: String },
    Removing { dir: String },
    Creating { dir: String },
    Exporting { dir: String, index: usize },
    Finished,
    Failed { description: String },
}

impl View for Phase {
    type V = PhaseView;

    closed spec fn view(&self) -> PhaseView {
        match self {
            Phase::ReadingRoot => PhaseView::ReadingRoot,
            Phase::Probing { dir } => PhaseView::Probing { dir: dir@ },
            Phase::Removing { dir } => PhaseView::Removing { dir: dir@ },
            Phase::Creating { dir } => PhaseView::Creating { dir: dir@ },
            Phase::Exporting { dir, index } => PhaseView::Exporting {
                dir: dir@,
                index: *index as nat,
            },
            Phase::Finished => PhaseView::Finished,
            Phase::Failed { description } => PhaseView::Failed { description: description@ },
        }
    }
}

/// An export run: the record definitions to export and the progress made.
pub struct ExportRun {
    records: Vec<RecordDefinition>,
    phase: Phase,
}

impl View for ExportRun {
    type V = RunView;

    closed spec fn view(&self) -> RunView {
        RunView { records: record_views(self.records@), phase: self.phase@ }
    }
}

impl ExportRun {
    /// Starts a run that exports `records` in the order given. The first action
    /// is always to read the project root.
    pub fn begin(records: Vec<RecordDefinition>) -> (started: (ExportRun, Action))
        ensures
            started.0@ == (RunView {
                records: record_views(records@),
                phase: PhaseView::ReadingRoot,
            }),
            started.1@ == ActionView::ReadRoot,
    {
        (ExportRun { records, phase: Phase::ReadingRoot }, Action::ReadRoot)
    }

    /// Takes the outcome of the pending action and names the next one.
    pub fn step(self, event: Event) -> (stepped: (ExportRun, Action))
        ensures
            stepped.0@.records == self@.records,
            (stepped.0@.phase, stepped.1@) == next(self@.records, self@.phase, event@),
    {
        let ExportRun { records, phase } = self;
        let (phase, action) = match phase {
            Phase::Finished => (Phase::Finished, Action::Finish),
            Phase::Failed { description } => {
                let again = description.clone();
                (Phase::Failed { description }, Action::Abort { description: again })
            },
            waiting => match event {
                Event::Failed(description) => fail(description),
                Event::Root(path) => match waiting {
                    Phase::ReadingRoot => {
                        let dir = join(path.as_str(), OUTPUT_DIR_NAME);
                        let probed = dir.clone();
                        (Phase::Probing { dir }, Action::Probe { dir: probed })
                    },
                    _ => unexpected(),
                },
                Event::Exists(found) => match waiting {
                    Phase::Probing { dir } => {
                        let target = dir.clone();
                        if found {
                            (Phase::Removing { dir }, Action::RemoveAll { dir: target })
                        } else {
                            (Phase::Creating { dir }, Action::CreateAll { dir: target })
                        }
                    },
                    _ => unexpected(),
                },
                Event::Done => match waiting {
                    Phase::Removing { dir } => {
                        let target = dir.clone();
                        (Phase::Creating { dir }, Action::CreateAll { dir: target })
                    },
                    Phase::Creating { dir } => export_at(&records, dir, 0),
                    Phase::Exporting { dir, index } => {
                        if index < records.len() {
                            export_at(&records, dir, index + 1)
                        } else {
                            (Phase::Finished, Action::Finish)
                        }
                    },
                    _ => unexpected(),
                },
            },
        };
        (ExportRun { records, phase }, action)
    }
}

fn fail(description: String) -> (ended: (Phase, Action))
    ensures
        (ended.0@, ended.1@) == failure(description@),
{
    let again = description.clone();
    (Phase::Failed { description }, Action::Abort { description: again })
}

fn unexpected() -> (ended: (Phase, Action))
    ensures
        (ended.0@, ended.1@) == failure(UNEXPECTED_EVENT@),
{
    fail(String::from_str(UNEXPECTED_EVENT))
}

fn export_at(records: &Vec<RecordDefinition>, dir: String, index: usize) -> (stepped: (
    Phase,
    Action,
))
    ensures
        (stepped.0@, stepped.1@) == export_from(record_views(records@), dir@, index as nat),
{
    if index < records.len() {
        let target = dir.clone();
        let record = records[index].clone();
        (Phase::Exporting { dir, index }, Action::Export { dir: target, record })
    } else {
        (Phase::Finished, Action::Finish)
    }
}

} // verus!
