//! One run of the version-file operation, as a state machine.
//!
//! The caller performs each requested action (creating the output directory,
//! running the describe query, reading the existing file, writing the new
//! content) and hands the outcome back as an event. Failures of those actions
//! are the caller's to report; the machine itself only ever reports a missing
//! output directory.

use crate::render::{render_content, version_line};
use vstd::prelude::*;

verus! {

/// A generated file is fresh when it exists and already holds the content.
pub open spec fn fresh(existing: Option<Seq<char>>, content: Seq<char>) -> bool {
    existing == Some(content)
}

/// Whether the file content read from disk (absent when there is no file)
/// already equals the content to be written.
pub fn is_fresh(existing: &Option<String>, content: &String) -> (r: bool)
    ensures
        r == fresh(existing.deep_view(), content@),
{
    match existing {
        Some(current) => *current == *content,
        None => false,
    }
}

/// Where a run stands, as seen in contracts.
pub enum StageModel {
    CreatingDir,
    Describing,
    Checking(Seq<char>),
    Writing(Seq<char>),
    Done,
    Failed,
}

/// An outcome handed to the machine, as seen in contracts.
pub enum EventModel {
    DirCreated,
    Described(Option<Seq<char>>),
    ExistingRead(Option<Seq<char>>),
    Written,
}

/// What the machine asks of its caller, as seen in contracts.
pub enum ActionModel {
    CreateDir,
    Describe,
    ReadExisting,
    Write(Seq<char>),
    Finish,
    MissingEnvVar,
}

/// Where a run stands.
#[derive(Debug, Clone, PartialEq, Eq)]
pub enum VersionSync {
    /// Waiting for the output directory to be created.
    CreatingDir,
    /// Waiting for the describe result.
    Describing,
    /// Waiting for the current content of the file, to compare with `content`.
    Checking { content: String },
    /// Waiting for `content` to be written to the file.
    Writing { content: String },
    /// The file holds the content: the run succeeded.
    Done,
    /// No output directory was given: the run failed.
    Failed,
}

/// An outcome of a requested action.
#[derive(Debug, Clone, PartialEq, Eq)]
pub enum Event {
    /// The output directory exists now.
    DirCreated,
    /// The describe query ran; `describe` is absent when it gave nothing usable.
    Described { describe: Option<String> },
    /// The generated file was read; `existing` is absent when there is none.
    ExistingRead { existing: Option<String> },
    /// The requested content was written and flushed.
    Written,
}

/// A request to the caller.
#[derive(Debug, Clone, PartialEq, Eq)]
pub enum Action {
    /// Create the output directory and its missing ancestors.
    CreateDir,
    /// Run the describe query.
    Describe,
    /// Read the generated file, if there is one.
    ReadExisting,
    /// Replace the generated file's content by `content`.
    Write { content: String },
    /// Stop: the run succeeded.
    Finish,
    /// Stop: the output directory was not given.
    MissingEnvVar,
}

impl View for VersionSync {
    type V = StageModel;

    open spec fn view(&self) -> StageModel {
        match self {
            VersionSync::CreatingDir => StageModel::CreatingDir,
            VersionSync::Describing => StageModel::Describing,
            VersionSync::Checking { content } => StageModel::Checking(content@),
            VersionSync::Writing { content } => StageModel::Writing(content@),
            VersionSync::Done => StageModel::Done,
            VersionSync::Failed => StageModel::Failed,
        }
    }
}

impl View for Event {
    type V = EventModel;

    open spec fn view(&self) -> EventModel {
        match self {
            Event::DirCreated => EventModel::DirCreated,
            Event::Described { describe } => EventModel::Described(describe.deep_view()),
            Event::ExistingRead { existing } => EventModel::ExistingRead(existing.deep_view()),
            Event::Written => EventModel::Written,
        }
    }
}

impl View for Action {
    type V = ActionModel;

    open spec fn view(&self) -> ActionModel {
        match self {
            Action::CreateDir => ActionModel::CreateDir,
            Action::Describe => ActionModel::Describe,
            Action::ReadExisting => ActionModel::ReadExisting,
            Action::Write { content } => ActionModel::Write(content@),
            Action::Finish => ActionModel::Finish,
            Action::MissingEnvVar => ActionModel::MissingEnvVar,
        }
    }
}

/// The request that a stage waits on.
pub open spec fn pending(s: StageModel) -> ActionModel {
    match s {
        StageModel::CreatingDir => ActionModel::CreateDir,
        StageModel::Describing => ActionModel::Describe,
        StageModel::Checking(_) => ActionModel::ReadExisting,
        StageModel::Writing(c) => ActionModel::Write(c),
        StageModel::Done => ActionModel::Finish,
        StageModel::Failed => ActionModel::MissingEnvVar,
    }
}

/// The first stage and request of a run: the directory is created first,
/// unless no output directory was given, which fails the run at once.
pub open spec fn started(out_dir_given: bool) -> (StageModel, ActionModel) {
    if out_dir_given {
        (StageModel::CreatingDir, ActionModel::CreateDir)
    } else {
        (StageModel::Failed, ActionModel::MissingEnvVar)
    }
}

/// The next stage and request after an event. An event that the stage does
/// not wait on changes nothing, and the pending request is made again.
pub open spec fn next(s: StageModel, e: EventModel) -> (StageModel, ActionModel) {
    match (s, e) {
        (StageModel::CreatingDir, EventModel::DirCreated) => (
            StageModel::Describing,
            ActionModel::Describe,
        ),
        (StageModel::Describing, EventModel::Described(d)) => (
            StageModel::Checking(version_line(d)),
            ActionModel::ReadExisting,
        ),
        (StageModel::Checking(c), EventModel::ExistingRead(x)) => if fresh(x, c) {
            (StageModel::Done, ActionModel::Finish)
        } else {
            (StageModel::Writing(c), ActionModel::Write(c))
        },
        (StageModel::Writing(_), EventModel::Written) => (StageModel::Done, ActionModel::Finish),
        _ => (s, pending(s)),
    }
}

impl VersionSync {
    /// Starts a run; `out_dir_given` tells whether the build environment
    /// supplied the output directory.
    pub fn start(out_dir_given: bool) -> (r: (VersionSync, Action))
        ensures
            (r.0@, r.1@) == started(out_dir_given),
    {
        if out_dir_given {
            (VersionSync::CreatingDir, Action::CreateDir)
        } else {
            (VersionSync::Failed, Action::MissingEnvVar)
        }
    }

    /// The request that this stage waits on.
    pub fn pending_action(&self) -> (r: Action)
        ensures
            r@ == pending(self@),
    {
        match self {
            VersionSync::CreatingDir => Action::CreateDir,
            VersionSync::Describing => Action::Describe,
            VersionSync::Checking { .. } => Action::ReadExisting,
            VersionSync::Writing { content } => Action::Write { content: content.clone() },
            VersionSync::Done => Action::Finish,
            VersionSync::Failed => Action::MissingEnvVar,
        }
    }

    /// Takes in the outcome of the last request and returns the next one.
    pub fn step(&mut self, event: Event) -> (r: Action)
        ensures
            (final(self)@, r@) == next(old(self)@, event@),
    {
        match (&*self, event) {
            (VersionSync::CreatingDir, Event::DirCreated) => {
                *self = VersionSync::Describing;
                Action::Describe
            },
            (VersionSync::Describing, Event::Described { describe }) => {
                let content = match &describe {
                    Some(d) => render_content(Some(d.as_str())),
                    None => render_content(None),
                };
                *self = VersionSync::Checking { content };
                Action::ReadExisting
            },
            (VersionSync::Checking { content }, Event::ExistingRead { existing }) => {
                if is_fresh(&existing, content) {
                    *self = VersionSync::Done;
                    Action::Finish
                } else {
                    let c = content.clone();
                    *self = VersionSync::Writing { content: content.clone() };
                    Action::Write { content: c }
                }
            },
            (VersionSync::Writing { .. }, Event::Written) => {
                *self = VersionSync::Done;
                Action::Finish
            },
            _ => self.pending_action(),
        }
    }
}

} // verus!
