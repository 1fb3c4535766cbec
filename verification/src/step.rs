//! What a command asks to be done on disk, and what it observed there.

use vstd::prelude::*;
use vstd::string::*;
use crate::error::{DirFault, Error, ErrorView, LinkFault};

verus! {

/// What a path leads to once every link on the way is followed.
#[derive(Clone, Copy, Debug, PartialEq, Eq)]
pub enum Kind {
    /// Nothing: no entry, or a link that leads nowhere.
    Missing,
    /// A directory.
    Directory,
    /// Something that is no directory.
    Other,
}

/// One change to the disk. A command returns the changes it wants in the
/// order in which they are to be made.
#[derive(Clone, Debug, PartialEq, Eq)]
pub enum Step {
    /// Create a directory and those above it, where they are missing.
    CreateDir { path: String },
    /// Remove the link at `path`.
    RemoveLink { path: String },
    /// Create a link at `link` that points at `target`.
    CreateLink { target: String, link: String },
    /// Remove the directory at `path` and all below it.
    RemoveTree { path: String },
    /// Move the link at `from` to `to` in one step, over a link that
    /// stands there.
    Rename { from: String, to: String },
}

/// A `Step` with its strings as character sequences.
pub enum StepView {
    CreateDir { path: Seq<char> },
    RemoveLink { path: Seq<char> },
    CreateLink { target: Seq<char>, link: Seq<char> },
    RemoveTree { path: Seq<char> },
    Rename { from: Seq<char>, to: Seq<char> },
}

impl View for Step {
    type V = StepView;

    open spec fn view(&self) -> StepView {
        match *self {
            Step::CreateDir { path } => StepView::CreateDir { path: path@ },
            Step::RemoveLink { path } => StepView::RemoveLink { path: path@ },
            Step::CreateLink { target, link } => StepView::CreateLink {
                target: target@,
                link: link@,
            },
            Step::RemoveTree { path } => StepView::RemoveTree { path: path@ },
            Step::Rename { from, to } => StepView::Rename { from: from@, to: to@ },
        }
    }
}

impl DeepView for Step {
    type V = StepView;

    open spec fn deep_view(&self) -> StepView {
        self@
    }
}

/// The view of a result that carries steps.
pub open spec fn plan_outcome(r: Result<Vec<Step>, Error>) -> Result<Seq<StepView>, ErrorView> {
    match r {
        Ok(steps) => Ok(steps.deep_view()),
        Err(e) => Err(e@),
    }
}

/// The failure to report when a step could not be carried out: it names
/// the path the step was to change.
pub open spec fn failure(step: StepView) -> ErrorView {
    match step {
        StepView::CreateDir { path } => ErrorView::Dir { path, fault: DirFault::Create },
        StepView::RemoveLink { path } => ErrorView::Link { path, fault: LinkFault::Remove },
        StepView::CreateLink { target, link } => ErrorView::Link {
            path: link,
            fault: LinkFault::Create,
        },
        StepView::RemoveTree { path } => ErrorView::Dir { path, fault: DirFault::Remove },
        StepView::Rename { from, to } => ErrorView::Link { path: to, fault: LinkFault::Replace },
    }
}

impl Kind {
    /// What a path leads to, from whether it leads anywhere and whether
    /// that is a directory.
    pub fn of(present: bool, is_dir: bool) -> (kind: Kind)
        ensures
            kind == (if !present {
                Kind::Missing
            } else if is_dir {
                Kind::Directory
            } else {
                Kind::Other
            }),
    {
        if !present {
            Kind::Missing
        } else if is_dir {
            Kind::Directory
        } else {
            Kind::Other
        }
    }

    /// Whether the path leads to a directory.
    pub fn is_dir(&self) -> (yes: bool)
        ensures
            yes == (*self == Kind::Directory),
    {
        match self {
            Kind::Directory => true,
            _ => false,
        }
    }

    /// Whether the path leads anywhere.
    pub fn is_present(&self) -> (yes: bool)
        ensures
            yes == (*self != Kind::Missing),
    {
        match self {
            Kind::Missing => false,
            _ => true,
        }
    }
}

impl Step {
    /// The failure to report when this step could not be carried out.
    pub fn failed(&self) -> (e: Error)
        ensures
            e@ == failure(self@),
    {
        match self {
            Step::CreateDir { path } => Error::Dir { path: path.clone(), fault: DirFault::Create },
            Step::RemoveLink { path } => Error::Link {
                path: path.clone(),
                fault: LinkFault::Remove,
            },
            Step::CreateLink { target, link } => Error::Link {
                path: link.clone(),
                fault: LinkFault::Create,
            },
            Step::RemoveTree { path } => Error::Dir { path: path.clone(), fault: DirFault::Remove },
            Step::Rename { from, to } => Error::Link {
                path: to.clone(),
                fault: LinkFault::Replace,
            },
        }
    }
}

} // verus!
