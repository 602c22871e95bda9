//! The steps that set a workspace up or create a note: what to make or
//! write, where, and what a failure of the step means.

use vstd::prelude::*;
use crate::content::{Config, WorkspaceContent, WorkspaceContentView};
use crate::error::StateError;
use crate::location::{Location, LocationView};

verus! {

/// A note file that ships with the application.
#[derive(Clone, Copy, Debug, PartialEq, Eq, Structural)]
pub enum Template {
    /// What a new note holds.
    Empty,
    /// The note that greets the user of a new workspace.
    Welcome,
}

impl Template {
    /// The name under which the template is bundled.
    pub open spec fn asset_name_text(self) -> Seq<char> {
        match self {
            Template::Empty => "empty.djot"@,
            Template::Welcome => "welcome.djot"@,
        }
    }

    /// The name under which the template is bundled.
    pub fn asset_name(&self) -> (name: &'static str)
        ensures
            name@ == self.asset_name_text(),
    {
        match self {
            Template::Empty => "empty.djot",
            Template::Welcome => "welcome.djot",
        }
    }
}

/// How an attempt to make a directory ended.
#[derive(Clone, Copy, Debug, PartialEq, Eq, Structural)]
pub enum DirCreation {
    /// The directory was made.
    Created,
    /// The directory was already there.
    AlreadyExists,
    /// The directory is not there and could not be made.
    Failed,
}

/// Whether the directory is there after the attempt. A directory that
/// existed before counts as made.
pub fn directory_ready(attempt: DirCreation) -> (ready: bool)
    ensures
        ready == (attempt != DirCreation::Failed),
{
    match attempt {
        DirCreation::Created => true,
        DirCreation::AlreadyExists => true,
        DirCreation::Failed => false,
    }
}

/// What a failed step means for the operation it belongs to.
#[derive(Clone, Copy, Debug, PartialEq, Eq, Structural)]
pub enum OnFailure {
    /// The operation ends with this error.
    Fail(StateError),
    /// The operation ends, and the caller gets the failure as the file
    /// system reported it.
    Propagate,
}

/// One thing to make or write.
pub enum Action {
    /// Make the directory, with its parents, unless it is there.
    CreateDir(Location),
    /// Write the configuration as JSON, replacing the file.
    WriteConfig { to: Location, config: Config },
    /// Write the bundled template, replacing the file.
    WriteTemplate { to: Location, template: Template },
    /// Write the index as JSON, replacing the file.
    WriteIndex { to: Location, content: WorkspaceContent },
}

/// The mathematical content of an `Action`.
pub enum ActionView {
    CreateDir(LocationView),
    WriteConfig { to: LocationView, config: Seq<Seq<char>> },
    WriteTemplate { to: LocationView, template: Template },
    WriteIndex { to: LocationView, content: WorkspaceContentView },
}

impl View for Action {
    type V = ActionView;

    open spec fn view(&self) -> ActionView {
        match self {
            Action::CreateDir(place) => ActionView::CreateDir(place@),
            Action::WriteConfig { to, config } => ActionView::WriteConfig {
                to: to@,
                config: config@,
            },
            Action::WriteTemplate { to, template } => ActionView::WriteTemplate {
                to: to@,
                template: *template,
            },
            Action::WriteIndex { to, content } => ActionView::WriteIndex {
                to: to@,
                content: content@,
            },
        }
    }
}

/// An action and what its failure means.
pub struct Step {
    pub action: Action,
    pub on_failure: OnFailure,
}

/// The mathematical content of a `Step`.
pub struct StepView {
    pub action: ActionView,
    pub on_failure: OnFailure,
}

impl View for Step {
    type V = StepView;

    open spec fn view(&self) -> StepView {
        StepView { action: self.action@, on_failure: self.on_failure }
    }
}

impl DeepView for Step {
    type V = StepView;

    open spec fn deep_view(&self) -> StepView {
        self.view()
    }
}

impl StepView {
    /// The place the step makes or writes.
    pub open spec fn target(self) -> LocationView {
        match self.action {
            ActionView::CreateDir(place) => place,
            ActionView::WriteConfig { to, .. } => to,
            ActionView::WriteTemplate { to, .. } => to,
            ActionView::WriteIndex { to, .. } => to,
        }
    }
}

/// What the operation does after a step: it goes on with the next step,
/// or it ends in one of two ways.
#[derive(Clone, Copy, Debug, PartialEq, Eq, Structural)]
pub enum Verdict {
    /// Go on.
    Continue,
    /// End with this error.
    Stop(StateError),
    /// End with the failure as the file system reported it.
    Raise,
}

/// What follows a step that did or did not succeed.
pub open spec fn verdict_of(on_failure: OnFailure, succeeded: bool) -> Verdict {
    if succeeded {
        Verdict::Continue
    } else {
        match on_failure {
            OnFailure::Fail(e) => Verdict::Stop(e),
            OnFailure::Propagate => Verdict::Raise,
        }
    }
}

impl Step {
    /// What the operation does after this step, given whether the step
    /// succeeded.
    pub fn verdict(&self, succeeded: bool) -> (verdict: Verdict)
        ensures
            verdict == verdict_of(self.on_failure, succeeded),
    {
        if succeeded {
            Verdict::Continue
        } else {
            match self.on_failure {
                    OnFailure::Fail(e) => Verdict::Stop(e),
                OnFailure::Propagate => Verdict::Raise,
            }
        }
    }
}

} // verus!
