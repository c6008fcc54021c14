//! The commands a run hands to its host: changes to the file system whose
//! only answer is whether they succeeded.

use vstd::prelude::*;

verus! {

/// A change to the file system.
#[derive(Clone, Debug, PartialEq, Eq)]
pub enum Command {
    /// Delete a file. That it is missing is no failure worth reporting.
    RemoveFile { path: String },
    /// Delete a directory and all that is below it.
    RemoveTree { path: String },
    /// Create a directory and the directories above it.
    CreateDir { path: String },
    /// Move `from` onto `to` in one operation, replacing what is there.
    Rename { from: String, to: String },
    /// Copy the contents of entry `index` of the archive at `archive` into
    /// the file `path`, after creating the directory `dir` it lies in.
    WriteEntry { archive: String, index: usize, dir: String, path: String },
    /// Write `content` to the file `path`, creating the directory it lies in.
    WriteFile { path: String, content: String },
}

/// What a [`Command`] stands for.
pub enum CommandView {
    RemoveFile { path: Seq<char> },
    RemoveTree { path: Seq<char> },
    CreateDir { path: Seq<char> },
    Rename { from: Seq<char>, to: Seq<char> },
    WriteEntry { archive: Seq<char>, index: usize, dir: Seq<char>, path: Seq<char> },
    WriteFile { path: Seq<char>, content: Seq<char> },
}

impl View for Command {
    type V = CommandView;

    open spec fn view(&self) -> CommandView {
        match *self {
            Command::RemoveFile { path } => CommandView::RemoveFile { path: path@ },
            Command::RemoveTree { path } => CommandView::RemoveTree { path: path@ },
            Command::CreateDir { path } => CommandView::CreateDir { path: path@ },
            Command::Rename { from, to } => CommandView::Rename { from: from@, to: to@ },
            Command::WriteEntry { archive, index, dir, path } => CommandView::WriteEntry {
                archive: archive@,
                index,
                dir: dir@,
                path: path@,
            },
            Command::WriteFile { path, content } => CommandView::WriteFile {
                path: path@,
                content: content@,
            },
        }
    }
}

/// A command and what its failure means: a fatal step that fails ends the
/// script it belongs to, any other failure is passed over.
#[derive(Clone, Debug, PartialEq, Eq)]
pub struct Step {
    pub command: Command,
    pub fatal: bool,
}

/// What a [`Step`] stands for.
pub struct StepView {
    pub command: CommandView,
    pub fatal: bool,
}

impl View for Step {
    type V = StepView;

    open spec fn view(&self) -> StepView {
        StepView { command: self.command@, fatal: self.fatal }
    }
}

/// The steps of a script, each by its view.
pub open spec fn steps_view(steps: Seq<Step>) -> Seq<StepView> {
    Seq::new(steps.len(), |i: int| steps[i]@)
}

/// A step whose failure is passed over.
pub open spec fn lenient(command: CommandView) -> StepView {
    StepView { command, fatal: false }
}

/// A step whose failure ends the script.
pub open spec fn strict(command: CommandView) -> StepView {
    StepView { command, fatal: true }
}

/// The path a command creates or fills, if it does.
pub open spec fn written_path(command: CommandView) -> Option<Seq<char>> {
    match command {
        CommandView::CreateDir { path } => Some(path),
        CommandView::Rename { from, to } => Some(to),
        CommandView::WriteEntry { archive, index, dir, path } => Some(path),
        CommandView::WriteFile { path, content } => Some(path),
        CommandView::RemoveFile { path } => None,
        CommandView::RemoveTree { path } => None,
    }
}

/// Pushing a step onto a script pushes its view onto the script's view.
pub proof fn lemma_steps_view_push(steps: Seq<Step>, step: Step)
    ensures
        steps_view(steps.push(step)) == steps_view(steps).push(step@),
{
    assert(steps_view(steps.push(step)) =~= steps_view(steps).push(step@));
}

/// Removing the first step of a script removes the first of its view.
pub proof fn lemma_steps_view_rest(steps: Seq<Step>)
    requires
        steps.len() > 0,
    ensures
        steps_view(steps.remove(0)) == steps_view(steps).drop_first(),
        steps_view(steps)[0] == steps[0]@,
{
    assert(steps_view(steps.remove(0)) =~= steps_view(steps).drop_first());
}

} // verus!
