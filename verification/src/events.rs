//! From one filesystem notification to what is to be done about it.

use vstd::prelude::*;
use crate::aux_files::{is_source, is_svg_file};
use crate::text::texts;

verus! {

/// What happened to the paths of a notification.
#[derive(Debug, Clone, Copy, PartialEq, Eq, Structural)]
pub enum ChangeKind {
    /// Something was created at the path.
    Created,
    /// The content of the file at the path changed.
    DataModified,
    /// Something was renamed and now has the path.
    NameChangedTo,
    /// Something was renamed and no longer has the path.
    NameChangedFrom,
    /// Something was renamed from the first path to the second.
    NameChangedBoth,
    /// A file was removed from the path.
    Removed,
    /// Anything else.
    Other,
}

/// One notification of the watch: what happened, and to which paths. The
/// first path is the primary one; a rename that is reported as a pair
/// carries the old path first and the new path second.
#[derive(Debug, Clone, PartialEq, Eq)]
pub struct ChangeNotification {
    pub kind: ChangeKind,
    pub paths: Vec<String>,
}

/// What a notification asks for.
#[derive(Debug, Clone, PartialEq, Eq)]
pub enum Action {
    /// Render the source at the path.
    Convert(String),
    /// Delete the outputs that were derived from the source at the path.
    RemoveOutputs(String),
    /// Move the outputs of the source at the first path to the names that
    /// the second path derives.
    RenameOutputs(String, String),
    /// Nothing.
    Ignore,
}

/// An action with its paths as text.
pub enum ActionView {
    Convert(Seq<char>),
    RemoveOutputs(Seq<char>),
    RenameOutputs(Seq<char>, Seq<char>),
    Ignore,
}

impl View for Action {
    type V = ActionView;

    open spec fn view(&self) -> ActionView {
        match self {
            Action::Convert(p) => ActionView::Convert(p@),
            Action::RemoveOutputs(p) => ActionView::RemoveOutputs(p@),
            Action::RenameOutputs(from, to) => ActionView::RenameOutputs(from@, to@),
            Action::Ignore => ActionView::Ignore,
        }
    }
}

/// The action that a notification of `kind` on `paths` asks for, where
/// `primary_is_dir` tells whether the first path is a directory.
///
/// A notification without a path, or whose first path is not a source, is
/// ignored whatever its kind. Otherwise creation, a change of content and a
/// rename onto the path ask for a conversion; removal and a rename away
/// from the path ask for the outputs to be deleted; a rename reported as a
/// pair asks for the outputs to be moved.
pub open spec fn classify(kind: ChangeKind, paths: Seq<Seq<char>>, primary_is_dir: bool)
    -> ActionView {
    if paths.len() == 0 || !is_source(paths[0], primary_is_dir) {
        ActionView::Ignore
    } else {
        match kind {
            ChangeKind::Created | ChangeKind::DataModified | ChangeKind::NameChangedTo => {
                ActionView::Convert(paths[0])
            },
            ChangeKind::Removed | ChangeKind::NameChangedFrom => ActionView::RemoveOutputs(
                paths[0],
            ),
            ChangeKind::NameChangedBoth => if paths.len() >= 2 {
                ActionView::RenameOutputs(paths[0], paths[1])
            } else {
                ActionView::Ignore
            },
            ChangeKind::Other => ActionView::Ignore,
        }
    }
}

/// Decides what one notification asks for. `primary_is_dir` is what the
/// filesystem says of the notification's first path; it is not looked at
/// where there is no such path.
pub fn handle_event(event: &ChangeNotification, primary_is_dir: bool) -> (action: Action)
    ensures
        action@ == classify(event.kind, texts(event.paths@), primary_is_dir),
{
    if event.paths.len() == 0 {
        return Action::Ignore;
    }
    let path = &event.paths[0];
    assert(texts(event.paths@)[0] == path@);
    if !is_svg_file(path.as_str(), primary_is_dir) {
        return Action::Ignore;
    }
    match event.kind {
        ChangeKind::Created | ChangeKind::DataModified | ChangeKind::NameChangedTo => {
            Action::Convert(path.clone())
        },
        ChangeKind::Removed | ChangeKind::NameChangedFrom => Action::RemoveOutputs(path.clone()),
        ChangeKind::NameChangedBoth => {
            if event.paths.len() >= 2 {
                let to = &event.paths[1];
                assert(texts(event.paths@)[1] == to@);
                Action::RenameOutputs(path.clone(), to.clone())
            } else {
                Action::Ignore
            }
        },
        ChangeKind::Other => Action::Ignore,
    }
}

/// Creation, a change of content and a rename onto a source ask for a
/// conversion of that source.
pub proof fn lemma_arrivals_convert(kind: ChangeKind, paths: Seq<Seq<char>>)
    requires
        paths.len() > 0,
        is_source(paths[0], false),
        kind == ChangeKind::Created || kind == ChangeKind::DataModified || kind
            == ChangeKind::NameChangedTo,
    ensures
        classify(kind, paths, false) == ActionView::Convert(paths[0]),
{
}

/// Removal of a source and a rename away from it ask for its outputs to be
/// deleted.
pub proof fn lemma_departures_remove(kind: ChangeKind, paths: Seq<Seq<char>>)
    requires
        paths.len() > 0,
        is_source(paths[0], false),
        kind == ChangeKind::Removed || kind == ChangeKind::NameChangedFrom,
    ensures
        classify(kind, paths, false) == ActionView::RemoveOutputs(paths[0]),
{
}

/// Whatever its kind, a notification whose first path is a directory or is
/// not a source is ignored, and so is one without a path.
pub proof fn lemma_non_source_ignored(
    kind: ChangeKind,
    paths: Seq<Seq<char>>,
    primary_is_dir: bool,
)
    requires
        paths.len() == 0 || !is_source(paths[0], primary_is_dir),
    ensures
        classify(kind, paths, primary_is_dir) == ActionView::Ignore,
{
}

/// Any other kind of notification is ignored.
pub proof fn lemma_other_ignored(paths: Seq<Seq<char>>, primary_is_dir: bool)
    ensures
        classify(ChangeKind::Other, paths, primary_is_dir) == ActionView::Ignore,
{
}

} // verus!
