//! Walking a directory tree with an explicit stack of open directories.
//!
//! The cursor owns the open directories, innermost last, and decides what
//! happens to the stack after each read. Reading itself is the driver's
//! part: it takes the innermost directory with [`RecursiveDirIter::top_mut`],
//! reads one entry from it, and reports what it saw to
//! [`RecursiveDirIter::advance`]. The types of an open directory `F`, of an
//! entry `E` and of a read failure `X` are the driver's own.

use vstd::prelude::*;

verus! {

/// What came of trying to descend into a path.
pub enum Probe<F, X> {
    /// The path is not a directory.
    NotDirectory,
    /// The path is a directory and was opened.
    Opened(F),
    /// The path is a directory and could not be opened.
    Failed(X),
}

/// What one read of an open directory gave.
pub enum Observed<F, E, X> {
    /// An entry, with what came of trying to descend into it.
    Entry(E, Probe<F, X>),
    /// An entry that could not be read.
    EntryError(X),
    /// No entry is left.
    End,
}

/// A traversal in progress: the directories that are still being visited.
pub struct RecursiveDirIter<F> {
    stack: Vec<F>,
}

/// The stack after one read of its innermost directory, and the item that
/// the traversal yields for it, if any.
///
/// An entry is yielded as it is read; where it is a directory that was
/// opened, that directory goes on top and is drained before the current one
/// is read again. A directory that could not be opened is yielded as its
/// failure, in place of the entry, and is not descended into. An entry that
/// could not be read is yielded as its failure. An exhausted directory
/// leaves the stack and yields nothing.
pub open spec fn step<F, E, X>(frames: Seq<F>, seen: Observed<F, E, X>) -> (Seq<F>, Option<
    Result<E, X>,
>) {
    match seen {
        Observed::Entry(entry, Probe::Opened(frame)) => (frames.push(frame), Some(Ok(entry))),
        Observed::Entry(entry, Probe::NotDirectory) => (frames, Some(Ok(entry))),
        Observed::Entry(_, Probe::Failed(x)) => (frames, Some(Err(x))),
        Observed::EntryError(x) => (frames, Some(Err(x))),
        Observed::End => (frames.drop_last(), None),
    }
}

impl<F> RecursiveDirIter<F> {
    /// The open directories, outermost first.
    pub closed spec fn frames(&self) -> Seq<F> {
        self.stack@
    }

    /// Starts a traversal at a root of which `root` tells what opening it
    /// gave. A root that is not a directory gives an empty traversal; one
    /// that could not be opened gives its failure.
    pub fn new<X>(root: Probe<F, X>) -> (r: Result<Self, X>)
        ensures
            match root {
                Probe::NotDirectory => r matches Ok(it) && it.frames() == Seq::<F>::empty(),
                Probe::Opened(frame) => r matches Ok(it) && it.frames() == seq![frame],
                Probe::Failed(x) => r matches Err(e) && e == x,
            },
    {
        let mut stack = Vec::new();
        match root {
            Probe::NotDirectory => {},
            Probe::Opened(frame) => {
                stack.push(frame);
            },
            Probe::Failed(x) => {
                return Err(x);
            },
        }
        Ok(RecursiveDirIter { stack })
    }

    /// How many directories are open.
    pub fn depth(&self) -> (n: usize)
        ensures
            n == self.frames().len(),
    {
        self.stack.len()
    }

    /// Whether the traversal has ended: no directory is open.
    pub fn is_done(&self) -> (done: bool)
        ensures
            done == (self.frames().len() == 0),
    {
        self.stack.len() == 0
    }

    /// The innermost open directory, for the driver to read from. What the
    /// driver leaves in it is what the stack then holds in that place.
    pub fn top_mut(&mut self) -> (top: &mut F)
        requires
            old(self).frames().len() > 0,
        ensures
            *top == old(self).frames().last(),
            final(self).frames() == old(self).frames().drop_last().push(*final(top)),
    {
        let n: usize = self.stack.len();
        &mut self.stack[n - 1]
    }

    /// Takes in what the driver saw when it read the innermost directory,
    /// and gives the item to yield, if this read yields one.
    pub fn advance<E, X>(&mut self, seen: Observed<F, E, X>) -> (item: Option<Result<E, X>>)
        requires
            old(self).frames().len() > 0,
        ensures
            (final(self).frames(), item) == step(old(self).frames(), seen),
    {
        match seen {
            Observed::Entry(entry, probe) => {
                match probe {
                    Probe::Opened(frame) => {
                        self.stack.push(frame);
                        Some(Ok(entry))
                    },
                    Probe::NotDirectory => Some(Ok(entry)),
                    Probe::Failed(x) => Some(Err(x)),
                }
            },
            Observed::EntryError(x) => Some(Err(x)),
            Observed::End => {
                self.stack.pop();
                None
            },
        }
    }
}

/// Starts a traversal at a root; see [`RecursiveDirIter::new`].
pub fn walk_dirs<F, X>(root: Probe<F, X>) -> (r: Result<RecursiveDirIter<F>, X>)
    ensures
        match root {
            Probe::NotDirectory => r matches Ok(it) && it.frames() == Seq::<F>::empty(),
            Probe::Opened(frame) => r matches Ok(it) && it.frames() == seq![frame],
            Probe::Failed(x) => r matches Err(e) && e == x,
        },
{
    RecursiveDirIter::new(root)
}

} // verus!
