//! The order in which a traversal reports a directory tree.
//!
//! A tree is modelled by what each directory lists, and an open directory
//! by its listing together with how far it has been read. Driving the
//! cursor of [`crate::walk_dirs`] over such a tree, one read after the
//! other, reports the tree in pre-order: every entry at the moment it is
//! read, and the content of a directory before the entries that follow it.

use vstd::prelude::*;
use crate::walk_dirs::{step, Observed, Probe};

verus! {

/// What a listing holds at one place.
pub enum Node<E, X> {
    /// An entry that is not a directory.
    File(E),
    /// A directory, with what it lists.
    Dir(E, Seq<Node<E, X>>),
    /// A directory that cannot be opened.
    Locked(E, X),
    /// An entry that cannot be read.
    Broken(X),
}

/// An open directory: what it lists, and how many of its entries were read.
pub struct Listing<E, X> {
    pub nodes: Seq<Node<E, X>>,
    pub pos: int,
}

/// How many places a node takes up, its content included.
pub open spec fn size<E, X>(node: Node<E, X>) -> nat
    decreases node, 0int,
{
    match node {
        Node::Dir(_, kids) => 1 + size_from(kids, 0),
        _ => 1,
    }
}

/// How many places the nodes from `from` on take up.
pub open spec fn size_from<E, X>(nodes: Seq<Node<E, X>>, from: int) -> nat
    decreases nodes, nodes.len() - from,
{
    if from < 0 || from >= nodes.len() {
        0
    } else {
        size(nodes[from]) + size_from(nodes, from + 1)
    }
}

/// What visiting one node reports: the entry itself and then, for a
/// directory, its content; the failure alone for a directory that cannot
/// be opened and for an entry that cannot be read.
pub open spec fn visit<E, X>(node: Node<E, X>) -> Seq<Result<E, X>>
    decreases node, 0int,
{
    match node {
        Node::File(entry) => seq![Ok(entry)],
        Node::Dir(entry, kids) => seq![Ok(entry)] + preorder_from(kids, 0),
        Node::Locked(_, x) => seq![Err(x)],
        Node::Broken(x) => seq![Err(x)],
    }
}

/// The pre-order report of the nodes from `from` on.
pub open spec fn preorder_from<E, X>(nodes: Seq<Node<E, X>>, from: int) -> Seq<Result<E, X>>
    decreases nodes, nodes.len() - from,
{
    if from < 0 || from >= nodes.len() {
        Seq::empty()
    } else {
        visit(nodes[from]) + preorder_from(nodes, from + 1)
    }
}

/// The pre-order report of a whole listing.
pub open spec fn preorder<E, X>(nodes: Seq<Node<E, X>>) -> Seq<Result<E, X>> {
    preorder_from(nodes, 0)
}

/// One read of an open directory: the directory afterwards, and what the
/// read gave. Reading past the end changes nothing.
pub open spec fn read<E, X>(frame: Listing<E, X>) -> (Listing<E, X>, Observed<
    Listing<E, X>,
    E,
    X,
>) {
    if 0 <= frame.pos < frame.nodes.len() {
        let after = Listing { nodes: frame.nodes, pos: frame.pos + 1 };
        match frame.nodes[frame.pos] {
            Node::File(entry) => (after, Observed::Entry(entry, Probe::NotDirectory)),
            Node::Dir(entry, kids) => (
                after,
                Observed::Entry(entry, Probe::Opened(Listing { nodes: kids, pos: 0 })),
            ),
            Node::Locked(entry, x) => (after, Observed::Entry(entry, Probe::Failed(x))),
            Node::Broken(x) => (after, Observed::EntryError(x)),
        }
    } else {
        (frame, Observed::End)
    }
}

/// One round of the driver: it reads the innermost directory and hands
/// what it saw to the cursor.
pub open spec fn round<E, X>(frames: Seq<Listing<E, X>>) -> (Seq<Listing<E, X>>, Option<
    Result<E, X>,
>) {
    let (top, seen) = read(frames.last());
    step(frames.drop_last().push(top), seen)
}

/// A bound on the rounds that are left: each open directory counts once,
/// and each unread place twice.
pub open spec fn weight<E, X>(frames: Seq<Listing<E, X>>) -> nat
    decreases frames.len(),
{
    if frames.len() == 0 {
        0
    } else {
        weight(frames.drop_last()) + 2 * size_from(frames.last().nodes, frames.last().pos) + 1
    }
}

/// Everything that the traversal reports from the stack `frames` on, round
/// after round, until no directory is open.
pub open spec fn run<E, X>(frames: Seq<Listing<E, X>>) -> Seq<Result<E, X>>
    decreases weight(frames),
{
    if frames.len() == 0 {
        Seq::empty()
    } else {
        proof {
            lemma_round_decreases(frames);
        }
        let (next, item) = round(frames);
        match item {
            Some(r) => seq![r] + run(next),
            None => run(next),
        }
    }
}

/// What is still to be reported of the open directories: the rest of the
/// innermost one first, then the rest of the one around it, and so on
/// outwards.
pub open spec fn pending<E, X>(frames: Seq<Listing<E, X>>) -> Seq<Result<E, X>>
    decreases frames.len(),
{
    if frames.len() == 0 {
        Seq::empty()
    } else {
        preorder_from(frames.last().nodes, frames.last().pos) + pending(frames.drop_last())
    }
}

/// Every round brings the traversal nearer to its end.
pub proof fn lemma_round_decreases<E, X>(frames: Seq<Listing<E, X>>)
    requires
        frames.len() > 0,
    ensures
        weight(round(frames).0) < weight(frames),
{
    let below = frames.drop_last();
    let frame = frames.last();
    let (top, seen) = read(frame);
    let pushed = below.push(top);
    assert(pushed.drop_last() =~= below);
    assert(pushed.last() == top);
    if 0 <= frame.pos < frame.nodes.len() {
        assert(size_from(frame.nodes, frame.pos) == size(frame.nodes[frame.pos]) + size_from(
            frame.nodes,
            frame.pos + 1,
        ));
        assert(weight(pushed) == weight(below) + 2 * size_from(frame.nodes, frame.pos + 1) + 1);
        match frame.nodes[frame.pos] {
            Node::Dir(entry, kids) => {
                let inner = Listing { nodes: kids, pos: 0 };
                let next = pushed.push(inner);
                assert(next.drop_last() =~= pushed);
                assert(next.last() == inner);
                assert(weight(next) == weight(pushed) + 2 * size_from(kids, 0) + 1);
            },
            _ => {},
        }
    } else {
        assert(round(frames).0 =~= below);
    }
}

/// The traversal reports exactly what is pending, in that order.
pub proof fn lemma_run_reports_pending<E, X>(frames: Seq<Listing<E, X>>)
    ensures
        run(frames) == pending(frames),
    decreases weight(frames),
{
    if frames.len() > 0 {
        lemma_round_decreases(frames);
        let below = frames.drop_last();
        let frame = frames.last();
        let (top, seen) = read(frame);
        let pushed = below.push(top);
        let (next, item) = round(frames);
        lemma_run_reports_pending(next);
        assert(pushed.drop_last() =~= below);
        assert(pushed.last() == top);
        if 0 <= frame.pos < frame.nodes.len() {
            let rest = preorder_from(frame.nodes, frame.pos + 1);
            assert(pending(pushed) == rest + pending(below));
            assert(pending(frames) == visit(frame.nodes[frame.pos]) + rest + pending(below));
            match frame.nodes[frame.pos] {
                Node::Dir(entry, kids) => {
                    let inner = Listing { nodes: kids, pos: 0 };
                    assert(next == pushed.push(inner));
                    assert(next.drop_last() =~= pushed);
                    assert(next.last() == inner);
                    assert(pending(next) == preorder_from(kids, 0) + pending(pushed));
                    assert(run(frames) =~= pending(frames));
                },
                _ => {
                    assert(next == pushed);
                    assert(run(frames) =~= pending(frames));
                },
            }
        } else {
            assert(next =~= below);
            assert(preorder_from(frame.nodes, frame.pos) =~= Seq::<Result<E, X>>::empty());
            assert(run(frames) =~= pending(frames));
        }
    }
}

/// A traversal that starts with the root's listing open and unread reports
/// the tree in pre-order: each entry once, at the place where it is read,
/// and the content of each directory after the directory itself and before
/// whatever follows the directory in its own listing.
pub proof fn lemma_walk_is_preorder<E, X>(root: Seq<Node<E, X>>)
    ensures
        run(seq![Listing { nodes: root, pos: 0 }]) == preorder(root),
{
    let frames = seq![Listing { nodes: root, pos: 0 }];
    lemma_run_reports_pending(frames);
    assert(frames.drop_last() =~= Seq::<Listing<E, X>>::empty());
    assert(pending(frames.drop_last()) =~= Seq::<Result<E, X>>::empty());
    assert(pending(frames) =~= preorder_from(root, 0));
}

} // verus!
